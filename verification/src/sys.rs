//! The kernel driver's interface.

use vstd::prelude::*;

pub mod ioctl;

verus! {

/// The largest raw fan speed the embedded controller accepts.
pub const UW_MAX_FAN_SPEED: i32 = 200;

} // verus!
