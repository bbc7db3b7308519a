//! Verified core of a fan-control bridge for TUXEDO InfinityBook Gen10
//! laptops.
//!
//! The crate decides *what* has to happen on the privileged device node and
//! *how* the driver's answers are to be read; it never touches the device
//! itself. A host program performs the actions it is handed (open the node,
//! one ioctl, close the descriptor) and reports each outcome back.
//!
//! - [`sys::ioctl`] holds the driver's protocol: the operations, the three
//!   shapes of a transfer, and the encoding of request codes.
//! - [`tuxedo_io`] holds the hardware handle: the conversion between duty
//!   percentages and raw speeds, the ioctl behind each typed operation, and
//!   the meaning of its outcome.
//! - [`device`] describes the device and its two fan channels to a caller.
//! - [`service`] holds the device state manager, which owns the one handle
//!   slot: it opens a handle when the first request needs one, hands the
//!   fans back to the firmware before it lets go of it, and keeps the
//!   requests apart. [`service::model`] is the manager as a transition
//!   system, and [`service::laws`] is what holds of it on every path.
//! - [`error`] lists the ways a request can fail.

pub mod device;
pub mod error;
pub mod service;
pub mod sys;
pub mod tuxedo_io;
