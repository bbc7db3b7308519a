//! The ways a request can fail.

use vstd::prelude::*;

verus! {

/// A capability a caller may ask for that this hardware does not have.
#[derive(Clone, Copy, Debug, PartialEq, Eq)]
pub enum Capability {
    SpeedProfile,
    Lighting,
    Lcd,
    CustomFunctionOne,
}

/// Why a request failed. Every failure ends the request it belongs to and
/// nothing is retried.
#[derive(Clone, Copy, Debug, PartialEq, Eq)]
pub enum IoError {
    /// The device node could not be opened; holds the system's error number.
    DeviceUnavailable(i32),
    /// The driver answered the hardware check with something other than
    /// `HARDWARE_COMPATIBLE`.
    HardwareUnsupported,
    /// An ioctl failed; holds the system's error number.
    DriverError(i32),
    /// The channel identifier names no fan.
    InvalidChannel,
    /// The hardware does not have the capability.
    UnsupportedCapability(Capability),
}

impl Capability {
    /// What to tell a caller who asked for the capability.
    pub open spec fn spec_message(self) -> Seq<char> {
        match self {
            Capability::SpeedProfile => "No Firmware Profiles"@,
            Capability::Lighting => "No Lighting Channels"@,
            Capability::Lcd => "No LCD Channels"@,
            Capability::CustomFunctionOne => "No Custom Function"@,
        }
    }

    pub fn message(self) -> (message: &'static str)
        ensures
            message@ == self.spec_message(),
    {
        match self {
            Capability::SpeedProfile => "No Firmware Profiles",
            Capability::Lighting => "No Lighting Channels",
            Capability::Lcd => "No LCD Channels",
            Capability::CustomFunctionOne => "No Custom Function",
        }
    }
}

impl IoError {
    /// What to tell the caller whose request failed.
    pub open spec fn spec_message(self) -> Seq<char> {
        match self {
            IoError::DeviceUnavailable(_) => "device node unavailable"@,
            IoError::HardwareUnsupported => "hardware check failed"@,
            IoError::DriverError(_) => "driver call failed"@,
            IoError::InvalidChannel => "Unknown channel ID"@,
            IoError::UnsupportedCapability(capability) => capability.spec_message(),
        }
    }

    pub fn message(self) -> (message: &'static str)
        ensures
            message@ == self.spec_message(),
    {
        match self {
            IoError::DeviceUnavailable(_) => "device node unavailable",
            IoError::HardwareUnsupported => "hardware check failed",
            IoError::DriverError(_) => "driver call failed",
            IoError::InvalidChannel => "Unknown channel ID",
            IoError::UnsupportedCapability(capability) => capability.message(),
        }
    }

    /// The system's error number, where the failure came from the system.
    pub fn os_error(self) -> (errno: Option<i32>)
        ensures
            errno == match self {
                IoError::DeviceUnavailable(e) | IoError::DriverError(e) => Some(e),
                _ => None,
            },
    {
        match self {
            IoError::DeviceUnavailable(e) | IoError::DriverError(e) => Some(e),
            _ => None,
        }
    }
}

} // verus!
