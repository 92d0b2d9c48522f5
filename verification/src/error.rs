//! The conditions on which an operation of the device fails, and the error
//! numbers by which the operating system knows them.

use vstd::prelude::*;

verus! {

/// Error number for an allocation that failed.
pub const ENOMEM: i32 = 12;

/// Error number for a device that does not exist.
pub const ENODEV: i32 = 19;

/// Error number for a control code that the device does not implement.
pub const ENOIOCTLCMD: i32 = 515;

/// Why an operation of the device failed.
#[derive(Clone, Copy, Debug, PartialEq, Eq, Structural)]
pub enum DeviceError {
    /// The session object could not be allocated.
    OutOfMemory,
    /// The control code is not the one the device answers.
    UnsupportedCommand,
    /// The thermal subsystem knows no zone of the sensor's name, or could
    /// not read its temperature.
    SensorUnavailable,
    /// No registration is live, so there is no device to open.
    NoSuchDevice,
}

impl DeviceError {
    /// The positive error number of this condition.
    pub open spec fn errno(self) -> int {
        match self {
            DeviceError::OutOfMemory => ENOMEM as int,
            DeviceError::UnsupportedCommand => ENOIOCTLCMD as int,
            DeviceError::SensorUnavailable => ENODEV as int,
            DeviceError::NoSuchDevice => ENODEV as int,
        }
    }

    /// The negative code that the operating system returns to the caller for
    /// this condition.
    pub fn to_errno(&self) -> (code: i32)
        ensures
            code == -self.errno(),
            code < 0,
    {
        match self {
            DeviceError::OutOfMemory => -ENOMEM,
            DeviceError::UnsupportedCommand => -ENOIOCTLCMD,
            DeviceError::SensorUnavailable => -ENODEV,
            DeviceError::NoSuchDevice => -ENODEV,
        }
    }
}

} // verus!
