//! Verified core of a miscellaneous character device that reports the CPU
//! package temperature in answer to a single control code.

pub mod diagnostic;
pub mod error;
pub mod ioctl;
pub mod lifecycle;
pub mod protocol;
pub mod session;
pub mod temperature;
