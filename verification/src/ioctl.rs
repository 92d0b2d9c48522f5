//! Control codes: how a device class and a sequence number make the numeric
//! command that user space sends, and which command this device answers.

use vstd::prelude::*;

verus! {

/// Position of the device class within a control code, above the sequence number.
pub const IOC_TYPESHIFT: u32 = 8;

/// Device class of this driver's commands, the letter `R`.
pub const DEVICE_CLASS: u8 = 0x52;

/// Sequence number of the temperature query within the device class.
pub const TEMPERATURE_QUERY: u8 = 9;

/// The one control code the device recognizes: the temperature query, a
/// command of class `R` with sequence number 9 that carries no data.
pub const RUST_MISC_DEV_CPUTEMP: u32 = 0x5209;

/// The control code of a command without data: the device class in bits 8
/// to 15, the sequence number in bits 0 to 7, direction and size zero.
pub open spec fn io_code(class: u8, sequence: u8) -> int {
    class as int * 256 + sequence as int
}

/// Encodes a command that transfers no data.
pub fn io(class: u8, sequence: u8) -> (code: u32)
    ensures
        code == io_code(class, sequence),
{
    let code: u32 = ((class as u32) << IOC_TYPESHIFT) | (sequence as u32);
    assert(((class as u32) << 8u32) | (sequence as u32) == (class as u32) * 256 + (sequence as u32))
        by (bit_vector);
    code
}

/// Whether `command` is the control code the device answers.
pub fn is_recognized(command: u32) -> (recognized: bool)
    ensures
        recognized <==> command == RUST_MISC_DEV_CPUTEMP,
{
    command == RUST_MISC_DEV_CPUTEMP
}

/// The recognized control code is the encoding of the temperature query.
pub proof fn lemma_recognized_code_is_temperature_query()
    ensures
        RUST_MISC_DEV_CPUTEMP == io_code(DEVICE_CLASS, TEMPERATURE_QUERY),
{
}

} // verus!
