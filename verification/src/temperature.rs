//! Temperature readings: the thermal subsystem reports millidegrees Celsius,
//! callers of the device receive whole degrees.

use vstd::prelude::*;

verus! {

/// Millidegrees in one degree Celsius.
pub const MILLIDEGREES_PER_DEGREE: i32 = 1000;

/// Whole degrees in `millidegrees`, rounded toward zero.
pub open spec fn whole_degrees(millidegrees: int) -> int {
    if millidegrees >= 0 {
        millidegrees / 1000
    } else {
        -((-millidegrees) / 1000)
    }
}

/// Converts a raw reading of the thermal subsystem to whole degrees Celsius,
/// discarding the fraction (truncation toward zero). No range is imposed on
/// the result.
pub fn to_whole_degrees(millidegrees: i32) -> (degrees: isize)
    ensures
        degrees == whole_degrees(millidegrees as int),
{
    (millidegrees / MILLIDEGREES_PER_DEGREE) as isize
}

/// Truncation toward zero: the whole degrees, taken as millidegrees, differ
/// from the reading by less than a degree and never lie farther from zero
/// than the reading does.
pub proof fn lemma_whole_degrees_truncates(millidegrees: int)
    ensures
        millidegrees >= 0 ==> 0 <= millidegrees - whole_degrees(millidegrees) * 1000 < 1000,
        millidegrees <= 0 ==> -1000 < millidegrees - whole_degrees(millidegrees) * 1000 <= 0,
{
}

/// Negating a reading negates its whole degrees.
pub proof fn lemma_whole_degrees_negates(millidegrees: int)
    ensures
        whole_degrees(-millidegrees) == -whole_degrees(millidegrees),
{
}

/// The whole degrees of a 32-bit reading fit any signed machine word.
pub proof fn lemma_whole_degrees_bounded(millidegrees: i32)
    ensures
        -2147483 <= whole_degrees(millidegrees as int) <= 2147483,
        whole_degrees(millidegrees as int) as isize == whole_degrees(millidegrees as int),
{
}

} // verus!
