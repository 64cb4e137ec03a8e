//! The moisture sensor adapter.
//!
//! The sensor is sampled once per request and delivers a signed 16-bit
//! sample. Lower readings mean wetter soil: about 2840 in dry air, about 1180
//! under water. The controller never compares a reading with these numbers,
//! only with the threshold it has learned.

use vstd::prelude::*;

verus! {

/// The reading that stands for the raw sample `raw`: the same sixteen bits
/// taken as an unsigned number.
pub open spec fn reading_of(raw: int) -> int {
    if raw >= 0 {
        raw
    } else {
        raw + 0x1_0000
    }
}

/// Turns a raw sample into the unsigned reading that is compared with the
/// threshold and published.
pub fn reading_from_sample(raw: i16) -> (reading: u16)
    ensures
        reading == reading_of(raw as int),
{
    if raw >= 0 {
        raw as u16
    } else {
        (raw as i32 + 0x1_0000) as u16
    }
}

} // verus!
