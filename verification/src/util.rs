//! Time as a number.

use vstd::prelude::*;

verus! {

/// The milliseconds that a time of `secs` seconds and `nanos` nanoseconds
/// since the start of 1970 stands for; what is left of a millisecond is
/// dropped.
pub fn millis_since_epoch(secs: u64, nanos: u32) -> (ms: u128)
    ensures
        ms == secs * 1000 + nanos / 1_000_000,
{
    secs as u128 * 1000 + (nanos / 1_000_000) as u128
}

} // verus!
