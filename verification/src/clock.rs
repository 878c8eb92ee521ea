//! Time, as nanoseconds of a clock that only goes forward.

use vstd::prelude::*;

verus! {

/// The time from `then` to `now`, none where `then` is later.
pub open spec fn since(now: u64, then: u64) -> u64 {
    if now >= then {
        (now - then) as u64
    } else {
        0
    }
}

/// The time from `then` to `now` ([`since`]).
pub fn elapsed(now: u64, then: u64) -> (r: u64)
    ensures
        r == since(now, then),
{
    if now >= then {
        now - then
    } else {
        0
    }
}

} // verus!
