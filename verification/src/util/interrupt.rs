//! The bridge from a polled predicate to the native library's interrupt hook.
//!
//! The native library calls its hook from time to time while it blocks. The
//! hook polls the predicate that the caller supplied, and its answer decides
//! whether the blocking call goes on.

use vstd::prelude::*;

verus! {

/// What the hook answers when the predicate has said `abort`: 1 to stop the
/// blocking call, 0 to let it go on.
pub open spec fn spec_answer(abort: bool) -> i32 {
    if abort {
        1
    } else {
        0
    }
}

/// The hook's answer to the native library for one poll of the predicate.
pub fn answer(abort: bool) -> (verdict: i32)
    ensures
        verdict == spec_answer(abort),
{
    if abort {
        1
    } else {
        0
    }
}

/// Whether the native library stops its blocking call on this answer: it does
/// on every answer but 0.
pub open spec fn spec_stops(verdict: i32) -> bool {
    verdict != 0
}

/// Whether the native library stops its blocking call on this answer.
pub fn stops(verdict: i32) -> (stop: bool)
    ensures
        stop == spec_stops(verdict),
{
    verdict != 0
}

/// The blocking call is stopped exactly when the predicate says so.
pub proof fn stops_exactly_on_abort(abort: bool)
    ensures
        spec_stops(spec_answer(abort)) == abort,
{
}

} // verus!
