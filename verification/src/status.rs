use vstd::prelude::*;

use crate::code::Errno;

verus! {

/// The value of `ERANGE` on the targets this crate is built for.
pub const ERANGE: i32 = 34;

/// What a `strerror_r` status reports as a failure, given the `errno`
/// read after the call: nothing for a zero status; the reason (the
/// status itself when positive, `errno` when negative) otherwise, unless
/// that reason is `ERANGE`, which only says the buffer was too small.
pub open spec fn failure_reason(rc: i32, current: Errno) -> Option<Errno> {
    if rc == 0 {
        None
    } else {
        let reported = if rc < 0 { current } else { Errno(rc) };
        if reported.0 == ERANGE { None } else { Some(reported) }
    }
}

/// Decides what a `strerror_r` status means, given the current `errno`.
///
/// Zero is success. A negative status is how glibc older than 2.13
/// reported failure, with the reason left in `errno`. `ERANGE` says only
/// that the buffer was too small, and a truncated message is more use
/// than an error, so it is not a failure to report.
pub fn describe_failure(rc: i32, current: Errno) -> (failed: Option<Errno>)
    ensures
        failed == failure_reason(rc, current),
{
    if rc == 0 {
        return None;
    }
    let reported = if rc < 0 { current } else { Errno(rc) };
    if reported.0 != ERANGE {
        Some(reported)
    } else {
        None
    }
}

/// Zero is success; a positive status is the reason itself; a negative one
/// leaves the reason in `errno`; and `ERANGE` is never a failure, however
/// it was reported.
pub proof fn lemma_status_reading(rc: i32, current: Errno)
    ensures
        rc == 0 ==> failure_reason(rc, current) is None,
        rc > 0 && rc != ERANGE ==> failure_reason(rc, current) == Some(Errno(rc)),
        rc < 0 && current.0 != ERANGE ==> failure_reason(rc, current) == Some(current),
        rc == ERANGE ==> failure_reason(rc, current) is None,
        rc < 0 && current.0 == ERANGE ==> failure_reason(rc, current) is None,
        failure_reason(rc, current) matches Some(reason) ==> rc != 0 && reason.0 != ERANGE,
{
}

} // verus!
