use vstd::prelude::*;

verus! {

/// Relies on chrono's `Utc::now` for the wall clock: it panics rather than
/// return a time before the Unix epoch, so the millisecond timestamp of any
/// time it does return is non-negative.
#[verifier::external_body]
pub(crate) fn now_unix_millis() -> (r: i64)
    ensures
        r >= 0,
{
    chrono::Utc::now().timestamp_millis()
}

} // verus!
