use vstd::prelude::*;

verus! {

/// Relies on chrono's `Utc::now().timestamp_millis()`: the wall-clock time in
/// milliseconds since the Unix epoch. The value depends on the machine's
/// clock, so nothing is promised of it; callers check the range they need.
/// chrono unwraps the duration since the epoch, so on a host clock set
/// before 1970 the call panics inside this wrapper; that is driven by the
/// environment, not by any input, and no `requires` can rule it out.
#[verifier::external_body]
pub(crate) fn now_millis() -> (t: i64) {
    chrono::Utc::now().timestamp_millis()
}

} // verus!
