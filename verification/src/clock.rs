use vstd::prelude::*;
use convert_case::Casing;

verus! {

#[verifier::external_type_specification]
#[verifier::external_body]
pub struct ExSystemTime(std::time::SystemTime);

#[verifier::external_type_specification]
#[verifier::external_body]
pub struct ExInstant(std::time::Instant);

/// Reads the system clock through `chrono::Utc::now` and gives the instant
/// as milliseconds since the Unix epoch.
#[verifier::external_body]
pub(crate) fn utc_now_millis() -> i64 {
    chrono::Utc::now().timestamp_millis()
}

/// What `convert_case` makes of a text in snake case.
pub uninterp spec fn snake_case_of(s: Seq<char>) -> Seq<char>;

/// Calls `convert_case::Casing::to_case` with `Case::Snake`, which splits the
/// text into words at the crate's boundaries and joins them in lower case with
/// `_`. The result depends on the text alone and is named, not spelled out:
/// the crate's rules for word boundaries are not restated here.
#[verifier::external_body]
pub(crate) fn to_snake_case(s: &str) -> (r: String)
    ensures r@ == snake_case_of(s@),
{
    s.to_case(convert_case::Case::Snake)
}

} // verus!

verus! {

/// Reads the monotonic clock (`Instant::now`).
#[verifier::external_body]
pub(crate) fn instant_now() -> std::time::Instant {
    std::time::Instant::now()
}

/// The time since `since` (`Instant::elapsed`); it depends on the clock.
/// Which duration it is is not stated, only that, as every `Duration`, it is
/// `Duration::new(secs, nanos)` for some whole seconds and nanoseconds below
/// one second (its `as_secs` and `subsec_nanos`).
#[verifier::external_body]
pub(crate) fn instant_elapsed(since: &std::time::Instant) -> (elapsed: std::time::Duration)
    ensures
        written_in_parts(elapsed),
{
    since.elapsed()
}

/// `d` is `Duration::new(secs, nanos)` for some whole seconds and some
/// nanoseconds below one second.
pub open spec fn written_in_parts(d: std::time::Duration) -> bool {
    exists|secs: u64, nanos: u32| nanos < 1_000_000_000 && d == #[trigger] duration_of(secs, nanos)
}

/// `secs1` seconds and `nanos1` nanoseconds are at least `secs2` seconds and
/// `nanos2` nanoseconds (nanoseconds below one second).
pub open spec fn parts_at_least(secs1: u64, nanos1: u32, secs2: u64, nanos2: u32) -> bool {
    secs1 > secs2 || (secs1 == secs2 && nanos1 >= nanos2)
}

/// `a >= b` on durations (`PartialOrd::ge`). `Duration` is ordered by its
/// whole seconds, then by its nanoseconds below one second, which
/// `Duration::new(secs, nanos)` stores as given when `nanos` is below one
/// second.
#[verifier::external_body]
pub(crate) fn duration_at_least(a: &std::time::Duration, b: &std::time::Duration) -> (r: bool)
    ensures
        forall|s1: u64, n1: u32, s2: u64, n2: u32|
            n1 < 1_000_000_000 && n2 < 1_000_000_000
                && *a == #[trigger] duration_of(s1, n1) && *b == #[trigger] duration_of(s2, n2)
                ==> r == parts_at_least(s1, n1, s2, n2),
{
    *a >= *b
}

} // verus!

verus! {

/// Reads the system clock (`SystemTime::now`).
#[verifier::external_body]
pub(crate) fn system_time_now() -> std::time::SystemTime {
    std::time::SystemTime::now()
}

/// The time since `t` (`SystemTime::elapsed`); `None` where the clock reads
/// earlier than `t`. It depends on the clock.
#[verifier::external_body]
pub(crate) fn system_time_elapsed(t: &std::time::SystemTime) -> Option<std::time::Duration> {
    t.elapsed().ok()
}

/// Whole nanoseconds of a duration (`Duration::as_nanos`). Durations are
/// opaque here, so nothing is stated of the number.
#[verifier::external_body]
pub(crate) fn duration_as_nanos(d: &std::time::Duration) -> u128 {
    d.as_nanos()
}

/// The duration of `secs` seconds and `nanos` nanoseconds.
pub uninterp spec fn duration_of(secs: u64, nanos: u32) -> std::time::Duration;

/// `Duration::new(secs, nanos)`: the duration of `secs` seconds and `nanos`
/// nanoseconds, a function of its arguments alone. It panics only when
/// `nanos` carries into `secs` past `u64::MAX`, which `nanos < 1_000_000_000`
/// rules out.
#[verifier::external_body]
pub(crate) fn duration_new(secs: u64, nanos: u32) -> (r: std::time::Duration)
    requires
        nanos < 1_000_000_000,
    ensures
        r == duration_of(secs, nanos),
{
    std::time::Duration::new(secs, nanos)
}

} // verus!

verus! {

/// `SystemTime` is `Copy`; its `clone` returns the same instant.
pub assume_specification[ <std::time::SystemTime as Clone>::clone ](t: &std::time::SystemTime) -> (r: std::time::SystemTime)
    ensures
        r == *t,
;

} // verus!
