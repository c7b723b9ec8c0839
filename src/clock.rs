//! Reading the clock around a compilation.
use vstd::prelude::*;

verus! {

#[verifier::external_type_specification]
#[verifier::external_body]
pub struct ExTm(time::Tm);

#[verifier::external_type_specification]
#[verifier::external_body]
pub struct ExDuration(time::Duration);

/// Relies on `time::Duration::num_nanoseconds`: the whole nanoseconds, or
/// `None` where they do not fit an `i64`.
pub assume_specification[ time::Duration::num_nanoseconds ](d: &time::Duration) -> (r: Option<i64>);

/// Relies on `time::Duration::num_milliseconds`: the whole milliseconds.
pub assume_specification[ time::Duration::num_milliseconds ](d: &time::Duration) -> (r: i64);

/// Relies on `time::now`: the current local time. Nothing is promised of it.
#[verifier::external_body]
pub(crate) fn clock_now() -> (r: time::Tm) {
    time::now()
}

/// Relies on `time::Tm`'s subtraction: the time from `start` to `end`.
#[verifier::external_body]
pub(crate) fn time_between(start: &time::Tm, end: &time::Tm) -> (r: time::Duration) {
    *end - *start
}

} // verus!
