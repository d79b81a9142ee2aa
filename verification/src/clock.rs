//! Instants and the one computation on them that is left to `chrono`.
//!
//! An instant is a Unix timestamp in milliseconds, held in an `i64`.

use vstd::prelude::*;

verus! {

/// The instant `seconds` after `instant`, as `chrono` computes it; `None`
/// where `chrono` cannot represent the span or the result.
pub uninterp spec fn instant_after(instant: i64, seconds: i64) -> Option<i64>;

/// Adds `seconds` to `instant` with `DateTime::checked_add_signed`, going
/// through `DateTime::from_timestamp_millis`, `TimeDelta::try_seconds` and
/// `DateTime::timestamp_millis`.
///
/// Trusted: the result is `instant_after` of the two numbers, and where
/// there is one it lies exactly `seconds` seconds after `instant`.
#[verifier::external_body]
pub(crate) fn add_seconds(instant: i64, seconds: i64) -> (later: Option<i64>)
    ensures
        later == instant_after(instant, seconds),
        later matches Some(t) ==> t == instant + seconds * 1000,
{
    let start = chrono::DateTime::from_timestamp_millis(instant)?;
    let span = chrono::TimeDelta::try_seconds(seconds)?;
    Some(start.checked_add_signed(span)?.timestamp_millis())
}

} // verus!
