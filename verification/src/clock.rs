//! The calendar, which the service has from the `chrono` crate. Nothing here
//! is proved: each function states what it takes on trust.

use vstd::prelude::*;

verus! {

/// The text that `chrono` prints for the moment `secs` seconds and `nanos`
/// nanoseconds after the start of 1970, or `None` where its calendar has no
/// such moment.
pub uninterp spec fn moment_text_of(secs: i64, nanos: u32) -> Option<Seq<char>>;

/// Calls `chrono::DateTime::from_timestamp` and, where that yields a moment,
/// prints the moment's `naive_utc()` through its `Display`.
///
/// Taken on trust: the outcome depends on the two numbers alone, so it has
/// the name `moment_text_of`. The numbers that `from_timestamp` rejects give
/// `None` here as they do there.
#[verifier::external_body]
pub(crate) fn moment_text(secs: i64, nanos: u32) -> (text: Option<String>)
    ensures
        text matches Some(printed) ==> moment_text_of(secs, nanos) == Some(printed@),
        text is None ==> moment_text_of(secs, nanos) is None,
{
    match chrono::DateTime::from_timestamp(secs, nanos) {
        Some(moment) => Some(moment.naive_utc().to_string()),
        None => None,
    }
}

/// Calls `chrono::Utc::now` and prints the day it falls on as year, month
/// and day with dots between them, through `format("%Y.%m.%d")`.
///
/// Nothing is claimed of the text: it changes with the clock. `Utc::now`
/// gives up on a machine whose clock stands before 1970.
#[verifier::external_body]
pub(crate) fn today_stamp() -> (date: String) {
    chrono::Utc::now().format("%Y.%m.%d").to_string()
}

} // verus!
