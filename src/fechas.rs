//! Election dates: `dd-mm-YYYY hh:mm`, read as UTC, in milliseconds.

use vstd::prelude::*;

verus! {

/// The milliseconds since the Unix epoch of the date that `s` writes as
/// `dd-mm-YYYY hh:mm`, read as UTC; nothing where `s` is no such date.
pub uninterp spec fn milisegundos_de_fecha(s: Seq<char>) -> Option<i64>;

/// Relies on chrono's `NaiveDateTime::parse_from_str` with the format
/// `%d-%m-%Y %H:%M`, whose outcome depends on the text alone, and on
/// `and_utc().timestamp_millis()` to read the parsed time as UTC
/// milliseconds.
#[verifier::external_body]
pub(crate) fn fecha_a_milisegundos(s: &str) -> (r: Option<i64>)
    ensures
        r == milisegundos_de_fecha(s@),
{
    match chrono::NaiveDateTime::parse_from_str(s, "%d-%m-%Y %H:%M") {
        Ok(f) => Some(f.and_utc().timestamp_millis()),
        Err(_) => None,
    }
}

} // verus!
