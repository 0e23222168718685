//! Timestamps as text.

use vstd::prelude::*;

verus! {

/// The RFC 3339 text, in UTC, of the moment `seconds` after the Unix epoch as
/// the `time` crate writes it, or nothing where the moment lies outside the
/// years that the format can express.
pub uninterp spec fn rfc3339_utc(seconds: i64) -> Option<Seq<char>>;

/// Calls `OffsetDateTime::from_unix_timestamp` and formats the moment with
/// `time`'s `Rfc3339`. Both depend on the number of seconds alone.
#[verifier::external_body]
pub(crate) fn format_rfc3339(seconds: i64) -> (text: Option<String>)
    ensures
        match text {
            Some(t) => rfc3339_utc(seconds) == Some(t@),
            None => rfc3339_utc(seconds) is None,
        },
{
    match time::OffsetDateTime::from_unix_timestamp(seconds) {
        Ok(moment) => moment.format(&time::format_description::well_known::Rfc3339).ok(),
        Err(_) => None,
    }
}

} // verus!
