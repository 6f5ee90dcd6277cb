//! Trusted bridge to the calendar crate for RFC 3339 timestamps. Times are
//! carried everywhere else as plain seconds since the Unix epoch.

use vstd::prelude::*;
use vstd::string::*;

verus! {

/// Whether the calendar crate can represent `t` seconds since the epoch.
pub uninterp spec fn rfc3339_representable(t: int) -> bool;

/// The RFC 3339 rendering of `t` seconds since the epoch.
pub uninterp spec fn rfc3339_of(t: int) -> Seq<char>;

/// The human-readable date-and-time rendering of `t` seconds since the epoch.
pub uninterp spec fn display_time_of(t: int) -> Seq<char>;

/// Whether `s` parses as an RFC 3339 timestamp.
pub uninterp spec fn rfc3339_parses(s: Seq<char>) -> bool;

/// The epoch seconds of the RFC 3339 timestamp `s`.
pub uninterp spec fn rfc3339_epoch_of(s: Seq<char>) -> int;

/// Relies on `chrono::DateTime::from_timestamp` (defined for a bounded range
/// of seconds) and `DateTime::to_rfc3339`: both depend on the number alone.
#[verifier::external_body]
pub(crate) fn format_rfc3339(t: i64) -> (r: Option<String>)
    ensures
        r is Some <==> rfc3339_representable(t as int),
        r matches Some(s) ==> s@ == rfc3339_of(t as int),
{
    chrono::DateTime::<chrono::Utc>::from_timestamp(t, 0).map(|d| d.to_rfc3339())
}

/// Relies on `chrono::DateTime::from_timestamp` and the `format` renderer:
/// both depend on the number alone.
#[verifier::external_body]
pub(crate) fn format_display_time(t: i64) -> (r: Option<String>)
    ensures
        r is Some <==> rfc3339_representable(t as int),
        r matches Some(s) ==> s@ == display_time_of(t as int),
{
    chrono::DateTime::<chrono::Utc>::from_timestamp(t, 0).map(
        |d| d.format("%Y-%m-%d %H:%M:%S UTC").to_string(),
    )
}

/// Relies on `chrono::DateTime::parse_from_rfc3339` and
/// `DateTime::timestamp`: both depend on the string alone.
#[verifier::external_body]
pub(crate) fn parse_rfc3339(s: &str) -> (r: Option<i64>)
    ensures
        r is Some <==> rfc3339_parses(s@),
        r matches Some(t) ==> t as int == rfc3339_epoch_of(s@),
{
    chrono::DateTime::parse_from_rfc3339(s).ok().map(|d| d.timestamp())
}

/// The last-update annotation value stamped at time `now`: the RFC 3339
/// timestamp, with the approver recorded after it when one is known.
pub open spec fn spec_last_update_value(now: int, approver: Option<Seq<char>>) -> Seq<char> {
    match approver {
        Some(a) => rfc3339_of(now) + " (approved by "@ + a + ")"@,
        None => rfc3339_of(now),
    }
}

/// Build the last-update annotation value stamped at time `now`; `None`
/// only when the calendar crate cannot represent `now`.
pub fn last_update_value(now: i64, approver: Option<&str>) -> (r: Option<String>)
    ensures
        r is Some <==> rfc3339_representable(now as int),
        r matches Some(s) ==> s@ == spec_last_update_value(
            now as int,
            match approver {
                Some(a) => Some(a@),
                None => None,
            },
        ),
{
    match format_rfc3339(now) {
        None => None,
        Some(ts) => match approver {
            None => Some(ts),
            Some(a) => {
                let mut s = ts;
                s.append(" (approved by ");
                s.append(a);
                s.append(")");
                proof {
                    assert(s@ =~= rfc3339_of(now as int) + " (approved by "@ + a@ + ")"@);
                }
                Some(s)
            },
        },
    }
}

} // verus!
