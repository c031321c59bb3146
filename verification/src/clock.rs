//! Wall-clock time, RFC 3339 rendering and random identifiers, obtained from
//! chrono and uuid.

use vstd::prelude::*;
use chrono::{DateTime, SecondsFormat, Utc};
use crate::models::UtcTime;

verus! {

/// First second chrono can represent: January 1 of year -262143 (262144
/// BCE, proleptic Gregorian), 00:00:00 UTC.
pub open spec fn chrono_min_secs() -> int {
    -8_334_601_228_800
}

/// Last second chrono can represent: December 31, 262142 CE, 23:59:59 UTC.
pub open spec fn chrono_max_secs() -> int {
    8_210_266_876_799
}

/// Whether chrono represents the instant `secs` seconds and `nanos`
/// nanoseconds after the Unix epoch: the second lies in chrono's range, and
/// the nanoseconds stay below one second except during a leap second (the
/// last second of a minute), which may run up to two.
pub open spec fn representable(secs: i64, nanos: u32) -> bool {
    &&& chrono_min_secs() <= secs <= chrono_max_secs()
    &&& (nanos < 1_000_000_000 || (nanos < 2_000_000_000 && secs % 60 == 59))
}

/// RFC 3339 text (whole seconds, `Z` suffix) that chrono renders for the UTC
/// instant `secs` seconds and `nanos` nanoseconds after the Unix epoch, or
/// `None` when chrono cannot represent that instant.
pub uninterp spec fn rfc3339_seconds(secs: i64, nanos: u32) -> Option<Seq<char>>;

/// `DateTime::<Utc>::from_timestamp` followed by
/// `to_rfc3339_opts(SecondsFormat::Secs, true)` (chrono). `from_timestamp`
/// refuses exactly the instants outside chrono's date range and the
/// nanosecond values that `NaiveTime::from_num_seconds_from_midnight_opt`
/// refuses; rendering never fails. The rendered text itself is named, not
/// spelled out.
#[verifier::external_body]
pub fn format_rfc3339_seconds(t: UtcTime) -> (r: Option<String>)
    ensures
        r is Some <==> representable(t.secs, t.nanos),
        match r {
            Some(s) => rfc3339_seconds(t.secs, t.nanos) == Some(s@),
            None => rfc3339_seconds(t.secs, t.nanos) is None,
        },
{
    match DateTime::<Utc>::from_timestamp(t.secs, t.nanos) {
        Some(d) => Some(d.to_rfc3339_opts(SecondsFormat::Secs, true)),
        None => None,
    }
}

/// `Utc::now()` (chrono), split into `timestamp()` and
/// `timestamp_subsec_nanos()`. Nothing is claimed about which instant comes
/// back; chrono documents that these two parts round-trip through
/// `DateTime::from_timestamp`, so the instant is representable, and
/// `Utc::now` measures from the Unix epoch, so the seconds are not negative.
#[verifier::external_body]
pub fn utc_now() -> (r: UtcTime)
    ensures
        representable(r.secs, r.nanos),
        r.secs >= 0,
{
    let now = Utc::now();
    UtcTime { secs: now.timestamp(), nanos: now.timestamp_subsec_nanos() }
}

/// A lower-case hexadecimal digit.
pub open spec fn is_lower_hex(c: char) -> bool {
    ('0' <= c && c <= '9') || ('a' <= c && c <= 'f')
}

/// Hyphenated lower-case text of a version-4 (random) UUID:
/// `xxxxxxxx-xxxx-4xxx-yxxx-xxxxxxxxxxxx` with `y` one of `8`, `9`, `a`, `b`.
pub open spec fn uuid_v4_text(s: Seq<char>) -> bool {
    &&& s.len() == 36
    &&& forall|i: int|
        0 <= i < 36 ==> if i == 8 || i == 13 || i == 18 || i == 23 {
            #[trigger] s[i] == '-'
        } else {
            is_lower_hex(s[i])
        }
    &&& s[14] == '4'
    &&& (s[19] == '8' || s[19] == '9' || s[19] == 'a' || s[19] == 'b')
}

/// `Uuid::new_v4().to_string()` (uuid): random bits with the version set to
/// 4 and the RFC 4122 variant, rendered (through `Display`, which is
/// `LowerHex`) in hyphenated lower-case form. Which identifier comes back is
/// left open.
#[verifier::external_body]
pub fn new_uuid_string() -> (r: String)
    ensures
        uuid_v4_text(r@),
{
    uuid::Uuid::new_v4().to_string()
}

} // verus!
