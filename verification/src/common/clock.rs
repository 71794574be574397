//! Wall-clock times as RFC 3339 text, written by chrono.

use crate::text::{all_digits, is_digit};
use vstd::prelude::*;

verus! {

/// The last second of the year 9999, in seconds since the Unix epoch.
pub const LAST_SECOND_OF_9999: i64 = 253_402_300_799;

/// Two ASCII digits at positions `i` and `i + 1`.
pub open spec fn two_digits_at(s: Seq<char>, i: int) -> bool {
    is_digit(s[i]) && is_digit(s[i + 1])
}

/// The fraction of a second as RFC 3339 text may carry it: nothing, or a dot
/// with three, six or nine digits.
pub open spec fn seconds_fraction(f: Seq<char>) -> bool {
    f.len() == 0 || (f[0] == '.' && (f.len() == 4 || f.len() == 7 || f.len() == 10) && all_digits(
        f.drop_first(),
    ))
}

/// `s` is an RFC 3339 UTC time whose year field is `y` characters long:
/// four digits for the years 0 to 9999, `+` and five or more digits after
/// them, `-` and four or more digits before them; then `-MM-DDTHH:MM:SS`, an
/// optional fraction of a second, and `+00:00`.
pub open spec fn rfc3339_utc_with_year(s: Seq<char>, y: int) -> bool {
    let n = s.len() as int;
    &&& (y == 4 && all_digits(s.subrange(0, 4))) || (y >= 6 && s[0] == '+' && all_digits(
        s.subrange(1, y),
    )) || (y >= 5 && s[0] == '-' && all_digits(s.subrange(1, y)))
    &&& n >= y + 21
    &&& s[y] == '-' && two_digits_at(s, y + 1) && s[y + 3] == '-' && two_digits_at(s, y + 4)
    &&& s[y + 6] == 'T' && two_digits_at(s, y + 7) && s[y + 9] == ':' && two_digits_at(s, y + 10)
    &&& s[y + 12] == ':' && two_digits_at(s, y + 13)
    &&& seconds_fraction(s.subrange(y + 15, n - 6))
    &&& s.subrange(n - 6, n) == "+00:00"@
}

/// `s` is an RFC 3339 time in UTC, as `DateTime<Utc>::to_rfc3339` writes it.
pub open spec fn is_rfc3339_utc(s: Seq<char>) -> bool {
    exists|y: int| #[trigger] rfc3339_utc_with_year(s, y)
}

/// The text of an optional string.
pub open spec fn option_text(o: Option<String>) -> Option<Seq<char>> {
    match o {
        Some(s) => Some(s@),
        None => None,
    }
}

/// The RFC 3339 text that chrono writes for the time `secs` seconds and
/// `nanos` nanoseconds after the Unix epoch, or `None` when chrono cannot
/// represent that time.
pub uninterp spec fn rfc3339_text(secs: i64, nanos: u32) -> Option<Seq<char>>;

/// The time `secs` seconds and `nanos` nanoseconds after the Unix epoch as
/// RFC 3339 text in UTC, from `chrono::DateTime::<Utc>::from_timestamp` and
/// `DateTime::to_rfc3339`. `from_timestamp` returns `None` for times that
/// chrono cannot represent (beyond about 262,000 years from year 0) and for
/// an invalid nanosecond count, and every time from the epoch to the
/// end of the year 9999 with fewer than a billion nanoseconds is
/// representable; `to_rfc3339` never fails. The text itself is named by
/// `rfc3339_text`; of it, only its shape is stated.
#[verifier::external_body]
pub(crate) fn format_rfc3339(secs: i64, nanos: u32) -> (r: Option<String>)
    ensures
        option_text(r) == rfc3339_text(secs, nanos),
        r matches Some(t) ==> is_rfc3339_utc(t@),
        0 <= secs <= LAST_SECOND_OF_9999 && nanos < 1_000_000_000 ==> r is Some,
{
    match chrono::DateTime::<chrono::Utc>::from_timestamp(secs, nanos) {
        Some(t) => Some(t.to_rfc3339()),
        None => None,
    }
}

} // verus!
