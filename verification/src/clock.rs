//! The wall clock, read through chrono.
use vstd::prelude::*;

verus! {

/// All characters are ASCII digits.
pub open spec fn all_digits(s: Seq<char>) -> bool {
    forall|i: int| 0 <= i < s.len() ==> '0' <= #[trigger] s[i] <= '9'
}

/// Two ASCII digits.
pub open spec fn two_digits(s: Seq<char>) -> bool {
    s.len() == 2 && all_digits(s)
}

/// A year as chrono writes it: four digits, or a `+` and at least five digits beyond 9999.
pub open spec fn year_text(s: Seq<char>) -> bool {
    (s.len() == 4 && all_digits(s)) || (s.len() >= 6 && s[0] == '+' && all_digits(s.drop_first()))
}

/// A fraction of a second as chrono writes it: nothing, or a `.` and 3, 6 or 9 digits.
pub open spec fn fraction_text(s: Seq<char>) -> bool {
    s.len() == 0 || ((s.len() == 4 || s.len() == 7 || s.len() == 10) && s[0] == '.' && all_digits(
        s.drop_first(),
    ))
}

/// An RFC 3339 UTC time stamp as `DateTime::<Utc>::to_rfc3339` writes it:
/// `YYYY-MM-DDTHH:MM:SS[.fff|.ffffff|.fffffffff]+00:00`.
pub closed spec fn utc_timestamp(s: Seq<char>) -> bool {
    exists|
        year: Seq<char>,
        month: Seq<char>,
        day: Seq<char>,
        hour: Seq<char>,
        minute: Seq<char>,
        second: Seq<char>,
        fraction: Seq<char>,
    |
        #![trigger year_text(year), two_digits(month), two_digits(day), two_digits(hour), two_digits(minute), two_digits(second), fraction_text(fraction)]
        year_text(year) && two_digits(month) && two_digits(day) && two_digits(hour) && two_digits(
            minute,
        ) && two_digits(second) && fraction_text(fraction) && s == year + "-"@ + month + "-"@ + day
            + "T"@ + hour + ":"@ + minute + ":"@ + second + fraction + "+00:00"@
}

/// Calls `chrono::Utc::now()` and renders it with `DateTime::to_rfc3339`, which writes the date,
/// `T`, the time with the fraction of a second that is not zero, and the offset `+00:00`. Which
/// time it is depends on the moment of the call and is not stated. `Utc::now` panics only when
/// the system clock reads a time before 1970, which Linux, where the controller runs, refuses to
/// set.
#[verifier::external_body]
pub(crate) fn now_rfc3339() -> (s: String)
    ensures
        utc_timestamp(s@),
{
    chrono::Utc::now().to_rfc3339()
}

} // verus!
