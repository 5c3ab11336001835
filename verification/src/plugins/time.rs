//! A plugin that tells the server time on the `time` command.
use std::fmt::Write;
use vstd::prelude::*;
use crate::plugin::{info_is, PluginInfo};
use crate::text::{concat, same_text};

verus! {

/// A simple plugin that responds with the current server time when a user
/// sends a "time" slash command.
pub struct TimePlugin;

/// The reply announcing a time.
pub open spec fn time_text(time: Seq<char>) -> Seq<char> {
    ":alarm_clock: The current time is: "@ + time
}

/// A decimal digit.
pub open spec fn is_digit(c: char) -> bool {
    '0' <= c <= '9'
}

/// Whether a text is made of decimal digits only.
pub open spec fn all_digits(s: Seq<char>) -> bool {
    forall|i: int| 0 <= i < s.len() ==> is_digit(#[trigger] s[i])
}

/// The value of the two digits at `i` and `i + 1`.
pub open spec fn two_digit_value(s: Seq<char>, i: int) -> int {
    (s[i] as int - '0' as int) * 10 + (s[i + 1] as int - '0' as int)
}

/// Two digits at `i` and `i + 1` whose value lies in `lo..=hi`.
pub open spec fn two_digits_in(s: Seq<char>, i: int, lo: int, hi: int) -> bool {
    &&& is_digit(s[i])
    &&& is_digit(s[i + 1])
    &&& lo <= two_digit_value(s, i) <= hi
}

/// A year as chrono's `%Y` writes it: four digits for years 0 to 9999,
/// else a sign and at least four digits.
pub open spec fn year_text(y: Seq<char>) -> bool {
    ||| y.len() == 4 && all_digits(y)
    ||| y.len() >= 5 && (y[0] == '+' || y[0] == '-') && all_digits(y.drop_first())
}

/// A text shaped as `%Y-%m-%d %H:%M:%S`: a year, then a month (01 to 12), a
/// day (01 to 31), an hour (00 to 23), a minute (00 to 59) and a second
/// (00 to 60, for a leap second), each of two digits, with their separators.
pub open spec fn date_time_text(s: Seq<char>) -> bool {
    &&& s.len() >= 19
    &&& {
        let y = s.len() - 15;
        &&& year_text(s.take(y))
        &&& s[y] == '-'
        &&& two_digits_in(s, y + 1, 1, 12)
        &&& s[y + 3] == '-'
        &&& two_digits_in(s, y + 4, 1, 31)
        &&& s[y + 6] == ' '
        &&& two_digits_in(s, y + 7, 0, 23)
        &&& s[y + 9] == ':'
        &&& two_digits_in(s, y + 10, 0, 59)
        &&& s[y + 12] == ':'
        &&& two_digits_in(s, y + 13, 0, 60)
    }
}

/// The English name of a month, counted from 0 for January.
pub open spec fn month_name(m: int) -> Seq<char> {
    if m == 0 { "January"@ }
    else if m == 1 { "February"@ }
    else if m == 2 { "March"@ }
    else if m == 3 { "April"@ }
    else if m == 4 { "May"@ }
    else if m == 5 { "June"@ }
    else if m == 6 { "July"@ }
    else if m == 7 { "August"@ }
    else if m == 8 { "September"@ }
    else if m == 9 { "October"@ }
    else if m == 10 { "November"@ }
    else { "December"@ }
}

/// Whether `s`, after its day and a space, goes on with the name of month `m`,
/// a space and a year.
pub open spec fn month_then_year(s: Seq<char>, m: int) -> bool {
    let n = month_name(m).len() as int;
    &&& s.len() >= 4 + n
    &&& s.subrange(3, 3 + n) == month_name(m)
    &&& s[3 + n] == ' '
    &&& year_text(s.skip(4 + n))
}

/// A text shaped as `%d %B %Y`: a day (01 to 31), a space, the English name
/// of a month, a space and a year.
pub open spec fn day_month_year_text(s: Seq<char>) -> bool {
    &&& s.len() >= 3
    &&& two_digits_in(s, 0, 1, 31)
    &&& s[2] == ' '
    &&& exists|m: int| 0 <= m < 12 && #[trigger] month_then_year(s, m)
}

/// Formats the current local time with `chrono::Local::now().format(format)`.
/// `None` when the format has an item that cannot be written. The two
/// formats used here are always written, in the shapes that chrono's
/// documentation and its formatting code give for them (zero-padded numeric
/// fields, `%Y` signed and longer outside years 0 to 9999, English month
/// names). Which date and time come out depends on the clock and the
/// machine's time zone, so nothing more is stated of it.
#[verifier::external_body]
pub(crate) fn local_time_text(format: &str) -> (r: Option<String>)
    ensures
        format@ == "%Y-%m-%d %H:%M:%S"@ ==> r is Some && date_time_text(r->0@),
        format@ == "%d %B %Y"@ ==> r is Some && day_month_year_text(r->0@),
{
    let mut s = String::new();
    write!(s, "{}", chrono::Local::now().format(format)).ok()?;
    Some(s)
}

impl TimePlugin {
    pub fn new() -> (r: TimePlugin) {
        TimePlugin
    }

    pub fn info(&self) -> (r: PluginInfo)
        ensures
            info_is(r, "Time"@, "Tells the current server time"@, "0.1.0"@),
    {
        PluginInfo::new("Time", "Tells the current server time", "0.1.0")
    }

    /// The reply announcing a time.
    pub fn time_reply(time: &str) -> (r: String)
        ensures
            r@ == time_text(time@),
    {
        concat(":alarm_clock: The current time is: ", time)
    }

    /// The reply to a command: for `time`, the current time written as
    /// `%Y-%m-%d %H:%M:%S` (a date-time of that shape); none for other
    /// commands.
    pub fn reply(&self, command: &str) -> (r: Option<String>)
        ensures
            command@ == "time"@ <==> r is Some,
            r matches Some(s) ==> exists|t: Seq<char>| date_time_text(t) && s@ == #[trigger] time_text(t),
    {
        if same_text(command, "time") {
            match local_time_text("%Y-%m-%d %H:%M:%S") {
                Some(t) => {
                    let r = TimePlugin::time_reply(t.as_str());
                    assert(date_time_text(t@) && r@ == time_text(t@));
                    Some(r)
                },
                None => None,
            }
        } else {
            None
        }
    }
}

} // verus!
