use vstd::prelude::*;

use crate::model::Size;

verus! {

/// The size of the collapsed bar.
pub open spec fn base_size() -> Size {
    Size { width: 400, height: 40 }
}

/// The size that the collapsed bar wants.
pub fn get_desired_size_base() -> (res: Size)
    ensures
        res == base_size(),
{
    Size { width: 400, height: 40 }
}

/// The muted-speaker glyph (U+F0581 of the Nerd Fonts).
pub open spec fn muted_glyph() -> Seq<char> {
    seq!['\u{f0581}']
}

/// The volume text of the collapsed bar: the level when there is one, the
/// muted glyph when the sink is muted.
pub fn volume_label(volume: &Option<String>) -> (res: String)
    ensures
        res@ == match volume {
            Some(v) => v@,
            None => muted_glyph(),
        },
{
    match volume {
        Some(v) => v.clone(),
        None => {
            let s = "\u{f0581}".to_string();
            proof {
                reveal_strlit("\u{f0581}");
            }
            s
        },
    }
}

/// The raw volume level that the sound server calls muted.
pub open spec fn muted_level() -> u32 {
    0
}

/// A reading of the sink volume: its raw level and the text the sound server
/// prints for it.
pub struct VolumeReading {
    pub level: u32,
    pub printed: String,
}

/// What the bar keeps of a volume reading: nothing when the sink is muted,
/// else the printed level.
pub fn volume_from_reading(reading: VolumeReading) -> (res: Option<String>)
    ensures
        reading.level == muted_level() ==> res is None,
        reading.level != muted_level() ==> (res matches Some(s) && s@ == reading.printed@),
{
    if reading.level == 0 {
        None
    } else {
        Some(reading.printed)
    }
}

/// A wall-clock time in the local time zone, by its calendar fields.
#[derive(Clone, Copy, Debug, PartialEq, Eq, Structural)]
pub struct LocalTime {
    pub year: i32,
    pub month: u32,
    pub day: u32,
    pub hour: u32,
    pub minute: u32,
}

/// A leap year of the proleptic Gregorian calendar.
pub open spec fn is_leap_year(year: int) -> bool {
    year % 4 == 0 && (year % 100 != 0 || year % 400 == 0)
}

/// The number of days of a month (1 to 12) of a year.
pub open spec fn days_in_month(year: int, month: int) -> int {
    if month == 2 {
        if is_leap_year(year) {
            29
        } else {
            28
        }
    } else if month == 4 || month == 6 || month == 9 || month == 11 {
        30
    } else {
        31
    }
}

/// The fields name a real minute of a date in chrono's range of years.
pub open spec fn valid_local_time(t: LocalTime) -> bool {
    &&& -262143 <= t.year <= 262142
    &&& 1 <= t.month <= 12
    &&& 1 <= t.day <= days_in_month(t.year as int, t.month as int)
    &&& t.hour < 24
    &&& t.minute < 60
}

/// What chrono writes with `%a` for that date: its abbreviated weekday.
pub uninterp spec fn weekday_abbr(year: i32, month: u32, day: u32) -> Seq<char>;

/// A decimal digit.
pub open spec fn digit(n: int) -> char {
    seq!['0', '1', '2', '3', '4', '5', '6', '7', '8', '9'][n]
}

/// A number below 100 as two zero-padded digits (`%H`, `%M`).
pub open spec fn two_digits(n: u32) -> Seq<char> {
    seq![digit(n as int / 10), digit(n as int % 10)]
}

/// A number below 100 as two space-padded digits (`%e`).
pub open spec fn space_padded(n: u32) -> Seq<char> {
    if n < 10 {
        seq![' ', digit(n as int)]
    } else {
        two_digits(n)
    }
}

/// The English abbreviation of a month (1 to 12), as `%b` writes it.
pub open spec fn month_abbr(month: u32) -> Seq<char> {
    if month == 1 {
        seq!['J', 'a', 'n']
    } else if month == 2 {
        seq!['F', 'e', 'b']
    } else if month == 3 {
        seq!['M', 'a', 'r']
    } else if month == 4 {
        seq!['A', 'p', 'r']
    } else if month == 5 {
        seq!['M', 'a', 'y']
    } else if month == 6 {
        seq!['J', 'u', 'n']
    } else if month == 7 {
        seq!['J', 'u', 'l']
    } else if month == 8 {
        seq!['A', 'u', 'g']
    } else if month == 9 {
        seq!['S', 'e', 'p']
    } else if month == 10 {
        seq!['O', 'c', 't']
    } else if month == 11 {
        seq!['N', 'o', 'v']
    } else {
        seq!['D', 'e', 'c']
    }
}

/// The clock text of a minute: weekday, month, space-padded day, and
/// zero-padded hour and minute, as `%a %b %e %H:%M` lays them out.
pub open spec fn clock_text(t: LocalTime) -> Seq<char> {
    weekday_abbr(t.year, t.month, t.day) + seq![' '] + month_abbr(t.month) + seq![' ']
        + space_padded(t.day) + seq![' '] + two_digits(t.hour) + seq![':'] + two_digits(
        t.minute,
    )
}

/// Builds chrono's `NaiveDate::from_ymd_opt(year, month, day)` and its
/// `and_hms_opt(hour, minute, 0)`, and formats it with `format`, which must be
/// `%a %b %e %H:%M` (another format string could make chrono's `Display`
/// fail, and `to_string` panic). chrono's documentation says when each
/// constructor gives `None` (a date that does not exist or a year out of its
/// range; an hour past 23 or a minute past 59), and fixes each field of that
/// format: a 3-letter weekday, the English 3-letter month (the build has no
/// locale feature), the space-padded day and the zero-padded hour and
/// minute. The contract states that text and names only the weekday.
#[verifier::external_body]
fn chrono_clock_text(
    format: &str,
    year: i32,
    month: u32,
    day: u32,
    hour: u32,
    minute: u32,
) -> (res: Option<String>)
    requires
        format@ == "%a %b %e %H:%M"@,
    ensures
        res is Some <==> valid_local_time(LocalTime { year, month, day, hour, minute }),
        res matches Some(s) ==> s@ == clock_text(LocalTime { year, month, day, hour, minute })
            && weekday_abbr(year, month, day).len() == 3,
{
    let date = match chrono::NaiveDate::from_ymd_opt(year, month, day) {
        Some(d) => d,
        None => return None,
    };
    match date.and_hms_opt(hour, minute, 0) {
        Some(t) => Some(t.format(format).to_string()),
        None => None,
    }
}

/// The clock text of the collapsed bar (16 characters), `None` for fields
/// that name no minute.
pub fn clock_label(time: LocalTime) -> (res: Option<String>)
    ensures
        res is Some <==> valid_local_time(time),
        res matches Some(s) ==> s@ == clock_text(time) && s@.len() == 16,
{
    chrono_clock_text("%a %b %e %H:%M", time.year, time.month, time.day, time.hour, time.minute)
}

} // verus!
