//! Times of day, calendar dates and instants, with the calls into `chrono`
//! that parse, count and place them.
use vstd::prelude::*;
use crate::text::{trim, trim_seq};
use chrono::{Datelike, Timelike};

verus! {

/// A wall-clock time of day, to the second (what the schedule reads of a
/// `chrono::NaiveTime`).
#[derive(Clone, Copy, Debug, PartialEq, Eq, Structural)]
pub struct ClockTime {
    pub hour: u32,
    pub minute: u32,
    pub second: u32,
}

impl ClockTime {
    /// The fields lie in their clock ranges.
    pub open spec fn wf(self) -> bool {
        self.hour < 24 && self.minute < 60 && self.second < 60
    }

    /// Seconds since midnight.
    pub open spec fn spec_seconds(self) -> int {
        self.hour * 3600 + self.minute * 60 + self.second
    }

    /// Builds a time from hour, minute and second; `None` when a field is out of range.
    pub fn from_hms(hour: u32, minute: u32, second: u32) -> (r: Option<ClockTime>)
        ensures
            r == (if hour < 24 && minute < 60 && second < 60 {
                Some(ClockTime { hour, minute, second })
            } else {
                None
            }),
    {
        if hour < 24 && minute < 60 && second < 60 {
            Some(ClockTime { hour, minute, second })
        } else {
            None
        }
    }

    /// Seconds since midnight.
    pub fn seconds_of_day(&self) -> (r: u32)
        requires
            self.wf(),
        ensures
            r == self.spec_seconds(),
    {
        self.hour * 3600 + self.minute * 60 + self.second
    }

    /// Whether `self` is at or after `other` on the same day.
    pub fn is_at_or_after(&self, other: &ClockTime) -> (b: bool)
        requires
            self.wf(),
            other.wf(),
        ensures
            b == (self.spec_seconds() >= other.spec_seconds()),
    {
        self.seconds_of_day() >= other.seconds_of_day()
    }
}

/// A point in time: seconds since the Unix epoch and the nanoseconds past
/// that second (up to 1_999_999_999 inside a leap second), as `chrono` counts them.
#[derive(Clone, Copy, Debug, PartialEq, Eq, Structural)]
pub struct Instant {
    pub secs: i64,
    pub nanos: u32,
}

impl Instant {
    /// The order of instants: by second, then by nanosecond.
    pub open spec fn spec_ge(self, other: Instant) -> bool {
        self.secs > other.secs || (self.secs == other.secs && self.nanos >= other.nanos)
    }

    /// Nanoseconds since the epoch.
    pub open spec fn spec_total_nanos(self) -> int {
        self.secs * 1_000_000_000 + self.nanos
    }

    /// Whether `self` is at or after `other`.
    pub fn is_at_or_after(&self, other: &Instant) -> (b: bool)
        ensures
            b == self.spec_ge(*other),
    {
        self.secs > other.secs || (self.secs == other.secs && self.nanos >= other.nanos)
    }

    /// Nanoseconds from `earlier` to `self` (negative when `self` comes first).
    pub fn nanos_since(&self, earlier: &Instant) -> (r: i128)
        ensures
            r == self.spec_total_nanos() - earlier.spec_total_nanos(),
    {
        let a: i128 = self.secs as i128 * 1_000_000_000i128 + self.nanos as i128;
        let b: i128 = earlier.secs as i128 * 1_000_000_000i128 + earlier.nanos as i128;
        a - b
    }
}

/// The weekday, Monday = 0, of the day with this number from the common era.
pub open spec fn weekday_of_day_number(days_from_ce: int) -> int {
    (days_from_ce - 1) % 7
}

/// Whether `chrono` represents the day with this number from the common era:
/// from January 1, 262144 BCE (`NaiveDate::MIN`) to December 31, 262142 CE
/// (`NaiveDate::MAX`).
pub open spec fn in_chrono_range(days_from_ce: int) -> bool {
    -95_746_129 <= days_from_ce <= 95_745_399
}

/// The weekday, counted from Monday = 0, of the date with this number of days
/// from the common era (January 1 of year 1 is day 1); `None` outside the
/// dates chrono represents.
pub open spec fn chrono_weekday(days_from_ce: i32) -> Option<u32> {
    if in_chrono_range(days_from_ce as int) {
        Some(weekday_of_day_number(days_from_ce as int) as u32)
    } else {
        None
    }
}

/// Calls `chrono::NaiveDate::from_num_days_from_ce_opt` and, for a date it
/// can represent, `Datelike::weekday` and `Weekday::num_days_from_monday`.
/// Trusted: a date exactly when the day number lies between those of
/// `NaiveDate::MIN` and `NaiveDate::MAX`, and then its weekday is the day
/// number less one, modulo 7 (chrono's calendar is the proleptic Gregorian
/// one, in which day 1, January 1 of year 1, is a Monday, and the weekdays
/// repeat every seven days).
#[verifier::external_body]
fn weekday_from_chrono(days_from_ce: i32) -> (r: Option<u32>)
    ensures
        r == chrono_weekday(days_from_ce),
{
    match chrono::NaiveDate::from_num_days_from_ce_opt(days_from_ce) {
        Some(date) => Some(date.weekday().num_days_from_monday()),
        None => None,
    }
}

/// A calendar date in the local calendar (what the schedule reads of a
/// `chrono::NaiveDate`): its day number from the common era and its weekday.
#[derive(Clone, Copy, Debug, PartialEq, Eq)]
pub struct LocalDate {
    days_from_ce: i32,
    weekday: u32,
}

impl View for LocalDate {
    type V = i32;

    /// The day number from the common era.
    closed spec fn view(&self) -> i32 {
        self.days_from_ce
    }
}

impl LocalDate {
    #[verifier::type_invariant]
    spec fn inv(self) -> bool {
        &&& chrono_weekday(self.days_from_ce) == Some(self.weekday)
        &&& self.weekday < 7
        &&& self.weekday as int == weekday_of_day_number(self.days_from_ce as int)
    }

    /// The weekday of the date, Monday = 0.
    pub closed spec fn spec_weekday(self) -> u32 {
        self.weekday
    }

    /// The date with the given day number from the common era, when `chrono`
    /// can represent it.
    pub fn from_num_days_from_ce(days: i32) -> (r: Option<LocalDate>)
        ensures
            r is Some <==> chrono_weekday(days) is Some,
            r matches Some(d) ==> d@ == days && chrono_weekday(days) == Some(d.spec_weekday())
                && d.spec_weekday() as int == weekday_of_day_number(days as int),
    {
        match weekday_from_chrono(days) {
            Some(w) => Some(LocalDate { days_from_ce: days, weekday: w }),
            None => None,
        }
    }

    /// The day number from the common era.
    pub fn num_days_from_ce(&self) -> (r: i32)
        ensures
            r == self@,
    {
        self.days_from_ce
    }

    /// The weekday, Monday = 0, as `chrono` gives it for this date.
    pub fn weekday(&self) -> (w: u32)
        ensures
            w == self.spec_weekday(),
            w < 7,
            chrono_weekday(self@) == Some(w),
            w as int == weekday_of_day_number(self@ as int),
    {
        proof {
            use_type_invariant(self);
        }
        self.weekday
    }

    /// The next calendar date, when it can be represented.
    pub fn succ(&self) -> (r: Option<LocalDate>)
        ensures
            r is Some <==> (self@ < i32::MAX && chrono_weekday((self@ + 1) as i32) is Some),
            r matches Some(d) ==> d@ == self@ + 1,
            r matches Some(d) ==> d.spec_weekday() == (self.spec_weekday() + 1) % 7,
    {
        proof {
            use_type_invariant(self);
        }
        if self.days_from_ce < i32::MAX {
            LocalDate::from_num_days_from_ce(self.days_from_ce + 1)
        } else {
            None
        }
    }
}

/// A local date and time of day together with the instant they denote
/// (what the schedule reads of a `chrono::DateTime<Local>`).
#[derive(Clone, Copy, Debug, PartialEq, Eq)]
pub struct LocalDateTime {
    pub date: LocalDate,
    pub time: ClockTime,
    pub instant: Instant,
}

/// Seconds from the Unix epoch to a wall-clock time on the day with this
/// number from the common era, read as if it were UTC (January 1, 1970 is
/// day 719_163).
pub open spec fn naive_timestamp(days_from_ce: int, seconds_of_day: int) -> int {
    (days_from_ce - 719_163) * 86_400 + seconds_of_day
}

/// A local date and time as the time zone placed it: the local day number and
/// time it kept, and the instant it gave them.
#[derive(Clone, Copy, Debug)]
pub struct PlacedTime {
    pub days_from_ce: i32,
    pub hour: u32,
    pub minute: u32,
    pub second: u32,
    pub instant: Instant,
}

/// Calls `chrono::NaiveDate::from_num_days_from_ce_opt`, `NaiveDate::and_hms_opt`,
/// then `NaiveDateTime::and_local_timezone(Local)` and `MappedLocalTime::single`,
/// and reads the local date and time and the timestamp of the result.
/// Trusted: `None` when the hour, minute or second is out of range
/// (`and_hms_opt` returns `None` there); a placed time keeps the local date and
/// time it was given (`from_local_datetime` keeps the local date-time), falls on
/// a whole second, and its instant differs from the local time read as UTC by
/// the zone's offset, which is less than a day (`FixedOffset` bounds it).
/// Whether it is placed, and at which offset, depends on the machine's time
/// zone and is not stated: `None` where the local time does not exist or
/// occurs twice.
#[verifier::external_body]
fn place_local_time(days_from_ce: i32, hour: u32, minute: u32, second: u32) -> (r: Option<PlacedTime>)
    ensures
        !(hour < 24 && minute < 60 && second < 60) ==> r is None,
        r matches Some(p) ==> {
            &&& p.days_from_ce == days_from_ce && p.hour == hour && p.minute == minute && p.second == second
            &&& p.instant.nanos == 0
            &&& -86_400 < p.instant.secs - naive_timestamp(days_from_ce as int, hour * 3600 + minute * 60 + second) < 86_400
        },
{
    let date = chrono::NaiveDate::from_num_days_from_ce_opt(days_from_ce)?;
    let dt = date.and_hms_opt(hour, minute, second)?.and_local_timezone(chrono::Local).single()?;
    Some(PlacedTime {
        days_from_ce: dt.num_days_from_ce(),
        hour: dt.hour(),
        minute: dt.minute(),
        second: dt.second(),
        instant: Instant { secs: dt.timestamp(), nanos: dt.timestamp_subsec_nanos() },
    })
}

/// The instant of a local date and time is tied to it: on a whole second, and
/// within a day of the local time read as UTC.
pub open spec fn placed(ev: LocalDateTime) -> bool {
    &&& ev.instant.nanos == 0
    &&& -86_400 < ev.instant.secs - naive_timestamp(ev.date@ as int, ev.time.spec_seconds()) < 86_400
}

/// The local date and time the time zone placed, when it placed one on a
/// representable date at a time in range.
pub fn local_date_time_from(placed_time: Option<PlacedTime>) -> (r: Option<LocalDateTime>)
    ensures
        r is Some <==> (placed_time matches Some(p) && chrono_weekday(p.days_from_ce) is Some
            && p.hour < 24 && p.minute < 60 && p.second < 60),
        r matches Some(ev) ==> ({
            let p = placed_time->0;
            &&& ev.date@ == p.days_from_ce
            &&& ev.time == ClockTime { hour: p.hour, minute: p.minute, second: p.second }
            &&& ev.instant == p.instant
        }),
{
    match placed_time {
        None => None,
        Some(p) => match LocalDate::from_num_days_from_ce(p.days_from_ce) {
            None => None,
            Some(date) => match ClockTime::from_hms(p.hour, p.minute, p.second) {
                None => None,
                Some(time) => Some(LocalDateTime { date, time, instant: p.instant }),
            },
        },
    }
}

/// The local date and time `time` on `date`, with its instant in the machine's
/// time zone; `None` where that local time is skipped or occurs twice there,
/// or the time of day is out of range.
pub fn at_local_time(date: &LocalDate, time: ClockTime) -> (r: Option<LocalDateTime>)
    ensures
        !time.wf() ==> r is None,
        r matches Some(ev) ==> ev.date == *date && ev.time == time && placed(ev),
{
    let p = place_local_time(date.num_days_from_ce(), time.hour, time.minute, time.second);
    let r = local_date_time_from(p);
    proof {
        use_type_invariant(date);
        if let Some(ev) = r {
            use_type_invariant(ev.date);
        }
    }
    r
}

/// The decimal digit character for `d` in `0..10`.
pub open spec fn digit_char(d: int) -> char {
    if d == 0 {
        '0'
    } else if d == 1 {
        '1'
    } else if d == 2 {
        '2'
    } else if d == 3 {
        '3'
    } else if d == 4 {
        '4'
    } else if d == 5 {
        '5'
    } else if d == 6 {
        '6'
    } else if d == 7 {
        '7'
    } else if d == 8 {
        '8'
    } else {
        '9'
    }
}

/// Whether `c` is one of `0`..`9`.
pub open spec fn is_digit(c: char) -> bool {
    48 <= c as u32 <= 57
}

/// The value of a decimal digit character.
pub open spec fn digit_value(c: char) -> int {
    c as u32 - 48
}

/// The text `HH:MM` for hour `h` and minute `m` (each zero-padded to two digits).
pub open spec fn hhmm_text(h: int, m: int) -> Seq<char> {
    seq![digit_char(h / 10), digit_char(h % 10), ':', digit_char(m / 10), digit_char(m % 10)]
}

/// The hour written in the first two characters of a text.
pub open spec fn text_hour(s: Seq<char>) -> int {
    digit_value(s[0]) * 10 + digit_value(s[1])
}

/// The minute written in the characters 3 and 4 of a text.
pub open spec fn text_minute(s: Seq<char>) -> int {
    digit_value(s[3]) * 10 + digit_value(s[4])
}

/// Whether `s` is exactly `HH:MM` with a valid hour (00-23) and minute (00-59).
pub open spec fn is_canonical_hhmm(s: Seq<char>) -> bool {
    &&& is_hhmm_shape(s)
    &&& text_hour(s) < 24
    &&& text_minute(s) < 60
}

/// Whether `s` is two digits, `:`, two digits.
pub open spec fn is_hhmm_shape(s: Seq<char>) -> bool {
    &&& s.len() == 5
    &&& is_digit(s[0])
    &&& is_digit(s[1])
    &&& s[2] == ':'
    &&& is_digit(s[3])
    &&& is_digit(s[4])
}

/// The time a two-digits-colon-two-digits text denotes: the hour and minute
/// written, at second zero, when they are in range; else none.
pub open spec fn shape_time(s: Seq<char>) -> Option<ClockTime> {
    if text_hour(s) < 24 && text_minute(s) < 60 {
        Some(ClockTime { hour: text_hour(s) as u32, minute: text_minute(s) as u32, second: 0 })
    } else {
        None
    }
}

/// What `NaiveTime::parse_from_str(text, "%H:%M")` gives, read as hour and
/// minute; `None` where chrono rejects the text.
pub uninterp spec fn chrono_hhmm(text: Seq<char>) -> Option<(u32, u32)>;

/// Calls `chrono::NaiveTime::parse_from_str` with the format `%H:%M` and reads
/// `Timelike::hour` and `Timelike::minute` of the result.
/// Trusted: the result is the name `chrono_hhmm` of the text; a parsed hour is
/// below 24 and a minute below 60 (the ranges chrono documents for `hour` and
/// `minute`); and a text that is exactly two digits, `:`, two digits parses
/// to the hour and minute written when they are in range and fails otherwise
/// (the meaning chrono documents for `%H` and `%M`, and its examples
/// `17:60` and `24:00:00` that fail). Which other texts chrono accepts is not
/// stated.
#[verifier::external_body]
fn parse_hhmm_with_chrono(text: &str) -> (r: Option<(u32, u32)>)
    ensures
        r == chrono_hhmm(text@),
        r matches Some((h, m)) ==> h < 24 && m < 60,
        is_hhmm_shape(text@) ==> r == (if text_hour(text@) < 24 && text_minute(text@) < 60 {
            Some((text_hour(text@) as u32, text_minute(text@) as u32))
        } else {
            None
        }),
{
    match chrono::NaiveTime::parse_from_str(text, "%H:%M") {
        Ok(t) => Some((t.hour(), t.minute())),
        Err(_) => None,
    }
}

/// The time of day that parsed hour and minute fields denote, at second zero.
pub open spec fn clock_from_fields(fields: Option<(u32, u32)>) -> Option<ClockTime> {
    match fields {
        Some((h, m)) => if h < 24 && m < 60 {
            Some(ClockTime { hour: h, minute: m, second: 0 })
        } else {
            None
        },
        None => None,
    }
}

/// The time of day of a `HH:MM` setting: `None` for a blank setting, else what
/// chrono parses of the trimmed text.
pub open spec fn parse_hhmm_spec(value: Seq<char>) -> Option<ClockTime> {
    let t = trim_seq(value);
    if t.len() == 0 {
        None
    } else {
        clock_from_fields(chrono_hhmm(t))
    }
}

/// Turns parsed hour and minute fields into a time of day at second zero.
pub fn time_from_fields(fields: Option<(u32, u32)>) -> (r: Option<ClockTime>)
    ensures
        r == clock_from_fields(fields),
{
    match fields {
        Some((h, m)) => ClockTime::from_hms(h, m, 0),
        None => None,
    }
}

/// Parses a `HH:MM` setting, ignoring surrounding white space; `None` when the
/// setting is blank or is not a time.
pub fn parse_hhmm(value: &str) -> (r: Option<ClockTime>)
    ensures
        r == parse_hhmm_spec(value@),
        r matches Some(t) ==> t.wf() && t.second == 0,
        is_hhmm_shape(trim_seq(value@)) ==> r == shape_time(trim_seq(value@)),
{
    let trimmed = trim(value);
    if trimmed.is_empty() {
        return None;
    }
    time_from_fields(parse_hhmm_with_chrono(trimmed))
}

/// The one-character text for the digit `d`.
fn digit_str(d: u32) -> (r: &'static str)
    requires
        d < 10,
    ensures
        r@ == seq![digit_char(d as int)],
{
    let digits = "0123456789";
    proof {
        reveal_strlit("0123456789");
    }
    let r = digits.substring_char(d as usize, d as usize + 1);
    assert(r@ =~= seq![digit_char(d as int)]);
    r
}

/// Formats a time of day as `HH:MM`, each field zero-padded to two digits.
pub fn format_hhmm(time: &ClockTime) -> (r: String)
    requires
        time.wf(),
    ensures
        r@ == hhmm_text(time.hour as int, time.minute as int),
{
    let mut out = String::new();
    out.append(digit_str(time.hour / 10));
    out.append(digit_str(time.hour % 10));
    let colon = ":";
    proof {
        reveal_strlit(":");
    }
    out.append(colon);
    out.append(digit_str(time.minute / 10));
    out.append(digit_str(time.minute % 10));
    assert(out@ =~= hhmm_text(time.hour as int, time.minute as int));
    out
}


/// Round trip: the `HH:MM` text of a valid time is canonical, has no
/// surrounding white space, and reads back as the same hour and minute; so
/// `parse_hhmm` of what `format_hhmm` writes is that time at second zero.
pub proof fn lemma_format_then_parse(t: ClockTime)
    requires
        t.wf(),
    ensures
        ({
            let s = hhmm_text(t.hour as int, t.minute as int);
            &&& is_canonical_hhmm(s)
            &&& trim_seq(s) == s
            &&& text_hour(s) == t.hour
            &&& text_minute(s) == t.minute
        }),
{
    let s = hhmm_text(t.hour as int, t.minute as int);
    let h: int = t.hour as int;
    let m: int = t.minute as int;
    assert(0 <= h / 10 < 3 && 0 <= h % 10 < 10);
    assert(0 <= m / 10 < 6 && 0 <= m % 10 < 10);
    assert(h / 10 * 10 + h % 10 == h);
    assert(m / 10 * 10 + m % 10 == m);
    assert(s.len() > 0 && !crate::text::is_ws(s[0]) && !crate::text::is_ws(s.last()));
}


/// Weekdays follow each other: the next day has the next weekday, and the
/// weekdays repeat every seven days.
pub proof fn lemma_weekdays_repeat(days_from_ce: int)
    ensures
        weekday_of_day_number(days_from_ce + 1) == (weekday_of_day_number(days_from_ce) + 1) % 7,
        weekday_of_day_number(days_from_ce + 7) == weekday_of_day_number(days_from_ce),
        0 <= weekday_of_day_number(days_from_ce) < 7,
{
}

} // verus!
