//! Calendar dates and timestamps as plain values, with their text forms.

use vstd::prelude::*;
use crate::decimal::{zero_padded, zero_padded_string};

verus! {

pub open spec fn is_leap_year(y: int) -> bool {
    (y % 4 == 0 && y % 100 != 0) || y % 400 == 0
}

pub open spec fn days_in_month(y: int, m: int) -> int {
    if m == 2 {
        if is_leap_year(y) { 29 } else { 28 }
    } else if m == 4 || m == 6 || m == 9 || m == 11 {
        30
    } else {
        31
    }
}

/// A proleptic Gregorian calendar date in the years -9999 to 9999.
pub open spec fn valid_date(y: int, m: int, d: int) -> bool {
    -9999 <= y <= 9999 && 1 <= m <= 12 && 1 <= d <= days_in_month(y, m)
}

/// `YYYY-MM-DD`, with a leading minus sign for years before year zero.
pub open spec fn date_text(y: int, m: int, d: int) -> Seq<char> {
    let year = if y < 0 {
        seq!['-'] + zero_padded((-y) as nat, 4)
    } else {
        zero_padded(y as nat, 4)
    };
    year + seq!['-'] + zero_padded(m as nat, 2) + seq!['-'] + zero_padded(d as nat, 2)
}

/// What `time` gives as the calendar date `n` days before the date `y-m-d`.
pub uninterp spec fn days_earlier(y: int, m: int, d: int, n: int) -> (int, int, int);

/// What `time` renders as RFC 3339 for a date, a time of day and a UTC offset in minutes.
pub uninterp spec fn rfc3339_text(
    y: int,
    m: int,
    d: int,
    hour: int,
    minute: int,
    second: int,
    nanosecond: int,
    offset_minutes: int,
) -> Seq<char>;

#[derive(Clone, Copy, Debug, PartialEq, Eq, Structural)]
pub struct Date {
    pub year: i32,
    pub month: u8,
    pub day: u8,
}

impl Date {
    pub open spec fn wf(self) -> bool {
        valid_date(self.year as int, self.month as int, self.day as int)
    }

    pub open spec fn text(self) -> Seq<char> {
        date_text(self.year as int, self.month as int, self.day as int)
    }

    /// The date `year-month-day`, if it exists in the supported range.
    pub fn new(year: i32, month: u8, day: u8) -> (r: Option<Date>)
        ensures
            r is Some <==> valid_date(year as int, month as int, day as int),
            r matches Some(d) ==> d.year == year && d.month == month && d.day == day,
    {
        if year < -9999 || year > 9999 || month < 1 || month > 12 || day < 1 {
            return None;
        }
        let leap = (year % 4 == 0 && year % 100 != 0) || year % 400 == 0;
        let last: u8 = if month == 2 {
            if leap { 29 } else { 28 }
        } else if month == 4 || month == 6 || month == 9 || month == 11 {
            30
        } else {
            31
        };
        if day > last {
            None
        } else {
            Some(Date { year, month, day })
        }
    }

    /// The date as `YYYY-MM-DD`.
    pub fn to_text(&self) -> (r: String)
        requires
            self.wf(),
        ensures
            r@ == self.text(),
    {
        let mut s = String::new();
        if self.year < 0 {
            proof { reveal_strlit("-"); }
            s.append("-");
            let y = zero_padded_string((-self.year) as u64, 4);
            s.append(y.as_str());
        } else {
            let y = zero_padded_string(self.year as u64, 4);
            s.append(y.as_str());
        }
        proof { reveal_strlit("-"); }
        s.append("-");
        let m = zero_padded_string(self.month as u64, 2);
        s.append(m.as_str());
        s.append("-");
        let d = zero_padded_string(self.day as u64, 2);
        s.append(d.as_str());
        assert(s@ =~= self.text());
        s
    }

    /// The date `days` days earlier.
    pub fn days_before(&self, days: u16) -> (r: Date)
        requires
            self.wf(),
        ensures
            r.wf(),
            (r.year as int, r.month as int, r.day as int) == days_earlier(
                self.year as int,
                self.month as int,
                self.day as int,
                days as int,
            ),
    {
        shift_back(*self, days)
    }
}

/// Relies on `time::Date::saturating_sub`: the date that many days earlier,
/// held at `time`'s earliest date (-9999-01-01, without its `large-dates`
/// feature), so always a valid date of the same range.
#[verifier::external_body]
fn shift_back(d: Date, days: u16) -> (r: Date)
    requires
        d.wf(),
    ensures
        r.wf(),
        (r.year as int, r.month as int, r.day as int) == days_earlier(
            d.year as int,
            d.month as int,
            d.day as int,
            days as int,
        ),
{
    let month = time::Month::try_from(d.month).unwrap();
    let date = time::Date::from_calendar_date(d.year, month, d.day).unwrap();
    let r = date.saturating_sub(time::Duration::days(days as i64));
    Date { year: r.year(), month: r.month() as u8, day: r.day() }
}

/// A moment: a date, a time of day and a UTC offset in whole minutes.
#[derive(Clone, Copy, Debug, PartialEq, Eq, Structural)]
pub struct Timestamp {
    pub date: Date,
    pub hour: u8,
    pub minute: u8,
    pub second: u8,
    pub nanosecond: u32,
    pub offset_minutes: i16,
}

impl Timestamp {
    pub open spec fn wf(self) -> bool {
        &&& self.date.wf()
        &&& self.hour < 24
        &&& self.minute < 60
        &&& self.second < 60
        &&& self.nanosecond < 1_000_000_000
        &&& -1440 < self.offset_minutes < 1440
    }

    /// RFC 3339 renders only years 0 to 9999.
    pub open spec fn renderable(self) -> bool {
        self.date.year >= 0
    }

    pub open spec fn text(self) -> Seq<char> {
        rfc3339_text(
            self.date.year as int,
            self.date.month as int,
            self.date.day as int,
            self.hour as int,
            self.minute as int,
            self.second as int,
            self.nanosecond as int,
            self.offset_minutes as int,
        )
    }

    /// Midnight UTC at the start of `date`.
    pub fn start_of_day(date: Date) -> (r: Timestamp)
        ensures
            r.date == date,
            r.hour == 0 && r.minute == 0 && r.second == 0,
            r.nanosecond == 0 && r.offset_minutes == 0,
    {
        Timestamp { date, hour: 0, minute: 0, second: 0, nanosecond: 0, offset_minutes: 0 }
    }

    /// The timestamp in RFC 3339 form.
    pub fn to_rfc3339(&self) -> (r: Result<String, FormatError>)
        requires
            self.wf(),
        ensures
            r is Ok <==> self.renderable(),
            r matches Ok(s) ==> s@ == self.text(),
    {
        match format_rfc3339(self) {
            Ok(s) => Ok(s),
            Err(e) => Err(FormatError::from_time(e)),
        }
    }
}

#[verifier::external_type_specification]
#[verifier::external_body]
pub struct ExFormat(time::error::Format);

/// A value that cannot be rendered in the requested text form.
#[derive(Clone, Copy, Debug, PartialEq, Eq, Structural)]
pub enum FormatError {
    /// The year lies outside what the form can hold.
    YearOutOfRange,
}

impl FormatError {
    fn from_time(e: time::error::Format) -> (r: FormatError) {
        FormatError::YearOutOfRange
    }
}

/// Relies on `time::OffsetDateTime::format` with the `Rfc3339` description:
/// it fails exactly when the year lies outside 0 to 9999 (the offset's hours
/// are below 24 and its seconds zero here), else gives the RFC 3339 text.
#[verifier::external_body]
fn format_rfc3339(ts: &Timestamp) -> (r: Result<String, time::error::Format>)
    requires
        ts.wf(),
    ensures
        r is Ok <==> ts.date.year >= 0,
        r matches Ok(s) ==> s@ == rfc3339_text(
            ts.date.year as int,
            ts.date.month as int,
            ts.date.day as int,
            ts.hour as int,
            ts.minute as int,
            ts.second as int,
            ts.nanosecond as int,
            ts.offset_minutes as int,
        ),
{
    let month = time::Month::try_from(ts.date.month).unwrap();
    let date = time::Date::from_calendar_date(ts.date.year, month, ts.date.day).unwrap();
    let t = time::Time::from_hms_nano(ts.hour, ts.minute, ts.second, ts.nanosecond).unwrap();
    let offset = time::UtcOffset::from_whole_seconds(ts.offset_minutes as i32 * 60).unwrap();
    time::PrimitiveDateTime::new(date, t)
        .assume_offset(offset)
        .format(&time::format_description::well_known::Rfc3339)
}

} // verus!
