//! The local time at which a run starts, as plain calendar fields.

use crate::text::zero_padded;
use vstd::prelude::*;

verus! {

/// Leap years of the Gregorian calendar.
pub open spec fn is_leap_year(year: int) -> bool {
    year % 4 == 0 && (year % 100 != 0 || year % 400 == 0)
}

/// Number of days of a month of the Gregorian calendar.
pub open spec fn days_in_month(year: int, month: int) -> int {
    if month == 2 {
        if is_leap_year(year) {
            29
        } else {
            28
        }
    } else if month == 4 || month == 6 || month == 9 || month == 11 {
        30
    } else {
        31
    }
}

/// A local date and time of day with its offset from UTC.
pub struct LocalStampView {
    pub year: int,
    pub month: int,
    pub day: int,
    pub hour: int,
    pub minute: int,
    pub second: int,
    pub nanosecond: int,
    /// Seconds that local time is ahead of UTC.
    pub offset_seconds: int,
}

impl LocalStampView {
    /// A day of the Gregorian calendar in the years 0 to 9999, a time of
    /// that day, and an offset of less than a day.
    pub open spec fn wf(self) -> bool {
        &&& 0 <= self.year <= 9999
        &&& 1 <= self.month <= 12
        &&& 1 <= self.day <= days_in_month(self.year, self.month)
        &&& 0 <= self.hour < 24
        &&& 0 <= self.minute < 60
        &&& 0 <= self.second < 60
        &&& 0 <= self.nanosecond < 1_000_000_000
        &&& -86_400 < self.offset_seconds < 86_400
    }

    /// The date as `YYYY-MM-DD`.
    pub open spec fn date_text(self) -> Seq<char> {
        zero_padded(self.year as nat, 4) + "-"@ + zero_padded(self.month as nat, 2) + "-"@
            + zero_padded(self.day as nat, 2)
    }

    /// The time of day as `HH-MM-SS`.
    pub open spec fn time_text(self) -> Seq<char> {
        zero_padded(self.hour as nat, 2) + "-"@ + zero_padded(self.minute as nat, 2) + "-"@
            + zero_padded(self.second as nat, 2)
    }
}

/// The local time at which a run starts. Every value is a valid calendar
/// time.
#[derive(Clone, Copy, Debug, PartialEq, Eq)]
pub struct LocalStamp {
    year: u32,
    month: u32,
    day: u32,
    hour: u32,
    minute: u32,
    second: u32,
    nanosecond: u32,
    offset_seconds: i32,
}

impl View for LocalStamp {
    type V = LocalStampView;

    closed spec fn view(&self) -> LocalStampView {
        LocalStampView {
            year: self.year as int,
            month: self.month as int,
            day: self.day as int,
            hour: self.hour as int,
            minute: self.minute as int,
            second: self.second as int,
            nanosecond: self.nanosecond as int,
            offset_seconds: self.offset_seconds as int,
        }
    }
}

/// The text that chrono's `DateTime::to_rfc3339` gives for a local date and
/// time with an offset from UTC: RFC 3339 and ISO 8601 notation, such as
/// `1996-12-19T16:39:57-08:00`.
pub uninterp spec fn rfc3339_text(
    year: int,
    month: int,
    day: int,
    hour: int,
    minute: int,
    second: int,
    nanosecond: int,
    offset_seconds: int,
) -> Seq<char>;

/// The pattern, in chrono's notation, of the name of a generated report
/// file.
pub open spec fn file_name_pattern() -> Seq<char> {
    "pings_%F_%H-%M-%S.json"@
}

/// The name of the report file generated for a run that starts at `stamp`:
/// `pings_`, the date, the zero-padded time of day, and `.json`.
pub open spec fn file_name_of(stamp: LocalStampView) -> Seq<char> {
    "pings_"@ + stamp.date_text() + "_"@ + stamp.time_text() + ".json"@
}

/// Number of days of a month.
fn month_length(year: u32, month: u32) -> (days: u32)
    ensures
        days == days_in_month(year as int, month as int),
{
    if month == 2 {
        if year % 4 == 0 && (year % 100 != 0 || year % 400 == 0) {
            29
        } else {
            28
        }
    } else if month == 4 || month == 6 || month == 9 || month == 11 {
        30
    } else {
        31
    }
}

/// Calls chrono's `DateTime::<FixedOffset>::to_rfc3339` on the date, time
/// and offset of `stamp`. Chrono accepts the fields of a well-formed stamp:
/// a day of the Gregorian calendar, a time of day without leap second, and
/// an offset of less than a day. Claims only that the text is
/// `rfc3339_text` of the fields.
#[verifier::external_body]
fn chrono_rfc3339(stamp: &LocalStamp) -> (text: String)
    requires
        stamp@.wf(),
    ensures
        text@ == rfc3339_text(
            stamp@.year,
            stamp@.month,
            stamp@.day,
            stamp@.hour,
            stamp@.minute,
            stamp@.second,
            stamp@.nanosecond,
            stamp@.offset_seconds,
        ),
{
    let date = chrono::NaiveDate::from_ymd_opt(stamp.year as i32, stamp.month, stamp.day).unwrap();
    let time = date.and_hms_nano_opt(stamp.hour, stamp.minute, stamp.second, stamp.nanosecond)
        .unwrap();
    let offset = chrono::FixedOffset::east_opt(stamp.offset_seconds).unwrap();
    chrono::TimeZone::from_local_datetime(&offset, &time).unwrap().to_rfc3339()
}

/// Calls chrono's `NaiveDateTime::format` on the date and time of a
/// well-formed `stamp` with the pattern of report file names, which chrono
/// accepts as it accepts the fields. By chrono's documentation `%F` is
/// the date as year, month and day, zero-padded to four, two and two digits
/// and joined by hyphens, and `%H`, `%M`, `%S` are hour, minute and second,
/// zero-padded to two digits; all other characters of the pattern stand for
/// themselves.
#[verifier::external_body]
fn chrono_format(stamp: &LocalStamp, pattern: &str) -> (text: String)
    requires
        stamp@.wf(),
        pattern@ == file_name_pattern(),
    ensures
        text@ == file_name_of(stamp@),
{
    let date = chrono::NaiveDate::from_ymd_opt(stamp.year as i32, stamp.month, stamp.day).unwrap();
    let time = date.and_hms_opt(stamp.hour, stamp.minute, stamp.second).unwrap();
    time.format(pattern).to_string()
}

impl LocalStamp {
    #[verifier::type_invariant]
    spec fn inv(self) -> bool {
        self@.wf()
    }

    /// The stamp with the given fields, if they make a valid calendar time.
    pub fn new(
        year: u32,
        month: u32,
        day: u32,
        hour: u32,
        minute: u32,
        second: u32,
        nanosecond: u32,
        offset_seconds: i32,
    ) -> (stamp: Option<LocalStamp>)
        ensures
            stamp is Some <==> (LocalStampView {
                year: year as int,
                month: month as int,
                day: day as int,
                hour: hour as int,
                minute: minute as int,
                second: second as int,
                nanosecond: nanosecond as int,
                offset_seconds: offset_seconds as int,
            }).wf(),
            stamp matches Some(s) ==> s@ == (LocalStampView {
                year: year as int,
                month: month as int,
                day: day as int,
                hour: hour as int,
                minute: minute as int,
                second: second as int,
                nanosecond: nanosecond as int,
                offset_seconds: offset_seconds as int,
            }),
    {
        if year > 9999 || month < 1 || month > 12 || day < 1 {
            return None;
        }
        if day > month_length(year, month) {
            return None;
        }
        if hour >= 24 || minute >= 60 || second >= 60 || nanosecond >= 1_000_000_000 {
            return None;
        }
        if offset_seconds <= -86_400 || offset_seconds >= 86_400 {
            return None;
        }
        Some(
            LocalStamp { year, month, day, hour, minute, second, nanosecond, offset_seconds },
        )
    }

    /// The stamp in RFC 3339 notation, with its offset from UTC.
    pub fn to_rfc3339(&self) -> (text: String)
        ensures
            text@ == rfc3339_text(
                self@.year,
                self@.month,
                self@.day,
                self@.hour,
                self@.minute,
                self@.second,
                self@.nanosecond,
                self@.offset_seconds,
            ),
    {
        proof {
            use_type_invariant(self);
        }
        chrono_rfc3339(self)
    }

    /// The name of the report file generated for a run that starts at this
    /// time.
    pub fn report_file_name(&self) -> (name: String)
        ensures
            name@ == file_name_of(self@),
    {
        proof {
            use_type_invariant(self);
        }
        chrono_format(self, "pings_%F_%H-%M-%S.json")
    }
}

} // verus!
