//! Calendar dates and date-times without a time zone, read from and written
//! to text the way chrono does.

use chrono::{Datelike, Timelike};
use vstd::prelude::*;
use vstd::string::StringExecFns;
use crate::decode::{TryFromTursoValue, unexpected_none};
use crate::error::{Error, ErrorView, mismatch_message, result_deep_view, type_mismatch};
use crate::param::TursoParam;
use crate::text::{padded_decimal, signed_decimal, str_debug, debug_text, i64_to_decimal};
use crate::value::{SqlValue, TursoValue};

verus! {

/// The first year a date may have.
pub const MIN_YEAR: i32 = -262143i32;

/// The last year a date may have.
pub const MAX_YEAR: i32 = 262142i32;

/// The parts of a calendar date.
#[derive(Clone, Copy, Debug, PartialEq, Eq, Structural)]
pub struct DateParts {
    pub year: i32,
    pub month: u32,
    pub day: u32,
}

/// The parts of a date and a time of day; `nanosecond` reaches past a second
/// only during a leap second.
#[derive(Clone, Copy, Debug, PartialEq, Eq, Structural)]
pub struct DateTimeParts {
    pub date: DateParts,
    pub hour: u32,
    pub minute: u32,
    pub second: u32,
    pub nanosecond: u32,
}

/// Leap years of the proleptic Gregorian calendar.
pub open spec fn is_leap_year(y: int) -> bool {
    (y % 4 == 0 && y % 100 != 0) || y % 400 == 0
}

/// The number of days of month `m` (1 to 12) of year `y`.
pub open spec fn days_in_month(y: int, m: int) -> int {
    if m == 2 {
        if is_leap_year(y) { 29 } else { 28 }
    } else if m == 4 || m == 6 || m == 9 || m == 11 {
        30
    } else {
        31
    }
}

/// A date that exists in the proleptic Gregorian calendar, within the years supported.
pub open spec fn valid_date(d: DateParts) -> bool {
    &&& MIN_YEAR <= d.year <= MAX_YEAR
    &&& 1 <= d.month <= 12
    &&& 1 <= d.day <= days_in_month(d.year as int, d.month as int)
}

/// A time of day; a nanosecond count of a second or more marks a leap second,
/// which only the 59th second may hold.
pub open spec fn valid_time(hour: u32, minute: u32, second: u32, nanosecond: u32) -> bool {
    &&& hour < 24
    &&& minute < 60
    &&& second < 60
    &&& nanosecond < 2_000_000_000
    &&& (nanosecond >= 1_000_000_000 ==> second == 59)
}

/// A date-time whose date and time are both valid.
pub open spec fn valid_datetime(p: DateTimeParts) -> bool {
    valid_date(p.date) && valid_time(p.hour, p.minute, p.second, p.nanosecond)
}

/// The year as `%Y` writes it: four digits within 0 to 9999, else a sign and
/// at least four digits.
pub open spec fn year_text(y: int) -> Seq<char> {
    if 0 <= y <= 9999 {
        padded_decimal(y as nat, 4)
    } else if y < 0 {
        seq!['-'] + padded_decimal((-y) as nat, 4)
    } else {
        seq!['+'] + padded_decimal(y as nat, 4)
    }
}

/// The number of days from 1970-01-01 to the date `d` of the proleptic
/// Gregorian calendar, negative before it.
pub open spec fn days_from_epoch(d: DateParts) -> int {
    let y = if d.month <= 2 { d.year - 1 } else { d.year as int };
    let era = y / 400;
    let year_of_era = y - era * 400;
    let shifted_month = if d.month > 2 { d.month - 3 } else { d.month + 9 };
    let day_of_year = (153 * shifted_month + 2) / 5 + d.day - 1;
    let day_of_era = year_of_era * 365 + year_of_era / 4 - year_of_era / 100 + day_of_year;
    era * 146097 + day_of_era - 719468
}

/// A date as `%Y-%m-%d` (and chrono's `Display`) writes it.
pub open spec fn date_text(d: DateParts) -> Seq<char> {
    year_text(d.year as int) + seq!['-'] + padded_decimal(d.month as nat, 2) + seq!['-']
        + padded_decimal(d.day as nat, 2)
}

/// The fraction of a second as `%.f` writes it: nothing for a whole second,
/// else a dot and 3, 6 or 9 digits, the fewest that hold it exactly.
pub open spec fn fraction_text(n: nat) -> Seq<char> {
    if n == 0 {
        Seq::empty()
    } else if n % 1_000_000 == 0 {
        seq!['.'] + padded_decimal(n / 1_000_000, 3)
    } else if n % 1_000 == 0 {
        seq!['.'] + padded_decimal(n / 1_000, 6)
    } else {
        seq!['.'] + padded_decimal(n, 9)
    }
}

/// A date-time as `%F %T%.f` writes it; a leap second shows as second 60.
pub open spec fn datetime_text(p: DateTimeParts) -> Seq<char> {
    date_text(p.date) + seq![' '] + padded_decimal(p.hour as nat, 2) + seq![':']
        + padded_decimal(p.minute as nat, 2) + seq![':']
        + padded_decimal((p.second + p.nanosecond / 1_000_000_000) as nat, 2)
        + fraction_text((p.nanosecond % 1_000_000_000) as nat)
}

/// The format in which date-times are written.
pub open spec fn datetime_write_format() -> Seq<char> {
    "%F %T%.f"@
}

/// A calendar date (chrono's `NaiveDate`), always one that exists.
#[derive(Clone, Copy, Debug)]
pub struct NaiveDate {
    year: i32,
    month: u32,
    day: u32,
}

impl NaiveDate {
    /// The parts of this date.
    pub closed spec fn parts(self) -> DateParts {
        DateParts { year: self.year, month: self.month, day: self.day }
    }

    #[verifier::type_invariant]
    closed spec fn inv(self) -> bool {
        valid_date(self.parts())
    }

    /// The date with the given year, month and day, if it exists.
    pub fn from_ymd_opt(year: i32, month: u32, day: u32) -> (r: Option<NaiveDate>)
        ensures
            r is Some <==> valid_date((DateParts { year, month, day })),
            r matches Some(d) ==> d.parts() == (DateParts { year, month, day }),
    {
        if year < MIN_YEAR || year > MAX_YEAR || month < 1 || month > 12 || day < 1 {
            return None;
        }
        let last = month_length(year, month);
        if day > last {
            None
        } else {
            Some(NaiveDate { year, month, day })
        }
    }

    /// The year.
    pub fn year(&self) -> (r: i32)
        ensures
            r == self.parts().year,
    {
        self.year
    }

    /// The month, from 1 to 12.
    pub fn month(&self) -> (r: u32)
        ensures
            r == self.parts().month,
    {
        self.month
    }

    /// The day of the month, from 1.
    pub fn day(&self) -> (r: u32)
        ensures
            r == self.parts().day,
    {
        self.day
    }

    /// Every date is valid.
    pub fn check_valid(&self)
        ensures
            valid_date(self.parts()),
    {
        proof {
            use_type_invariant(self);
        }
    }
}

impl DeepView for NaiveDate {
    type V = DateParts;

    open spec fn deep_view(&self) -> DateParts {
        self.parts()
    }
}

/// The number of days of a month of a year in the supported range.
fn month_length(year: i32, month: u32) -> (r: u32)
    requires
        MIN_YEAR <= year <= MAX_YEAR,
        1 <= month <= 12,
    ensures
        r as int == days_in_month(year as int, month as int),
{
    if month == 2 {
        let shifted: u32 = (year as i64 + 400000i64) as u32;
        assert(shifted as int % 4 == year as int % 4);
        assert(shifted as int % 100 == year as int % 100);
        assert(shifted as int % 400 == year as int % 400);
        if (shifted % 4 == 0 && shifted % 100 != 0) || shifted % 400 == 0 {
            29
        } else {
            28
        }
    } else if month == 4 || month == 6 || month == 9 || month == 11 {
        30
    } else {
        31
    }
}

/// A date and a time of day (chrono's `NaiveDateTime`), always a valid one.
#[derive(Clone, Copy, Debug)]
pub struct NaiveDateTime {
    date: NaiveDate,
    hour: u32,
    minute: u32,
    second: u32,
    nanosecond: u32,
}

impl NaiveDateTime {
    /// The parts of this date-time.
    pub closed spec fn parts(self) -> DateTimeParts {
        DateTimeParts {
            date: self.date.parts(),
            hour: self.hour,
            minute: self.minute,
            second: self.second,
            nanosecond: self.nanosecond,
        }
    }

    #[verifier::type_invariant]
    closed spec fn inv(self) -> bool {
        valid_time(self.hour, self.minute, self.second, self.nanosecond)
    }

    /// The given date at the given time of day, if that time exists.
    pub fn new(date: NaiveDate, hour: u32, minute: u32, second: u32, nanosecond: u32) -> (r: Option<
        NaiveDateTime,
    >)
        ensures
            r is Some <==> valid_time(hour, minute, second, nanosecond),
            r matches Some(d) ==> d.parts() == (DateTimeParts {
                date: date.parts(),
                hour,
                minute,
                second,
                nanosecond,
            }),
    {
        if hour >= 24 || minute >= 60 || second >= 60 || (nanosecond >= 1_000_000_000 && second
            != 59) || nanosecond >= 2_000_000_000 {
            None
        } else {
            Some(NaiveDateTime { date, hour, minute, second, nanosecond })
        }
    }

    /// The date.
    pub fn date(&self) -> (r: NaiveDate)
        ensures
            r.parts() == self.parts().date,
    {
        self.date
    }

    /// The hour, from 0 to 23.
    pub fn hour(&self) -> (r: u32)
        ensures
            r == self.parts().hour,
    {
        self.hour
    }

    /// The minute, from 0 to 59.
    pub fn minute(&self) -> (r: u32)
        ensures
            r == self.parts().minute,
    {
        self.minute
    }

    /// The second, from 0 to 59.
    pub fn second(&self) -> (r: u32)
        ensures
            r == self.parts().second,
    {
        self.second
    }

    /// The nanoseconds into the second; a second or more during a leap second.
    pub fn nanosecond(&self) -> (r: u32)
        ensures
            r == self.parts().nanosecond,
    {
        self.nanosecond
    }

    /// Every date-time is valid.
    pub fn check_valid(&self)
        ensures
            valid_datetime(self.parts()),
    {
        proof {
            use_type_invariant(self);
            use_type_invariant(&self.date);
        }
    }
}

impl DeepView for NaiveDateTime {
    type V = DateTimeParts;

    open spec fn deep_view(&self) -> DateTimeParts {
        self.parts()
    }
}

/// What `chrono::NaiveDateTime::parse_from_str(s, fmt)` gives, by its parts.
pub uninterp spec fn chrono_datetime_parse(s: Seq<char>, fmt: Seq<char>) -> Option<DateTimeParts>;

/// What `chrono::NaiveDate::parse_from_str(s, fmt)` gives: the date's parts,
/// or the text of chrono's parse error.
pub uninterp spec fn chrono_date_parse(s: Seq<char>, fmt: Seq<char>) -> Result<DateParts, Seq<char>>;

/// What `chrono::DateTime::from_timestamp(secs, nsecs)` gives, as UTC date-time parts.
pub uninterp spec fn chrono_utc_from_timestamp(secs: i64, nsecs: u32) -> Option<DateTimeParts>;

/// An optional date-time taken by its parts.
pub open spec fn option_parts(r: Option<NaiveDateTime>) -> Option<DateTimeParts> {
    match r {
        Some(d) => Some(d.parts()),
        None => None,
    }
}

/// Calls `chrono::NaiveDateTime::parse_from_str`. The contract names the
/// result, which texts each format accepts being chrono's; of the format the
/// library writes it states that chrono reads back every valid date-time it
/// writes in it (its parser takes `%Y` with a sign beyond four digits, `%T`
/// with second 60 as a leap second, and `%.f` as an optional fraction).
#[verifier::external_body]
fn parse_datetime_with(s: &str, fmt: &str) -> (r: Option<NaiveDateTime>)
    ensures
        option_parts(r) == chrono_datetime_parse(s@, fmt@),
        fmt@ == datetime_write_format() ==> forall|p: DateTimeParts|
            valid_datetime(p) && #[trigger] datetime_text(p) == s@ ==> option_parts(r) == Some(p),
{
    let d = chrono::NaiveDateTime::parse_from_str(s, fmt).ok()?;
    Some(NaiveDateTime {
        date: NaiveDate { year: d.year(), month: d.month(), day: d.day() },
        hour: d.hour(),
        minute: d.minute(),
        second: d.second(),
        nanosecond: d.nanosecond(),
    })
}

/// Calls `chrono::NaiveDate::parse_from_str`, turning chrono's error into its
/// text. The contract names the result; of `%F` it states that chrono reads
/// back every valid date written `%Y-%m-%d` (its parser takes `%Y` with a sign
/// beyond four digits).
#[verifier::external_body]
fn parse_date_with(s: &str, fmt: &str) -> (r: Result<NaiveDate, String>)
    ensures
        match r {
            Ok(d) => chrono_date_parse(s@, fmt@) == Ok::<DateParts, Seq<char>>(d.parts()),
            Err(m) => chrono_date_parse(s@, fmt@) == Err::<DateParts, Seq<char>>(m@),
        },
        fmt@ == date_read_format() ==> forall|d: DateParts|
            valid_date(d) && #[trigger] date_text(d) == s@ ==> (r is Ok && r->Ok_0.parts() == d),
{
    match chrono::NaiveDate::parse_from_str(s, fmt) {
        Ok(d) => Ok(NaiveDate { year: d.year(), month: d.month(), day: d.day() }),
        Err(e) => Err(e.to_string()),
    }
}

/// Calls `chrono::DateTime::from_timestamp` and takes the UTC date-time. The
/// contract names the result and states what chrono's code computes of it: the
/// date is day `secs.div_euclid(86400)` counted from 1970-01-01, the time of
/// day is `secs.rem_euclid(86400)` seconds, and the nanoseconds are `nsecs`.
/// Which days fall outside chrono's calendar is left to the name.
#[verifier::external_body]
fn utc_from_timestamp(secs: i64, nsecs: u32) -> (r: Option<NaiveDateTime>)
    ensures
        option_parts(r) == chrono_utc_from_timestamp(secs, nsecs),
        r matches Some(d) ==> {
            &&& days_from_epoch(d.parts().date) == secs / 86400
            &&& d.parts().hour * 3600 + d.parts().minute * 60 + d.parts().second == secs % 86400
            &&& d.parts().nanosecond == nsecs
        },
{
    let d = chrono::DateTime::from_timestamp(secs, nsecs)?.naive_utc();
    Some(NaiveDateTime {
        date: NaiveDate { year: d.year(), month: d.month(), day: d.day() },
        hour: d.hour(),
        minute: d.minute(),
        second: d.second(),
        nanosecond: d.nanosecond(),
    })
}

/// Calls `chrono::NaiveDate`'s `to_string`, which writes `%Y-%m-%d`.
#[verifier::external_body]
fn date_to_text(d: &NaiveDate) -> (r: String)
    requires
        valid_date(d.parts()),
    ensures
        r@ == date_text(d.parts()),
{
    chrono::NaiveDate::from_ymd_opt(d.year, d.month, d.day).unwrap().to_string()
}

/// Calls chrono's `format(fmt)` on a `NaiveDateTime` and renders it; for the
/// one format the library writes, the result is stated.
#[verifier::external_body]
fn datetime_to_text(d: &NaiveDateTime, fmt: &str) -> (r: String)
    requires
        valid_datetime(d.parts()),
        fmt@ == datetime_write_format(),
    ensures
        r@ == datetime_text(d.parts()),
{
    chrono::NaiveDate::from_ymd_opt(d.date.year, d.date.month, d.date.day)
        .unwrap()
        .and_hms_nano_opt(d.hour, d.minute, d.second, d.nanosecond)
        .unwrap()
        .format(fmt)
        .to_string()
}

/// The formats a stored text is tried against, in order, when read as a date-time.
pub open spec fn datetime_read_formats() -> Seq<Seq<char>> {
    seq!["%F %T%.f"@, "%FT%T%.f"@, "%F %T"@, "%FT%T"@, "%F %H:%M"@, "%FT%H:%M"@]
}

/// The date-time given by the first of `fmts` that parses `s`.
pub open spec fn first_parse(s: Seq<char>, fmts: Seq<Seq<char>>) -> Option<DateTimeParts>
    decreases fmts.len(),
{
    if fmts.len() == 0 {
        None
    } else {
        match chrono_datetime_parse(s, fmts[0]) {
            Some(d) => Some(d),
            None => first_parse(s, fmts.drop_first()),
        }
    }
}

/// What reading the text `s` as a date-time gives.
pub open spec fn datetime_from_text(s: Seq<char>) -> Result<DateTimeParts, ErrorView> {
    match first_parse(s, datetime_read_formats()) {
        Some(d) => Ok(d),
        None => Err(ErrorView::ConversionFailure(unparsed_datetime_message(s))),
    }
}

/// The date-time given by the first of the read formats that parses `s`.
fn first_datetime_parse(s: &str) -> (r: Option<NaiveDateTime>)
    ensures
        option_parts(r) == first_parse(s@, datetime_read_formats()),
        forall|p: DateTimeParts|
            valid_datetime(p) && #[trigger] datetime_text(p) == s@ ==> option_parts(r) == Some(p),
{
    let formats: [&str; 6] = ["%F %T%.f", "%FT%T%.f", "%F %T", "%FT%T", "%F %H:%M", "%FT%H:%M"];
    assert(formats@.map_values(|f: &str| f@) =~= datetime_read_formats());
    let ghost fmts = datetime_read_formats();
    assert(fmts.skip(0) =~= fmts);
    for i in 0..6
        invariant
            formats@.map_values(|f: &str| f@) == fmts,
            fmts == datetime_read_formats(),
            first_parse(s@, fmts) == first_parse(s@, fmts.skip(i as int)),
            i > 0 ==> forall|p: DateTimeParts|
                valid_datetime(p) ==> #[trigger] datetime_text(p) != s@,
    {
        assert(fmts.skip(i as int)[0] == formats@[i as int]@);
        assert(fmts.skip(i as int).drop_first() =~= fmts.skip(i + 1));
        assert(i == 0 ==> formats@[i as int]@ == datetime_write_format()) by {
            reveal_strlit("%F %T%.f");
            assert(fmts[0] == formats@[0]@);
        }
        let found = parse_datetime_with(s, formats[i]);
        if found.is_some() {
            return found;
        }
    }
    assert(fmts.skip(6) =~= Seq::<Seq<char>>::empty());
    None
}

/// The message for a text that no read format parses.
pub open spec fn unparsed_datetime_message(s: Seq<char>) -> Seq<char> {
    "could not parse NaiveDateTime from "@ + str_debug(s)
}

/// The outcome of reading the text `s` as a date-time, given what the read
/// formats found in it.
pub fn datetime_from_parse(s: &str, found: Option<NaiveDateTime>) -> (r: Result<NaiveDateTime, Error>)
    ensures
        result_deep_view(r) == match found {
            Some(d) => Ok::<DateTimeParts, ErrorView>(d.parts()),
            None => Err(ErrorView::ConversionFailure(unparsed_datetime_message(s@))),
        },
{
    match found {
        Some(d) => Ok(d),
        None => {
            let mut msg = String::new();
            msg.append("could not parse NaiveDateTime from ");
            let quoted = debug_text(s);
            msg.append(quoted.as_str());
            Err(Error::ConversionFailure(msg))
        },
    }
}

/// Reads a text as a date-time, trying each of the read formats in turn.
pub fn parse_naive_datetime(s: &str) -> (r: Result<NaiveDateTime, Error>)
    ensures
        result_deep_view(r) == datetime_from_text(s@),
        forall|p: DateTimeParts|
            valid_datetime(p) && #[trigger] datetime_text(p) == s@ ==> result_deep_view(r) == Ok::<
                DateTimeParts,
                ErrorView,
            >(p),
{
    let found = first_datetime_parse(s);
    datetime_from_parse(s, found)
}

/// The message for a timestamp chrono cannot place on the calendar.
pub open spec fn bad_timestamp_message(secs: i64) -> Seq<char> {
    "invalid unix timestamp "@ + signed_decimal(secs as int) + " for NaiveDateTime"@
}

/// The outcome of reading `secs` as a Unix timestamp, given the date-time
/// chrono placed it at, if any.
pub fn datetime_from_timestamp(secs: i64, found: Option<NaiveDateTime>) -> (r: Result<NaiveDateTime, Error>)
    ensures
        result_deep_view(r) == match found {
            Some(d) => Ok::<DateTimeParts, ErrorView>(d.parts()),
            None => Err(ErrorView::ConversionFailure(bad_timestamp_message(secs))),
        },
{
    match found {
        Some(d) => Ok(d),
        None => {
            let mut msg = String::new();
            msg.append("invalid unix timestamp ");
            let digits = i64_to_decimal(secs);
            msg.append(digits.as_str());
            msg.append(" for NaiveDateTime");
            Err(Error::ConversionFailure(msg))
        },
    }
}

/// A text reads as the first of the read formats that parses it; an integer
/// as that many seconds after the Unix epoch, in UTC.
impl TryFromTursoValue for NaiveDateTime {
    open spec fn from_turso_view(v: SqlValue) -> Result<DateTimeParts, ErrorView> {
        match v {
            SqlValue::Text(s) => datetime_from_text(s),
            SqlValue::Integer(secs) => match chrono_utc_from_timestamp(secs, 0) {
                Some(d) => Ok(d),
                None => Err(ErrorView::ConversionFailure(bad_timestamp_message(secs))),
            },
            SqlValue::Null => Err(ErrorView::UnexpectedNoneInColumn("NaiveDateTime"@)),
            _ => Err(ErrorView::ConversionFailure(mismatch_message(v, "NaiveDateTime"@))),
        }
    }

    /// Reads a stored value as a date-time; a valid date-time written as text
    /// (see [`datetime_text`]) reads back as itself, and an integer read as a
    /// date-time is that many seconds after 1970-01-01 00:00:00.
    fn try_from_turso(v: &TursoValue) -> (r: Result<NaiveDateTime, Error>)
        ensures
            forall|p: DateTimeParts|
                valid_datetime(p) && v@ == SqlValue::Text(#[trigger] datetime_text(p))
                    ==> result_deep_view(r) == Ok::<DateTimeParts, ErrorView>(p),
            v@ matches SqlValue::Integer(secs) ==> (r is Ok ==> {
                let p = r->Ok_0.parts();
                &&& days_from_epoch(p.date) == secs / 86400
                &&& p.hour * 3600 + p.minute * 60 + p.second == secs % 86400
                &&& p.nanosecond == 0
            }),
    {
        match v {
            TursoValue::Text(s) => parse_naive_datetime(s.as_str()),
            TursoValue::Integer(secs) => {
                let found = utc_from_timestamp(*secs, 0);
                datetime_from_timestamp(*secs, found)
            },
            TursoValue::Null => Err(unexpected_none("NaiveDateTime")),
            _ => type_mismatch("NaiveDateTime", v),
        }
    }
}

/// The format a stored text is read with as a date.
pub open spec fn date_read_format() -> Seq<char> {
    "%F"@
}

/// What reading the text `s` as a date gives.
pub open spec fn date_from_text(s: Seq<char>) -> Result<DateParts, ErrorView> {
    match chrono_date_parse(s, date_read_format()) {
        Ok(d) => Ok(d),
        Err(e) => Err(ErrorView::ConversionFailure(unparsed_date_message(s, e))),
    }
}

/// The message for a text chrono could not read as a date, with chrono's reason.
pub open spec fn unparsed_date_message(s: Seq<char>, reason: Seq<char>) -> Seq<char> {
    "could not parse NaiveDate from "@ + str_debug(s) + ": "@ + reason
}

/// The outcome of reading the text `s` as a date, given what chrono's parser
/// gave: the date, or the text of its error.
pub fn date_from_parse(s: &str, parsed: Result<NaiveDate, String>) -> (r: Result<NaiveDate, Error>)
    ensures
        result_deep_view(r) == match parsed {
            Ok(d) => Ok::<DateParts, ErrorView>(d.parts()),
            Err(e) => Err(ErrorView::ConversionFailure(unparsed_date_message(s@, e@))),
        },
{
    match parsed {
        Ok(d) => Ok(d),
        Err(e) => {
            let mut msg = String::new();
            msg.append("could not parse NaiveDate from ");
            let quoted = debug_text(s);
            msg.append(quoted.as_str());
            msg.append(": ");
            msg.append(e.as_str());
            Err(Error::ConversionFailure(msg))
        },
    }
}

/// A text reads as a date written `%Y-%m-%d`.
impl TryFromTursoValue for NaiveDate {
    open spec fn from_turso_view(v: SqlValue) -> Result<DateParts, ErrorView> {
        match v {
            SqlValue::Text(s) => date_from_text(s),
            SqlValue::Null => Err(ErrorView::UnexpectedNoneInColumn("NaiveDate"@)),
            _ => Err(ErrorView::ConversionFailure(mismatch_message(v, "NaiveDate"@))),
        }
    }

    /// Reads a stored value as a date; a valid date written as text (see
    /// [`date_text`]) reads back as itself.
    fn try_from_turso(v: &TursoValue) -> (r: Result<NaiveDate, Error>)
        ensures
            forall|d: DateParts|
                valid_date(d) && v@ == SqlValue::Text(#[trigger] date_text(d))
                    ==> result_deep_view(r) == Ok::<DateParts, ErrorView>(d),
    {
        match v {
            TursoValue::Text(s) => {
                let parsed = parse_date_with(s.as_str(), "%F");
                date_from_parse(s.as_str(), parsed)
            },
            TursoValue::Null => Err(unexpected_none("NaiveDate")),
            _ => type_mismatch("NaiveDate", v),
        }
    }
}

/// A date-time is stored as its text in `%F %T%.f`.
impl TursoParam for NaiveDateTime {
    open spec fn param_view(&self) -> SqlValue {
        SqlValue::Text(datetime_text(self.parts()))
    }

    fn to_turso_value(&self) -> (r: TursoValue) {
        self.check_valid();
        TursoValue::Text(datetime_to_text(self, "%F %T%.f"))
    }
}

/// A date is stored as its text in `%Y-%m-%d`.
impl TursoParam for NaiveDate {
    open spec fn param_view(&self) -> SqlValue {
        SqlValue::Text(date_text(self.parts()))
    }

    fn to_turso_value(&self) -> (r: TursoValue) {
        self.check_valid();
        TursoValue::Text(date_to_text(self))
    }
}

} // verus!
