//! The date and time a recruitment is held at, as calendar fields in local
//! time, and how it is read from a command and shown in a message.

use vstd::prelude::*;
use vstd::string::*;
use chrono::{Datelike, Timelike};
use crate::text::{chars_of, trim, trimmed, two_digits};

verus! {

/// The first year the calendar can hold.
pub const MIN_YEAR: i32 = -262143;

/// The last year the calendar can hold.
pub const MAX_YEAR: i32 = 262142;

/// The hour of the day at which a recruitment is held unless told otherwise.
pub const DEFAULT_HOUR: u32 = 21;

pub open spec fn is_leap_year(year: int) -> bool {
    year % 4 == 0 && (year % 100 != 0 || year % 400 == 0)
}

pub open spec fn days_in_month(year: int, month: int) -> int {
    if month == 2 {
        if is_leap_year(year) {
            29
        } else {
            28
        }
    } else if month == 4 || month == 6 || month == 9 || month == 11 {
        30
    } else {
        31
    }
}

/// A date and time of day, as plain values.
pub struct DateModel {
    pub year: int,
    pub month: int,
    pub day: int,
    pub hour: int,
    pub minute: int,
    pub second: int,
}

impl DateModel {
    /// Whether the fields name a day of the calendar and a time of that day.
    pub open spec fn valid(self) -> bool {
        &&& MIN_YEAR <= self.year <= MAX_YEAR
        &&& 1 <= self.month <= 12
        &&& 1 <= self.day <= days_in_month(self.year, self.month)
        &&& 0 <= self.hour < 24
        &&& 0 <= self.minute < 60
        &&& 0 <= self.second < 60
    }

    /// The same day at `hour`:`minute`:00.
    pub open spec fn at(self, hour: int, minute: int) -> DateModel {
        DateModel { hour, minute, second: 0, ..self }
    }

    /// The date as shown in a recruitment message: month/day hour:minute,
    /// two digits each.
    pub open spec fn month_day_time(self) -> Seq<char> {
        two_digits(self.month as nat) + "/"@ + two_digits(self.day as nat) + " "@ + two_digits(
            self.hour as nat,
        ) + ":"@ + two_digits(self.minute as nat)
    }
}

/// Calendar fields in the order year, month, day, hour, minute, second.
pub open spec fn model_of(fields: (i32, u32, u32, u32, u32, u32)) -> DateModel {
    DateModel {
        year: fields.0 as int,
        month: fields.1 as int,
        day: fields.2 as int,
        hour: fields.3 as int,
        minute: fields.4 as int,
        second: fields.5 as int,
    }
}

/// A valid date and time of day.
#[derive(Debug, Clone, Copy, PartialEq, Eq, Structural)]
pub struct EventDate {
    year: i32,
    month: u32,
    day: u32,
    hour: u32,
    minute: u32,
    second: u32,
}

impl View for EventDate {
    type V = DateModel;

    closed spec fn view(&self) -> DateModel {
        DateModel {
            year: self.year as int,
            month: self.month as int,
            day: self.day as int,
            hour: self.hour as int,
            minute: self.minute as int,
            second: self.second as int,
        }
    }
}

fn leap_year(year: i32) -> (r: bool)
    requires
        MIN_YEAR <= year <= MAX_YEAR,
    ensures
        r == is_leap_year(year as int),
{
    // 400000 is a multiple of 400, so the shift keeps every remainder.
    let shifted: u32 = (year + 400000) as u32;
    assert(shifted as int == year + 400000);
    assert((year as int) % 4 == (shifted as int) % 4);
    assert((year as int) % 100 == (shifted as int) % 100);
    assert((year as int) % 400 == (shifted as int) % 400);
    shifted % 4 == 0 && (shifted % 100 != 0 || shifted % 400 == 0)
}

fn month_length(year: i32, month: u32) -> (r: u32)
    requires
        MIN_YEAR <= year <= MAX_YEAR,
    ensures
        r == days_in_month(year as int, month as int),
{
    if month == 2 {
        if leap_year(year) {
            29
        } else {
            28
        }
    } else if month == 4 || month == 6 || month == 9 || month == 11 {
        30
    } else {
        31
    }
}

impl EventDate {
    #[verifier::type_invariant]
    closed spec fn inv(self) -> bool {
        self@.valid()
    }

    /// The date with these fields, if they name a day of the calendar and a
    /// time of that day.
    pub fn new(year: i32, month: u32, day: u32, hour: u32, minute: u32, second: u32) -> (r: Option<
        EventDate,
    >)
        ensures
            r is Some <==> model_of((year, month, day, hour, minute, second)).valid(),
            r matches Some(d) ==> d@ == model_of((year, month, day, hour, minute, second)),
    {
        if year < MIN_YEAR || year > MAX_YEAR {
            return None;
        }
        if month < 1 || month > 12 || day < 1 || day > month_length(year, month) {
            return None;
        }
        if hour >= 24 || minute >= 60 || second >= 60 {
            return None;
        }
        Some(EventDate { year, month, day, hour, minute, second })
    }

    pub fn year(&self) -> (r: i32)
        ensures
            r == self@.year,
            self@.valid(),
    {
        proof {
            use_type_invariant(self);
        }
        self.year
    }

    pub fn month(&self) -> (r: u32)
        ensures
            r == self@.month,
            self@.valid(),
    {
        proof {
            use_type_invariant(self);
        }
        self.month
    }

    pub fn day(&self) -> (r: u32)
        ensures
            r == self@.day,
            self@.valid(),
    {
        proof {
            use_type_invariant(self);
        }
        self.day
    }

    pub fn hour(&self) -> (r: u32)
        ensures
            r == self@.hour,
            self@.valid(),
    {
        proof {
            use_type_invariant(self);
        }
        self.hour
    }

    pub fn minute(&self) -> (r: u32)
        ensures
            r == self@.minute,
            self@.valid(),
    {
        proof {
            use_type_invariant(self);
        }
        self.minute
    }

    pub fn second(&self) -> (r: u32)
        ensures
            r == self@.second,
            self@.valid(),
    {
        proof {
            use_type_invariant(self);
        }
        self.second
    }

    /// The same day at the default hour sharp.
    pub fn at_default_time(&self) -> (r: EventDate)
        ensures
            r@ == self@.at(DEFAULT_HOUR as int, 0),
            r@.valid(),
    {
        proof {
            use_type_invariant(self);
        }
        EventDate {
            year: self.year,
            month: self.month,
            day: self.day,
            hour: DEFAULT_HOUR,
            minute: 0,
            second: 0,
        }
    }

    /// The date as shown in a recruitment message.
    pub fn month_day_time(&self) -> (s: String)
        ensures
            s@ == self@.month_day_time(),
    {
        proof {
            use_type_invariant(self);
        }
        format_month_day_time(self.year, self.month, self.day, self.hour, self.minute)
    }

    /// The present moment on this machine's clock, in its time zone.
    pub fn now() -> (r: EventDate)
        ensures
            r@.valid(),
    {
        let f = local_now();
        EventDate { year: f.0, month: f.1, day: f.2, hour: f.3, minute: f.4, second: f.5 }
    }
}

/// Reads the clock with `chrono::Local::now` and takes the calendar fields
/// of the local date and time.  Claimed: whatever the clock says, the fields
/// name a day of the calendar and a time of that day.
#[verifier::external_body]
fn local_now() -> (fields: (i32, u32, u32, u32, u32, u32))
    ensures
        model_of(fields).valid(),
{
    let now = chrono::Local::now();
    (now.year(), now.month(), now.day(), now.hour(), now.minute(), now.second())
}

/// Formats a date with chrono's `format("%m/%d %H:%M")`.  Claimed: the
/// result is month, day, hour and minute, each as two digits with a leading
/// zero where needed, separated by a slash, a space and a colon.
#[verifier::external_body]
fn format_month_day_time(year: i32, month: u32, day: u32, hour: u32, minute: u32) -> (s: String)
    requires
        model_of((year, month, day, hour, minute, 0)).valid(),
    ensures
        s@ == model_of((year, month, day, hour, minute, 0)).month_day_time(),
{
    match chrono::NaiveDate::from_ymd_opt(year, month, day) {
        Some(date) => match date.and_hms_opt(hour, minute, 0) {
            Some(at) => at.format("%m/%d %H:%M").to_string(),
            None => String::new(),
        },
        None => String::new(),
    }
}

/// Today at the default hour sharp, by this machine's clock.
pub fn default_expiry_date() -> (r: EventDate)
    ensures
        r@.valid(),
        r@.hour == DEFAULT_HOUR,
        r@.minute == 0,
        r@.second == 0,
{
    EventDate::now().at_default_time()
}

/// Whether `c` is one of the digits 0 to 9.
pub open spec fn is_digit(c: char) -> bool {
    0x30 <= c as u32 <= 0x39
}

/// Whether `tail` reads as a zone offset of a day or more: a sign, two
/// digits of hours that make 24 or more, and two digits of minutes below
/// 60, either right after the hours and then followed by at most one more
/// character, or after one colon.
pub open spec fn overlong_offset(tail: Seq<char>) -> bool {
    &&& 5 <= tail.len() <= 6
    &&& (tail[0] == '+' || tail[0] == '-')
    &&& is_digit(tail[1])
    &&& is_digit(tail[2])
    &&& 10 * (tail[1] as u32 - 0x30) + (tail[2] as u32 - 0x30) >= 24
    &&& {
        ||| 0x30 <= tail[3] as u32 <= 0x35 && is_digit(tail[4])
        ||| tail.len() == 6 && tail[3] == ':' && 0x30 <= tail[4] as u32 <= 0x35 && is_digit(
            tail[5],
        )
    }
}

/// Whether the last five or the last six characters of `input` read as a
/// zone offset of a day or more.
pub open spec fn ends_in_overlong_offset(input: Seq<char>) -> bool {
    ||| input.len() >= 5 && overlong_offset(input.subrange(input.len() - 5, input.len() as int))
    ||| input.len() >= 6 && overlong_offset(input.subrange(input.len() - 6, input.len() as int))
}

fn digit(c: char) -> (r: bool)
    ensures
        r == is_digit(c),
{
    let n = c as u32;
    0x30 <= n && n <= 0x39
}

fn overlong_from(chars: &Vec<char>, start: usize) -> (r: bool)
    requires
        start + 5 <= chars@.len() <= start + 6,
    ensures
        r == overlong_offset(chars@.subrange(start as int, chars@.len() as int)),
{
    let len = chars.len();
    let ghost tail = chars@.subrange(start as int, len as int);
    assert(forall|k: int| 0 <= k < tail.len() ==> tail[k] == chars@[start + k]);
    let signed = chars[start] == '+' || chars[start] == '-';
    let tens = chars[start + 1] as u32;
    let ones = chars[start + 2] as u32;
    if !signed || tens < 0x30 || tens > 0x39 || ones < 0x30 || ones > 0x39 {
        return false;
    }
    if 10 * (tens - 0x30) + (ones - 0x30) < 24 {
        return false;
    }
    let third = chars[start + 3] as u32;
    let fourth = chars[start + 4] as u32;
    if 0x30 <= third && third <= 0x35 && digit(chars[start + 4]) {
        return true;
    }
    if len - start == 6 {
        chars[start + 3] == ':' && 0x30 <= fourth && fourth <= 0x35 && digit(chars[start + 5])
    } else {
        false
    }
}

/// Whether the last five or the last six characters of `input` read as a
/// zone offset of a day or more.
pub fn has_overlong_offset(input: &str) -> (r: bool)
    ensures
        r == ends_in_overlong_offset(input@),
{
    let chars = chars_of(input);
    let len = chars.len();
    if len >= 5 && overlong_from(&chars, len - 5) {
        return true;
    }
    len >= 6 && overlong_from(&chars, len - 6)
}

/// Reads `input` with `dateparser::parse`, which takes a date or time
/// without a zone as local time, and takes the calendar fields of the result
/// in this machine's time zone.  What is accepted and what a partial input
/// is completed with depends on the clock and the time zone, so nothing is
/// claimed of the answer.  The error is the parser's own message.
///
/// The parser reads a zone at the end of the input as a sign, two digits of
/// hours, colons if any, and two digits of minutes, whatever follows, and
/// builds the offset with `FixedOffset::east`, which does not return for an
/// offset of a day or more.  A zone is at most six characters long, so such
/// an offset shows in the last five or six characters; input that ends so
/// is left out.
#[verifier::external_body]
fn parse_local(input: &str) -> (r: Result<(i32, u32, u32, u32, u32, u32), String>)
    requires
        !ends_in_overlong_offset(input@),
{
    match dateparser::parse(input) {
        Ok(utc) => {
            let at = utc.with_timezone(&chrono::Local);
            Ok((at.year(), at.month(), at.day(), at.hour(), at.minute(), at.second()))
        },
        Err(e) => Err(e.to_string()),
    }
}

/// The error text for `input` that could not be read as a date.
pub open spec fn parse_failure(input: Seq<char>, reason: Seq<char>) -> Seq<char> {
    "Failed to parse date string '"@ + input + "': "@ + reason
}

/// The reason given when the fields read from an input name no date.
pub open spec fn out_of_range() -> Seq<char> {
    "date out of range"@
}

/// The reason given when an input ends in a zone offset of a day or more.
pub open spec fn offset_out_of_range() -> Seq<char> {
    "time zone offset out of range"@
}

/// What reading `input` comes to, once the parser has answered `parsed`.
pub fn date_from_parse(input: &str, parsed: Result<(i32, u32, u32, u32, u32, u32), String>) -> (r:
    Result<EventDate, String>)
    ensures
        match parsed {
            Ok(fields) => if model_of(fields).valid() {
                r matches Ok(date) && date@ == model_of(fields)
            } else {
                r matches Err(e) && e@ == parse_failure(input@, out_of_range())
            },
            Err(reason) => r matches Err(e) && e@ == parse_failure(input@, reason@),
        },
{
    let mut message = String::from_str("Failed to parse date string '");
    message.append(input);
    message.append("': ");
    match parsed {
        Ok(fields) => {
            match EventDate::new(fields.0, fields.1, fields.2, fields.3, fields.4, fields.5) {
                Some(date) => Ok(date),
                None => {
                    message.append("date out of range");
                    Err(message)
                },
            }
        },
        Err(reason) => {
            message.append(reason.as_str());
            Err(message)
        },
    }
}

/// Reads the date a command gives.  Blank input stands for today at the
/// default hour.  Input that ends in a zone offset of a day or more is
/// refused.  Anything else is handed to the date parser, and its refusal
/// comes back as an error that quotes the input.
pub fn parse_event_date(date_str: &str) -> (r: Result<EventDate, String>)
    ensures
        trimmed(date_str@).len() == 0 ==> r is Ok,
        r matches Ok(date) ==> date@.valid() && (trimmed(date_str@).len() == 0 ==> date@.hour
            == DEFAULT_HOUR && date@.minute == 0 && date@.second == 0),
        ends_in_overlong_offset(trimmed(date_str@)) ==> (r matches Err(e) && e@ == parse_failure(
            trimmed(date_str@),
            offset_out_of_range(),
        )),
        r matches Err(e) ==> exists|reason: Seq<char>|
            e@ == parse_failure(trimmed(date_str@), reason),
{
    let input = trim(date_str);
    if input.unicode_len() == 0 {
        return Ok(default_expiry_date());
    }
    if has_overlong_offset(input) {
        let refused = date_from_parse(input, Err(String::from_str("time zone offset out of range")));
        assert(refused matches Err(e) && e@ == parse_failure(
            trimmed(date_str@),
            offset_out_of_range(),
        ));
        return refused;
    }
    let parsed = parse_local(input);
    let ghost reason = if parsed is Ok {
        out_of_range()
    } else {
        parsed->Err_0@
    };
    let r = date_from_parse(input, parsed);
    assert(r matches Err(e) ==> e@ == parse_failure(trimmed(date_str@), reason));
    r
}

} // verus!
