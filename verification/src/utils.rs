//! Small helpers around the ledger: password length, random tokens and the
//! text form of a civil date and time.

use chrono::NaiveDate;
use rand::distributions::Alphanumeric;
use rand::rngs::ThreadRng;
use rand::Rng;
use vstd::prelude::*;
use vstd::string::{StrSliceExecFns, StringSliceAdditionalSpecFns};

verus! {

/// The shortest password accepted, counted in bytes.
pub const MIN_PASSWORD_BYTES: usize = 6;

/// Whether `password` is long enough: at least six bytes of UTF-8.
pub fn validate_password(password: &str) -> (ok: bool)
    ensures
        ok == (password.spec_bytes().len() >= MIN_PASSWORD_BYTES),
{
    password.as_bytes().len() >= MIN_PASSWORD_BYTES
}

/// An ASCII letter or digit.
pub open spec fn is_alphanumeric(c: char) -> bool {
    ||| '0' <= c <= '9'
    ||| 'A' <= c <= 'Z'
    ||| 'a' <= c <= 'z'
}

/// The handle of rand's thread-local generator. Nothing is known of its state.
#[verifier::external_type_specification]
#[verifier::external_body]
pub struct ExThreadRng(ThreadRng);

/// `rand::thread_rng` hands out the calling thread's generator. Nothing is
/// promised of it; rand aborts the thread if the operating system cannot seed it.
pub assume_specification[ rand::thread_rng ]() -> (rng: ThreadRng)
;

/// `Rng::sample` with rand's `Alphanumeric` draws one byte out of
/// `A-Z`, `a-z`, `0-9`; the wrapper hands it out as a `char`. Which of the 62
/// comes is left open.
#[verifier::external_body]
fn sample_alphanumeric(rng: &mut ThreadRng) -> (c: char)
    ensures
        is_alphanumeric(c),
{
    char::from(rng.sample(Alphanumeric))
}

/// `String::push` appends one character.
pub assume_specification[ String::push ](s: &mut String, ch: char)
    ensures
        final(s)@ == old(s)@.push(ch),
;

/// A string of `length` random characters, each an ASCII letter or digit.
pub fn generate_random_string(length: usize) -> (token: String)
    ensures
        token@.len() == length,
        forall|i: int| 0 <= i < token@.len() ==> is_alphanumeric(#[trigger] token@[i]),
{
    let mut rng = rand::thread_rng();
    let mut token = String::new();
    let mut made: usize = 0;
    while made < length
        invariant
            made <= length,
            token@.len() == made,
            forall|i: int| 0 <= i < token@.len() ==> is_alphanumeric(#[trigger] token@[i]),
        decreases length - made,
    {
        let c = sample_alphanumeric(&mut rng);
        token.push(c);
        made = made + 1;
    }
    token
}

/// Whether `year` has a 29th of February in the proleptic Gregorian calendar.
pub open spec fn is_leap_year(year: int) -> bool {
    year % 4 == 0 && (year % 100 != 0 || year % 400 == 0)
}

/// The number of days of `month` in `year`; 0 where `month` is none of 1 to 12.
pub open spec fn days_in_month(year: int, month: int) -> int {
    if month == 2 {
        if is_leap_year(year) {
            29
        } else {
            28
        }
    } else if month == 4 || month == 6 || month == 9 || month == 11 {
        30
    } else if 1 <= month <= 12 {
        31
    } else {
        0
    }
}

/// A date and time that exists on the calendar, in the years 0 to 9999 that
/// the 19-character text form can hold.
pub open spec fn is_civil(year: int, month: int, day: int, hour: int, minute: int, second: int) -> bool {
    &&& 0 <= year <= 9999
    &&& 1 <= month <= 12
    &&& 1 <= day <= days_in_month(year, month)
    &&& 0 <= hour < 24
    &&& 0 <= minute < 60
    &&& 0 <= second < 60
}

/// The decimal digit for `n`, where `n` is 0 to 9.
pub open spec fn digit(n: int) -> char {
    (48 + n) as char
}

/// `n` in two decimal digits, where `n` is 0 to 99.
pub open spec fn two_digits(n: int) -> Seq<char> {
    seq![digit(n / 10), digit(n % 10)]
}

/// `n` in four decimal digits, where `n` is 0 to 9999.
pub open spec fn four_digits(n: int) -> Seq<char> {
    two_digits(n / 100) + two_digits(n % 100)
}

/// The text `YYYY-MM-DD HH:MM:SS` of a date and time.
pub open spec fn timestamp_text(
    year: int,
    month: int,
    day: int,
    hour: int,
    minute: int,
    second: int,
) -> Seq<char> {
    four_digits(year) + seq!['-'] + two_digits(month) + seq!['-'] + two_digits(day) + seq![' ']
        + two_digits(hour) + seq![':'] + two_digits(minute) + seq![':'] + two_digits(second)
}

/// A local date and time, held as its calendar fields.
#[derive(Clone, Copy, Debug, PartialEq, Eq)]
pub struct LocalDateTime {
    year: i32,
    month: u32,
    day: u32,
    hour: u32,
    minute: u32,
    second: u32,
}

impl LocalDateTime {
    /// The fields name a date and time that exists.
    pub closed spec fn wf(&self) -> bool {
        is_civil(
            self.year as int,
            self.month as int,
            self.day as int,
            self.hour as int,
            self.minute as int,
            self.second as int,
        )
    }

    /// The text this value is displayed as.
    pub closed spec fn text(&self) -> Seq<char> {
        timestamp_text(
            self.year as int,
            self.month as int,
            self.day as int,
            self.hour as int,
            self.minute as int,
            self.second as int,
        )
    }

    /// The value for the given fields, or `None` where they name no date and
    /// time of the years 0 to 9999.
    pub fn new(year: i32, month: u32, day: u32, hour: u32, minute: u32, second: u32) -> (made:
        Option<LocalDateTime>)
        ensures
            made is Some <==> is_civil(
                year as int,
                month as int,
                day as int,
                hour as int,
                minute as int,
                second as int,
            ),
            made matches Some(dt) ==> dt.wf() && dt.text() == timestamp_text(
                year as int,
                month as int,
                day as int,
                hour as int,
                minute as int,
                second as int,
            ),
    {
        if year < 0 || year > 9999 || month < 1 || month > 12 || day < 1 {
            return None;
        }
        if hour >= 24 || minute >= 60 || second >= 60 {
            return None;
        }
        let leap = year % 4 == 0 && (year % 100 != 0 || year % 400 == 0);
        let last: u32 = if month == 2 {
            if leap {
                29
            } else {
                28
            }
        } else if month == 4 || month == 6 || month == 9 || month == 11 {
            30
        } else {
            31
        };
        if day > last {
            return None;
        }
        Some(LocalDateTime { year, month, day, hour, minute, second })
    }
}

/// chrono's `NaiveDateTime::format` with `%Y-%m-%d %H:%M:%S`, on the value
/// that `NaiveDate::from_ymd_opt` and `NaiveDate::and_hms_opt` make of the
/// fields. For a year of 0 to 9999 chrono writes four digits, and two digits
/// for each other field, all padded with zeros. The fields must name an
/// existing date and time, so that neither constructor refuses them.
#[verifier::external_body]
fn chrono_format(year: i32, month: u32, day: u32, hour: u32, minute: u32, second: u32) -> (text:
    String)
    requires
        is_civil(year as int, month as int, day as int, hour as int, minute as int, second as int),
    ensures
        text@ == timestamp_text(
            year as int,
            month as int,
            day as int,
            hour as int,
            minute as int,
            second as int,
        ),
{
    NaiveDate::from_ymd_opt(year, month, day)
        .unwrap()
        .and_hms_opt(hour, minute, second)
        .unwrap()
        .format("%Y-%m-%d %H:%M:%S")
        .to_string()
}

/// The text `YYYY-MM-DD HH:MM:SS` of `dt`.
pub fn format_datetime(dt: &LocalDateTime) -> (text: String)
    requires
        dt.wf(),
    ensures
        text@ == dt.text(),
        text@.len() == 19,
{
    chrono_format(dt.year, dt.month, dt.day, dt.hour, dt.minute, dt.second)
}

/// The text `YYYY-MM-DD` of the day of `dt`: what the text of `dt` starts with.
pub fn format_date(dt: &LocalDateTime) -> (text: String)
    requires
        dt.wf(),
    ensures
        text@ == dt.text().subrange(0, 10),
{
    let full = format_datetime(dt);
    let mut day = String::new();
    let mut i: usize = 0;
    while i < 10
        invariant
            i <= 10,
            full@ == dt.text(),
            full@.len() == 19,
            day@ == full@.subrange(0, i as int),
        decreases 10 - i,
    {
        let c = full.as_str().get_char(i);
        day.push(c);
        assert(day@ =~= full@.subrange(0, i + 1));
        i = i + 1;
    }
    day
}

} // verus!
