//! Calendar dates without a time of day, and their ISO 8601 text.
//!
//! A [`Date`] holds a year, a month and a day as plain integers and is
//! always a day that exists. Turning a date into text and text into a date is
//! left to `chrono`; what is believed of it is written at the two private
//! functions at the end of this file. Before them stands the proof that no
//! two days are written alike.

use vstd::prelude::*;

verus! {

/// The first year a date can have.
pub const MIN_YEAR: i32 = -262143;

/// The last year a date can have.
pub const MAX_YEAR: i32 = 262142;

/// A year, a month and a day as mathematical integers: what a [`Date`] stands
/// for in contracts.
pub struct CalendarDate {
    pub year: int,
    pub month: int,
    pub day: int,
}

/// Whether `year` has a 29th of February in the proleptic Gregorian calendar.
/// Year 0 is 1 BCE and is a leap year.
pub open spec fn is_leap_year(year: int) -> bool {
    year % 4 == 0 && (year % 100 != 0 || year % 400 == 0)
}

/// The number of days of `month` in `year`, for a month from 1 to 12.
pub open spec fn days_in_month(year: int, month: int) -> int {
    if month == 2 {
        if is_leap_year(year) {
            29
        } else {
            28
        }
    } else if month == 4 || month == 6 || month == 9 || month == 11 {
        30
    } else {
        31
    }
}

/// The character that writes the decimal digit `d`, for `d` from 0 to 9.
pub open spec fn digit(d: int) -> char {
    (d + 48) as char
}

/// `n` written with exactly two decimal digits, for `n` from 0 to 99.
pub open spec fn two_digits(n: int) -> Seq<char> {
    seq![digit(n / 10), digit(n % 10)]
}

/// `n` written in decimal without leading zeros.
pub open spec fn decimal(n: nat) -> Seq<char>
    decreases n,
{
    if n < 10 {
        seq![digit(n as int)]
    } else {
        decimal(n / 10).push(digit((n % 10) as int))
    }
}

/// `n` written in decimal with at least four digits, zeros in front where it
/// has fewer.
pub open spec fn four_or_more_digits(n: nat) -> Seq<char> {
    if n <= 9999 {
        two_digits(n as int / 100) + two_digits(n as int % 100)
    } else {
        decimal(n)
    }
}

/// The year of an ISO 8601 date: four digits for the years 0 to 9999; for any
/// other year a sign, then at least four digits.
pub open spec fn year_text(year: int) -> Seq<char> {
    if 0 <= year <= 9999 {
        four_or_more_digits(year as nat)
    } else if year < 0 {
        seq!['-'] + four_or_more_digits((-year) as nat)
    } else {
        seq!['+'] + four_or_more_digits(year as nat)
    }
}

impl CalendarDate {
    /// Whether this is a day that exists and whose year a [`Date`] can hold.
    pub open spec fn is_valid(self) -> bool {
        &&& MIN_YEAR <= self.year <= MAX_YEAR
        &&& 1 <= self.month <= 12
        &&& 1 <= self.day <= days_in_month(self.year, self.month)
    }

    /// The date as ISO 8601 text: the year, `-`, the month in two digits, `-`,
    /// the day in two digits.
    pub open spec fn iso_text(self) -> Seq<char> {
        year_text(self.year) + seq!['-'] + two_digits(self.month) + seq!['-'] + two_digits(
            self.day,
        )
    }
}

/// The calendar date with the given year, month and day.
pub open spec fn ymd(year: int, month: int, day: int) -> CalendarDate {
    CalendarDate { year, month, day }
}

/// How a date is written: the year, the month and the day as numbers, with
/// `-` between them.
pub const DATE_FORMAT: &'static str = "%Y-%m-%d";

/// What `chrono` reads out of `text` as a date written as `format` says: the
/// year, month and day, or `None` where it rejects the text.
pub uninterp spec fn parsed_ymd(text: Seq<char>, format: Seq<char>) -> Option<(i32, u32, u32)>;

/// The date that `text` is read as, or `None` where it is not the text of a
/// date.
pub open spec fn parsed_date(text: Seq<char>) -> Option<CalendarDate> {
    match parsed_ymd(text, DATE_FORMAT@) {
        Some((year, month, day)) => Some(ymd(year as int, month as int, day as int)),
        None => None,
    }
}

/// The date of which `text` is the ISO 8601 text: the date that `text` is
/// read as, where that is a day that exists and `text` is exactly what it is
/// written as. `None` for any other text, such as a month or a day written
/// with one digit.
pub open spec fn date_of_iso_text(text: Seq<char>) -> Option<CalendarDate> {
    match parsed_date(text) {
        Some(date) => if date.is_valid() && date.iso_text() == text {
            Some(date)
        } else {
            None
        },
        None => None,
    }
}

/// A day of the proleptic Gregorian calendar. Every value is a day that
/// exists, with a year from [`MIN_YEAR`] to [`MAX_YEAR`].
#[derive(Debug, Clone, Copy, PartialEq, Eq)]
pub struct Date {
    year: i32,
    month: u32,
    day: u32,
}

impl View for Date {
    type V = CalendarDate;

    closed spec fn view(&self) -> CalendarDate {
        ymd(self.year as int, self.month as int, self.day as int)
    }
}

impl Date {
    /// What holds of every date: it is a day that exists.
    #[verifier::type_invariant]
    pub open spec fn exists_in_calendar(self) -> bool {
        self@.is_valid()
    }

    /// The date with this year, month and day, or `None` where there is no
    /// such day or the year is out of range.
    pub fn from_ymd(year: i32, month: u32, day: u32) -> (date: Option<Date>)
        ensures
            date is Some <==> ymd(year as int, month as int, day as int).is_valid(),
            date matches Some(d) ==> d@ == ymd(year as int, month as int, day as int),
    {
        if year < MIN_YEAR || year > MAX_YEAR || month < 1 || month > 12 || day < 1 {
            return None;
        }
        // 262400 is a multiple of 400, so the shifted year is positive and
        // leaves the same remainders.
        let shifted: i32 = year + 262400;
        let leap = shifted % 4 == 0 && (shifted % 100 != 0 || shifted % 400 == 0);
        let last: u32 = if month == 2 {
            if leap {
                29
            } else {
                28
            }
        } else if month == 4 || month == 6 || month == 9 || month == 11 {
            30
        } else {
            31
        };
        if day > last {
            return None;
        }
        Some(Date { year, month, day })
    }

    /// The year, from [`MIN_YEAR`] to [`MAX_YEAR`]; 0 is 1 BCE.
    pub fn year(&self) -> (year: i32)
        ensures
            year == self@.year,
            MIN_YEAR <= year <= MAX_YEAR,
    {
        proof {
            use_type_invariant(self);
        }
        self.year
    }

    /// The month, from 1 to 12.
    pub fn month(&self) -> (month: u32)
        ensures
            month == self@.month,
            1 <= month <= 12,
    {
        proof {
            use_type_invariant(self);
        }
        self.month
    }

    /// The day of the month, from 1.
    pub fn day(&self) -> (day: u32)
        ensures
            day == self@.day,
            1 <= day <= days_in_month(self@.year, self@.month),
    {
        proof {
            use_type_invariant(self);
        }
        self.day
    }

    /// The date as ISO 8601 text, such as `1990-05-12`.
    pub fn to_text(&self) -> (text: String)
        ensures
            text@ == self@.iso_text(),
    {
        proof {
            use_type_invariant(self);
        }
        format_ymd(self.year, self.month, self.day).unwrap()
    }

    /// Reads a date written as year, month and day with `-` between them.
    /// `None` where the text is not read as a date.
    pub fn parse(text: &str) -> (date: Option<Date>)
        ensures
            date is Some <==> parsed_date(text@) is Some,
            date matches Some(d) ==> parsed_date(text@) == Some(d@),
    {
        match parse_ymd(text, DATE_FORMAT) {
            Ok((year, month, day)) => Some(Date { year, month, day }),
            Err(_) => None,
        }
    }

    /// The date of which `text` is the ISO 8601 text, such as `1990-05-12`.
    /// `None` where `text` is not exactly what [`Date::to_text`] writes for
    /// a date: `1990-5-12` is none.
    pub fn from_iso_text(text: &str) -> (date: Option<Date>)
        ensures
            match date {
                Some(d) => date_of_iso_text(text@) == Some(d@) && text@ == d@.iso_text(),
                None => date_of_iso_text(text@) is None,
            },
    {
        match Date::parse(text) {
            Some(date) => {
                proof {
                    use_type_invariant(&date);
                }
                if date.to_text() == text.to_owned() {
                    Some(date)
                } else {
                    None
                }
            },
            None => None,
        }
    }
}

/// The digits of a number of five or six digits, one by one.
proof fn lemma_decimal_digits(n: nat)
    requires
        10000 <= n <= 999999,
    ensures
        n <= 99999 ==> decimal(n) =~= seq![
            digit(n as int / 10000),
            digit(n as int / 1000 % 10),
            digit(n as int / 100 % 10),
            digit(n as int / 10 % 10),
            digit(n as int % 10),
        ],
        n > 99999 ==> decimal(n) =~= seq![
            digit(n as int / 100000),
            digit(n as int / 10000 % 10),
            digit(n as int / 1000 % 10),
            digit(n as int / 100 % 10),
            digit(n as int / 10 % 10),
            digit(n as int % 10),
        ],
{
    reveal_with_fuel(decimal, 3);
    let hundreds = n / 100;
    let thousands = n / 1000;
    assert(decimal(n) == decimal(hundreds).push(digit(n as int / 10 % 10)).push(
        digit(n as int % 10),
    ));
    assert(decimal(hundreds) == decimal(thousands).push(digit(n as int / 100 % 10)));
    if n <= 99999 {
        assert(decimal(thousands) == seq![digit(n as int / 10000)].push(
            digit(n as int / 1000 % 10),
        ));
    } else {
        assert(decimal(thousands) == seq![digit(n as int / 100000)].push(
            digit(n as int / 10000 % 10),
        ).push(digit(n as int / 1000 % 10)));
    }
}

/// How many digits stand for `n` in a year's text: four up to 9999, else as
/// many as `n` needs.
spec fn year_digits(n: int) -> nat {
    if n <= 9999 {
        4
    } else if n <= 99999 {
        5
    } else {
        6
    }
}

/// The four digits of a number up to 9999, zeros in front included.
proof fn lemma_four_digits(n: nat)
    requires
        n <= 9999,
    ensures
        four_or_more_digits(n) =~= seq![
            digit(n as int / 1000 % 10),
            digit(n as int / 100 % 10),
            digit(n as int / 10 % 10),
            digit(n as int % 10),
        ],
{
    let m = n as int;
    assert(m / 100 / 10 == m / 1000 % 10);
    assert(m % 100 / 10 == m / 10 % 10);
    assert(m % 100 % 10 == m % 10);
}

/// The digits that stand for `n` in a year's text, counted from the last.
proof fn lemma_four_or_more_digits(n: nat)
    requires
        n <= 999999,
    ensures
        ({
            let t = four_or_more_digits(n);
            let count = year_digits(n as int);
            &&& t.len() == count
            &&& t[count - 1] == digit(n as int % 10)
            &&& t[count - 2] == digit(n as int / 10 % 10)
            &&& t[count - 3] == digit(n as int / 100 % 10)
            &&& t[count - 4] == digit(n as int / 1000 % 10)
            &&& count >= 5 ==> t[count - 5] == digit(n as int / 10000 % 10)
            &&& count >= 6 ==> t[count - 6] == digit(n as int / 100000)
        }),
{
    if n <= 9999 {
        lemma_four_digits(n);
    } else {
        lemma_decimal_digits(n);
        if n <= 99999 {
            assert(n as int / 10000 % 10 == n as int / 10000);
        }
    }
}

/// The characters of a year's text, one by one: a sign where the year is not
/// from 0 to 9999, then the digits of the year without its sign.
proof fn lemma_year_text_digits(year: int)
    requires
        MIN_YEAR <= year <= MAX_YEAR,
    ensures
        ({
            let t = year_text(year);
            let n = if year < 0 {
                -year
            } else {
                year
            };
            let from: int = if 0 <= year <= 9999 {
                0
            } else {
                1
            };
            let count = year_digits(n);
            &&& t.len() == from + count
            &&& year < 0 ==> t[0] == '-'
            &&& year > 9999 ==> t[0] == '+'
            &&& t[from + count - 1] == digit(n % 10)
            &&& t[from + count - 2] == digit(n / 10 % 10)
            &&& t[from + count - 3] == digit(n / 100 % 10)
            &&& t[from + count - 4] == digit(n / 1000 % 10)
            &&& count >= 5 ==> t[from + count - 5] == digit(n / 10000 % 10)
            &&& count >= 6 ==> t[from + count - 6] == digit(n / 100000)
        }),
{
    let n = if year < 0 {
        -year
    } else {
        year
    };
    lemma_four_or_more_digits(n as nat);
    let digits = four_or_more_digits(n as nat);
    let t = year_text(year);
    if !(0 <= year <= 9999) {
        assert(forall|i: int| 0 <= i < digits.len() ==> t[i + 1] == digits[i]);
    }
}

/// The number that the character of a decimal digit writes.
spec fn digit_value(c: char) -> int {
    c as int - 48
}

/// The number written by the `count` digits of `t` that start at `from`.
spec fn digits_value(t: Seq<char>, from: int, count: nat) -> int
    decreases count,
{
    if count == 0 {
        0
    } else {
        digits_value(t, from, (count - 1) as nat) * 10 + digit_value(t[from + count - 1])
    }
}

/// The year that a year's text writes: the text read back.
spec fn year_of_text(t: Seq<char>) -> int {
    if t[0] == '-' {
        -digits_value(t, 1, (t.len() - 1) as nat)
    } else if t[0] == '+' {
        digits_value(t, 1, (t.len() - 1) as nat)
    } else {
        digits_value(t, 0, t.len())
    }
}

/// A number below a million is what its six digits write.
proof fn lemma_number_from_digits(n: int)
    requires
        0 <= n < 1000000,
    ensures
        n == ((((n / 100000 * 10 + n / 10000 % 10) * 10 + n / 1000 % 10) * 10 + n / 100 % 10) * 10
            + n / 10 % 10) * 10 + n % 10,
        0 <= n / 100000 <= 9,
{
    assert(n / 10000 == n / 100000 * 10 + n / 10000 % 10);
    assert(n / 1000 == n / 10000 * 10 + n / 1000 % 10);
    assert(n / 100 == n / 1000 * 10 + n / 100 % 10);
    assert(n / 10 == n / 100 * 10 + n / 10 % 10);
    assert(n == n / 10 * 10 + n % 10);
}

/// Digit characters that are the digits of `n`, in their order, write `n`.
proof fn lemma_digits_value(t: Seq<char>, from: int, count: nat, n: int)
    requires
        0 <= n < 1000000,
        count <= 6,
        count >= 4,
        0 <= from,
        from + count <= t.len(),
        t[from + count - 1] == digit(n % 10),
        t[from + count - 2] == digit(n / 10 % 10),
        t[from + count - 3] == digit(n / 100 % 10),
        t[from + count - 4] == digit(n / 1000 % 10),
        count >= 5 ==> t[from + count - 5] == digit(n / 10000 % 10),
        count >= 6 ==> t[from + count - 6] == digit(n / 100000),
        count == 4 ==> n <= 9999,
        count == 5 ==> n <= 99999,
    ensures
        digits_value(t, from, count) == n,
{
    reveal_with_fuel(digits_value, 7);
    lemma_number_from_digits(n);
    assert(forall|d: int| 0 <= d <= 9 ==> digit_value(#[trigger] digit(d)) == d);
    if count == 4 {
        assert(n / 100000 == 0 && n / 10000 % 10 == 0);
    } else if count == 5 {
        assert(n / 100000 == 0);
    }
}

/// A year's text, read back, is the year.
proof fn lemma_year_text_is_read_back(year: int)
    requires
        MIN_YEAR <= year <= MAX_YEAR,
    ensures
        year_of_text(year_text(year)) == year,
{
    lemma_year_text_digits(year);
    let t = year_text(year);
    let n = if year < 0 {
        -year
    } else {
        year
    };
    assert(forall|d: int| 0 <= d <= 9 ==> digit(d) != '-' && #[trigger] digit(d) != '+');
    if 0 <= year <= 9999 {
        lemma_digits_value(t, 0, 4, n);
    } else {
        lemma_digits_value(t, 1, year_digits(n), n);
    }
}

/// Where the parts of a date's text stand: the year's text first, then six
/// characters for the month and the day.
proof fn lemma_iso_text_parts(date: CalendarDate)
    ensures
        ({
            let t = date.iso_text();
            let n = year_text(date.year).len() as int;
            &&& t.len() == n + 6
            &&& t.subrange(0, n) == year_text(date.year)
            &&& t[n + 1] == digit(date.month / 10)
            &&& t[n + 2] == digit(date.month % 10)
            &&& t[n + 4] == digit(date.day / 10)
            &&& t[n + 5] == digit(date.day % 10)
        }),
{
    let t = date.iso_text();
    let n = year_text(date.year).len() as int;
    assert(t.subrange(0, n) =~= year_text(date.year));
}

/// Two numbers below a hundred that are written alike are the same number.
proof fn lemma_two_digits_tell_numbers_apart(a: int, b: int)
    requires
        0 <= a <= 99,
        0 <= b <= 99,
        digit(a / 10) == digit(b / 10),
        digit(a % 10) == digit(b % 10),
    ensures
        a == b,
{
    assert(forall|d: int| 0 <= d <= 9 ==> digit_value(#[trigger] digit(d)) == d);
}

/// Two days that exist and are written alike are the same day.
pub proof fn lemma_iso_text_tells_dates_apart(a: CalendarDate, b: CalendarDate)
    requires
        a.is_valid(),
        b.is_valid(),
        a.iso_text() == b.iso_text(),
    ensures
        a == b,
{
    lemma_iso_text_parts(a);
    lemma_iso_text_parts(b);
    lemma_year_text_is_read_back(a.year);
    lemma_year_text_is_read_back(b.year);
    lemma_two_digits_tell_numbers_apart(a.month, b.month);
    lemma_two_digits_tell_numbers_apart(a.day, b.day);
}

/// `chrono::ParseError`: why `chrono` rejected a text. Never looked into.
#[verifier::external_type_specification]
#[verifier::external_body]
pub struct DateParseError(chrono::ParseError);

/// `chrono::NaiveDate::from_ymd_opt` followed by the date's `to_string`.
///
/// Believed of `chrono`: it has a date for exactly the year, month and day
/// that `CalendarDate::is_valid` accepts, and it writes that date as
/// `CalendarDate::iso_text` says.
#[verifier::external_body]
fn format_ymd(year: i32, month: u32, day: u32) -> (text: Option<String>)
    ensures
        text is Some <==> ymd(year as int, month as int, day as int).is_valid(),
        text matches Some(t) ==> t@ == ymd(year as int, month as int, day as int).iso_text(),
{
    Some(chrono::NaiveDate::from_ymd_opt(year, month, day)?.to_string())
}

/// `chrono::NaiveDate::parse_from_str`, with the year, month and day of the
/// date it returns.
///
/// Believed of `chrono`: what it reads depends on the text and the format
/// alone, and a date it returns is a day that exists. It is only ever asked
/// for [`DATE_FORMAT`].
#[verifier::external_body]
fn parse_ymd(text: &str, format: &str) -> (read: Result<(i32, u32, u32), chrono::ParseError>)
    requires
        format@ == DATE_FORMAT@,
    ensures
        match read {
            Ok(found) => {
                &&& parsed_ymd(text@, format@) == Some(found)
                &&& ymd(found.0 as int, found.1 as int, found.2 as int).is_valid()
            },
            Err(_) => parsed_ymd(text@, format@) is None,
        },
{
    let date = chrono::NaiveDate::parse_from_str(text, format)?;
    Ok(
        (
            chrono::Datelike::year(&date),
            chrono::Datelike::month(&date),
            chrono::Datelike::day(&date),
        ),
    )
}

} // verus!
