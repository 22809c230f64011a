use chrono::Datelike;
use vstd::prelude::*;

verus! {

/// The English ordinal suffix used in entry titles, chosen by the last digit
/// of the day alone (so 11 gives "st").
pub open spec fn ordinal_suffix(day: int) -> Seq<char> {
    let unit = day % 10;
    if unit == 1 {
        "st"@
    } else if unit == 2 {
        "nd"@
    } else if unit == 3 {
        "rd"@
    } else {
        "th"@
    }
}

/// The ordinal suffix of a day of the month.
pub fn date_superscript(day: u32) -> (r: &'static str)
    ensures
        r@ == ordinal_suffix(day as int),
{
    let unit = day % 10;
    if unit == 1 {
        "st"
    } else if unit == 2 {
        "nd"
    } else if unit == 3 {
        "rd"
    } else {
        "th"
    }
}

/// The suffix depends on the last digit only: days ten apart share it.
pub proof fn lemma_suffix_repeats_every_ten(day: int)
    ensures
        ordinal_suffix(day) == ordinal_suffix(day + 10),
{
    assert((day + 10) % 10 == day % 10);
}


/// The earliest year that a calendar date may have.
pub const MIN_YEAR: i32 = -262143;

/// The latest year that a calendar date may have.
pub const MAX_YEAR: i32 = 262142;

/// A day of the proleptic Gregorian calendar, as plain numbers.
pub struct CalendarDate {
    pub year: int,
    pub month: int,
    pub day: int,
}

pub open spec fn is_leap_year(year: int) -> bool {
    year % 4 == 0 && (year % 100 != 0 || year % 400 == 0)
}

pub open spec fn days_in_month(year: int, month: int) -> int {
    if month == 2 {
        if is_leap_year(year) {
            29
        } else {
            28
        }
    } else if month == 4 || month == 6 || month == 9 || month == 11 {
        30
    } else {
        31
    }
}

/// A date that exists in the calendar, within the years a date may have.
pub open spec fn valid_date(d: CalendarDate) -> bool {
    &&& MIN_YEAR <= d.year <= MAX_YEAR
    &&& 1 <= d.month <= 12
    &&& 1 <= d.day <= days_in_month(d.year, d.month)
}

/// The day of the week, counted from Sunday (0) to Saturday (6).
pub open spec fn weekday_from_sunday(d: CalendarDate) -> int {
    let y = if d.month <= 2 {
        d.year - 1
    } else {
        d.year
    };
    let m = if d.month <= 2 {
        d.month + 9
    } else {
        d.month - 3
    };
    (365 * y + y / 4 - y / 100 + y / 400 + (153 * m + 2) / 5 + d.day + 2) % 7
}

pub open spec fn weekday_name(weekday: int) -> Seq<char> {
    seq![
        "Sunday"@,
        "Monday"@,
        "Tuesday"@,
        "Wednesday"@,
        "Thursday"@,
        "Friday"@,
        "Saturday"@,
    ][weekday]
}

pub open spec fn month_name(month: int) -> Seq<char> {
    seq![
        "January"@,
        "February"@,
        "March"@,
        "April"@,
        "May"@,
        "June"@,
        "July"@,
        "August"@,
        "September"@,
        "October"@,
        "November"@,
        "December"@,
    ][month - 1]
}

pub open spec fn digit_char(n: int) -> char {
    seq!['0', '1', '2', '3', '4', '5', '6', '7', '8', '9'][n]
}

/// The decimal digits of `n`, without leading zeros.
pub open spec fn decimal(n: nat) -> Seq<char>
    decreases n,
{
    if n < 10 {
        seq![digit_char(n as int)]
    } else {
        decimal(n / 10).push(digit_char((n % 10) as int))
    }
}

/// The decimal digits of `n`, with zeros in front up to `width` characters.
pub open spec fn zero_padded(n: nat, width: nat) -> Seq<char> {
    let digits = decimal(n);
    if digits.len() >= width {
        digits
    } else {
        Seq::new((width - digits.len()) as nat, |i: int| '0') + digits
    }
}

/// A year as four digits, with a sign in front where it does not fit them.
pub open spec fn year_text(year: int) -> Seq<char> {
    if 0 <= year <= 9999 {
        zero_padded(year as nat, 4)
    } else if year < 0 {
        seq!['-'] + zero_padded((-year) as nat, 4)
    } else {
        seq!['+'] + zero_padded(year as nat, 4)
    }
}

/// `YYYY-MM-DD`.
pub open spec fn iso_date_text(d: CalendarDate) -> Seq<char> {
    year_text(d.year) + seq!['-'] + zero_padded(d.month as nat, 2) + seq!['-'] + zero_padded(
        d.day as nat,
        2,
    )
}

/// `YYYY-MM`, the name of a month's folder.
pub open spec fn year_month_text(d: CalendarDate) -> Seq<char> {
    year_text(d.year) + seq!['-'] + zero_padded(d.month as nat, 2)
}

/// The weekday's name and the day of the month, as in `Saturday 6`.
pub open spec fn weekday_day_text(d: CalendarDate) -> Seq<char> {
    weekday_name(weekday_from_sunday(d)) + seq![' '] + decimal(d.day as nat)
}

/// The month's name and the year, as in `November 2021`.
pub open spec fn month_year_text(d: CalendarDate) -> Seq<char> {
    month_name(d.month) + seq![' '] + year_text(d.year)
}

/// The calendar date with these numbers.
pub open spec fn ymd(year: i32, month: u32, day: u32) -> CalendarDate {
    CalendarDate { year: year as int, month: month as int, day: day as int }
}

/// The four ways the diary writes a date, each by its strftime pattern.
pub open spec fn is_date_pattern(pattern: Seq<char>) -> bool {
    pattern == "%Y-%m-%d"@ || pattern == "%Y-%m"@ || pattern == "%A %-e"@ || pattern == "%B %Y"@
}

/// What each of the four patterns writes for a date.
pub open spec fn date_pattern_text(d: CalendarDate, pattern: Seq<char>) -> Seq<char> {
    if pattern == "%Y-%m-%d"@ {
        iso_date_text(d)
    } else if pattern == "%Y-%m"@ {
        year_month_text(d)
    } else if pattern == "%A %-e"@ {
        weekday_day_text(d)
    } else {
        month_year_text(d)
    }
}

proof fn lemma_date_patterns_differ()
    ensures
        "%Y-%m-%d"@ != "%Y-%m"@,
        "%Y-%m-%d"@ != "%A %-e"@,
        "%Y-%m-%d"@ != "%B %Y"@,
        "%Y-%m"@ != "%A %-e"@,
        "%Y-%m"@ != "%B %Y"@,
        "%A %-e"@ != "%B %Y"@,
{
    reveal_strlit("%Y-%m-%d");
    reveal_strlit("%Y-%m");
    reveal_strlit("%A %-e");
    reveal_strlit("%B %Y");
    // Each pattern differs from the others in its second character or its length.
    assert("%Y-%m-%d"@[1] != "%A %-e"@[1] && "%Y-%m-%d"@[1] != "%B %Y"@[1]);
    assert("%Y-%m"@[1] != "%A %-e"@[1] && "%Y-%m"@[1] != "%B %Y"@[1]);
    assert("%A %-e"@[1] != "%B %Y"@[1]);
    assert("%Y-%m-%d"@.len() != "%Y-%m"@.len());
}

/// Relies on chrono's `NaiveDate::from_ymd_opt`: it gives a date exactly when
/// the year is in its range and the month and day exist in the calendar.
#[verifier::external_body]
fn calendar_date_exists(year: i32, month: u32, day: u32) -> (r: bool)
    ensures
        r == valid_date(ymd(year, month, day)),
{
    chrono::NaiveDate::from_ymd_opt(year, month, day).is_some()
}

/// Relies on chrono's `NaiveDate::format` with one of four strftime patterns:
/// `%Y` writes the year with four digits (signed outside 0 to 9999), `%m` and
/// `%d` two digits, `%-e` the day without padding, `%A` and `%B` the English
/// names of the weekday and the month.
#[verifier::external_body]
fn chrono_format(year: i32, month: u32, day: u32, pattern: &str) -> (r: String)
    requires
        valid_date(ymd(year, month, day)),
        is_date_pattern(pattern@),
    ensures
        r@ == date_pattern_text(ymd(year, month, day), pattern@),
{
    let date = chrono::NaiveDate::from_ymd_opt(year, month, day).unwrap();
    date.format(pattern).to_string()
}

/// The date that chrono's `NaiveDate::from_str` reads from a text, if any.
pub uninterp spec fn date_read_from(text: Seq<char>) -> Option<CalendarDate>;

/// Relies on chrono's `NaiveDate::from_str`, which reads a `YYYY-MM-DD` date
/// (allowing signs and spaces as its parser does) from the text alone.
#[verifier::external_body]
fn chrono_read_date(text: &str) -> (r: Option<(i32, u32, u32)>)
    ensures
        r is None ==> date_read_from(text@) is None,
        r matches Some(t) ==> date_read_from(text@) == Some(ymd(t.0, t.1, t.2)),
{
    text.parse::<chrono::NaiveDate>().ok().map(|d| (d.year(), d.month(), d.day()))
}

/// A calendar date that an entry of the diary can be kept for.
pub struct EntryDate {
    year: i32,
    month: u32,
    day: u32,
}

impl View for EntryDate {
    type V = CalendarDate;

    closed spec fn view(&self) -> CalendarDate {
        CalendarDate { year: self.year as int, month: self.month as int, day: self.day as int }
    }
}

impl EntryDate {
    #[verifier::type_invariant]
    spec fn inv(&self) -> bool {
        valid_date(self@)
    }

    /// The date with the given year, month (1 to 12) and day, if it exists.
    pub fn from_ymd(year: i32, month: u32, day: u32) -> (r: Option<EntryDate>)
        ensures
            r is Some <==> valid_date(ymd(year, month, day)),
            r matches Some(d) ==> d@ == ymd(year, month, day),
    {
        if calendar_date_exists(year, month, day) {
            Some(EntryDate { year, month, day })
        } else {
            None
        }
    }

    /// The date written in `text` as `YYYY-MM-DD`, if it is one.
    pub fn parse(text: &str) -> (r: Option<EntryDate>)
        ensures
            r is Some <==> (date_read_from(text@) matches Some(d) && valid_date(d)),
            r matches Some(d) ==> date_read_from(text@) == Some(d@),
    {
        match chrono_read_date(text) {
            Some((year, month, day)) => EntryDate::from_ymd(year, month, day),
            None => None,
        }
    }

    pub fn year(&self) -> (r: i32)
        ensures
            r == self@.year,
            valid_date(self@),
    {
        proof {
            use_type_invariant(self);
        }
        self.year
    }

    pub fn month(&self) -> (r: u32)
        ensures
            r == self@.month,
    {
        self.month
    }

    pub fn day(&self) -> (r: u32)
        ensures
            r == self@.day,
    {
        self.day
    }

    /// `YYYY-MM-DD`.
    pub fn iso_text(&self) -> (r: String)
        ensures
            r@ == iso_date_text(self@),
    {
        proof {
            use_type_invariant(self);
            lemma_date_patterns_differ();
        }
        chrono_format(self.year, self.month, self.day, "%Y-%m-%d")
    }

    /// `YYYY-MM`.
    pub fn year_month_text(&self) -> (r: String)
        ensures
            r@ == year_month_text(self@),
    {
        proof {
            use_type_invariant(self);
            lemma_date_patterns_differ();
        }
        chrono_format(self.year, self.month, self.day, "%Y-%m")
    }

    /// The weekday's name and the day, as in `Saturday 6`.
    pub fn weekday_day_text(&self) -> (r: String)
        ensures
            r@ == weekday_day_text(self@),
    {
        proof {
            use_type_invariant(self);
            lemma_date_patterns_differ();
        }
        chrono_format(self.year, self.month, self.day, "%A %-e")
    }

    /// The month's name and the year, as in `November 2021`.
    pub fn month_year_text(&self) -> (r: String)
        ensures
            r@ == month_year_text(self@),
    {
        proof {
            use_type_invariant(self);
            lemma_date_patterns_differ();
        }
        chrono_format(self.year, self.month, self.day, "%B %Y")
    }
}

} // verus!

verus! {

/// Whether a character is a decimal digit.
pub open spec fn is_digit(c: char) -> bool {
    c == '0' || c == '1' || c == '2' || c == '3' || c == '4' || c == '5' || c == '6' || c == '7'
        || c == '8' || c == '9'
}

/// Whether a text is one or more decimal digits.
pub open spec fn is_digits(s: Seq<char>) -> bool {
    s.len() > 0 && forall|i: int| 0 <= i < s.len() ==> #[trigger] is_digit(s[i])
}

/// The value of a decimal digit character.
pub open spec fn digit_value(c: char) -> int {
    if c == '0' {
        0
    } else if c == '1' {
        1
    } else if c == '2' {
        2
    } else if c == '3' {
        3
    } else if c == '4' {
        4
    } else if c == '5' {
        5
    } else if c == '6' {
        6
    } else if c == '7' {
        7
    } else if c == '8' {
        8
    } else {
        9
    }
}

/// The number that a string of decimal digits writes.
pub open spec fn digits_value(s: Seq<char>) -> int
    decreases s.len(),
{
    if s.len() == 0 {
        0
    } else {
        10 * digits_value(s.drop_last()) + digit_value(s.last())
    }
}

/// Whether a text writes a year as `year_text` does: digits, with a sign or
/// without.
pub open spec fn is_year_text(t: Seq<char>) -> bool {
    if t.len() > 0 && (t[0] == '-' || t[0] == '+') {
        is_digits(t.drop_first())
    } else {
        is_digits(t)
    }
}

/// The year that a text accepted by `is_year_text` writes.
pub open spec fn parse_year(t: Seq<char>) -> int {
    if t.len() > 0 && t[0] == '-' {
        -digits_value(t.drop_first())
    } else if t.len() > 0 && t[0] == '+' {
        digits_value(t.drop_first())
    } else {
        digits_value(t)
    }
}

/// The date in a `YYYY-MM-DD` text: a year, then two digits of month and two
/// of day, each after a `-`.
pub open spec fn parse_iso_date(s: Seq<char>) -> Option<CalendarDate> {
    let n = s.len() as int;
    if n >= 10 && s[n - 3] == '-' && s[n - 6] == '-' && is_year_text(s.subrange(0, n - 6))
        && is_digits(s.subrange(n - 5, n - 3)) && is_digits(s.subrange(n - 2, n)) {
        Some(
            CalendarDate {
                year: parse_year(s.subrange(0, n - 6)),
                month: digits_value(s.subrange(n - 5, n - 3)),
                day: digits_value(s.subrange(n - 2, n)),
            },
        )
    } else {
        None
    }
}

proof fn lemma_digit(k: int)
    requires
        0 <= k < 10,
    ensures
        digit_value(digit_char(k)) == k,
        is_digit(digit_char(k)),
        digit_char(k) != '-',
        digit_char(k) != '+',
{
    let digits = seq!['0', '1', '2', '3', '4', '5', '6', '7', '8', '9'];
    assert(digits[0] == '0' && digits[1] == '1' && digits[2] == '2' && digits[3] == '3');
    assert(digits[4] == '4' && digits[5] == '5' && digits[6] == '6' && digits[7] == '7');
    assert(digits[8] == '8' && digits[9] == '9');
}

proof fn lemma_decimal(n: nat)
    ensures
        digits_value(decimal(n)) == n,
        decimal(n).len() >= 1,
        n < 10 ==> decimal(n).len() == 1,
        10 <= n < 100 ==> decimal(n).len() == 2,
        is_digits(decimal(n)),
        decimal(n)[0] != '-',
        decimal(n)[0] != '+',
    decreases n,
{
    if n < 10 {
        lemma_digit(n as int);
        let s = decimal(n);
        assert(s.drop_last() =~= Seq::<char>::empty());
        assert(digits_value(s.drop_last()) == 0);
        assert(s.last() == digit_char(n as int));
        assert(is_digit(s[0]));
    } else {
        lemma_decimal(n / 10);
        lemma_digit((n % 10) as int);
        let s = decimal(n);
        assert(s.drop_last() =~= decimal(n / 10));
        assert(s.last() == digit_char((n % 10) as int));
        assert(digits_value(s) == 10 * digits_value(s.drop_last()) + digit_value(s.last()));
        assert(n == 10 * (n / 10) + n % 10);
        assert(s[0] == decimal(n / 10)[0]);
        assert forall|i: int| 0 <= i < s.len() implies #[trigger] is_digit(s[i]) by {
            if i < s.len() - 1 {
                assert(s[i] == decimal(n / 10)[i]);
            }
        }
    }
}

proof fn lemma_zeros_value(z: nat)
    ensures
        digits_value(Seq::new(z, |i: int| '0')) == 0,
    decreases z,
{
    if z > 0 {
        lemma_zeros_value((z - 1) as nat);
        assert(Seq::new(z, |i: int| '0').drop_last() =~= Seq::new((z - 1) as nat, |i: int| '0'));
    }
}

proof fn lemma_leading_zeros(z: nat, s: Seq<char>)
    ensures
        digits_value(Seq::new(z, |i: int| '0') + s) == digits_value(s),
    decreases s.len(),
{
    let zeros = Seq::new(z, |i: int| '0');
    if s.len() == 0 {
        lemma_zeros_value(z);
        assert(zeros + s =~= zeros);
    } else {
        lemma_leading_zeros(z, s.drop_last());
        assert((zeros + s).drop_last() =~= zeros + s.drop_last());
    }
}

proof fn lemma_zero_padded(n: nat, width: nat)
    ensures
        digits_value(zero_padded(n, width)) == n,
        zero_padded(n, width).len() >= width,
        zero_padded(n, width).len() >= 1,
        n < 100 && width == 2 ==> zero_padded(n, width).len() == 2,
        is_digits(zero_padded(n, width)),
        zero_padded(n, width)[0] != '-',
        zero_padded(n, width)[0] != '+',
{
    lemma_decimal(n);
    let digits = decimal(n);
    if digits.len() < width {
        lemma_leading_zeros((width - digits.len()) as nat, digits);
        let padded = zero_padded(n, width);
        let z = (width - digits.len()) as int;
        assert forall|i: int| 0 <= i < padded.len() implies #[trigger] is_digit(padded[i]) by {
            if i >= z {
                assert(padded[i] == digits[i - z]);
            }
        }
    }
}

/// Reading back the `YYYY-MM-DD` text of a date gives the date.
pub proof fn lemma_iso_date_round_trip(d: CalendarDate)
    requires
        valid_date(d),
    ensures
        parse_iso_date(iso_date_text(d)) == Some(d),
{
    let y = year_text(d.year);
    let mm = zero_padded(d.month as nat, 2);
    let dd = zero_padded(d.day as nat, 2);
    lemma_zero_padded(d.month as nat, 2);
    lemma_zero_padded(d.day as nat, 2);
    if 0 <= d.year <= 9999 {
        lemma_zero_padded(d.year as nat, 4);
    } else if d.year < 0 {
        lemma_zero_padded((-d.year) as nat, 4);
        assert(y.drop_first() =~= zero_padded((-d.year) as nat, 4));
    } else {
        lemma_zero_padded(d.year as nat, 4);
        assert(y.drop_first() =~= zero_padded(d.year as nat, 4));
    }
    assert(parse_year(y) == d.year);
    assert(is_year_text(y));
    let s = iso_date_text(d);
    let n = s.len() as int;
    assert(n == y.len() + 6);
    assert(s.subrange(0, n - 6) =~= y);
    assert(s.subrange(n - 5, n - 3) =~= mm);
    assert(s.subrange(n - 2, n) =~= dd);
}

} // verus!
