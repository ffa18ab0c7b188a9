//! Dates and times of day.

use crate::text::{
    all_digits, chars_of, digit_char, digits_value, first_place, first_place_of, is_digit,
    lemma_first_place, parse_i64, parse_i64_range,
};
use vstd::prelude::*;

verus! {

// ---------------------------------------------------------------------------
// The calendar
// ---------------------------------------------------------------------------

/// A leap year of the Gregorian calendar.
pub open spec fn leap(year: int) -> bool {
    (year % 4 == 0 && year % 100 != 0) || year % 400 == 0
}

/// How many days a year has.
pub open spec fn year_length(year: int) -> int {
    if leap(year) {
        366
    } else {
        365
    }
}

/// How many days a month has.
pub open spec fn month_length(year: int, month: int) -> int {
    if month == 2 {
        if leap(year) {
            29
        } else {
            28
        }
    } else if month == 4 || month == 6 || month == 9 || month == 11 {
        30
    } else {
        31
    }
}

/// How many days there are from the start of 1970 to the start of a year.
pub open spec fn days_before_year(year: int) -> int
    decreases year - 1970,
{
    if year <= 1970 {
        0
    } else {
        days_before_year(year - 1) + year_length(year - 1)
    }
}

/// How many days there are from the start of a year to the start of one of its months.
pub open spec fn days_before_month(year: int, month: int) -> int
    decreases month,
{
    if month <= 1 {
        0
    } else {
        days_before_month(year, month - 1) + month_length(year, month - 1)
    }
}

/// The numbers that are taken for a date. A day may be one that its month does not have, as
/// long as some month has it.
pub open spec fn is_date(year: int, month: int, day: int) -> bool {
    year >= 1970 && 1 <= month <= 12 && 1 <= day <= 31
}

/// How many days there are from the first of January 1970 to a date.
pub open spec fn day_number(year: int, month: int, day: int) -> int {
    days_before_year(year) + days_before_month(year, month) + day - 1
}

/// Whether a year is a leap year of the Gregorian calendar.
pub fn is_leap_year(year: i64) -> (is_leap: bool)
    ensures
        is_leap == leap(year as int),
{
    (year % 4 == 0 && year % 100 != 0) || year % 400 == 0
}

/// How many leap years there are from the year one to this year.
spec fn leaps_until(year: int) -> int {
    year / 4 - year / 100 + year / 400
}

proof fn lemma_days_before_year(year: int)
    requires
        year >= 1970,
    ensures
        days_before_year(year) == 365 * (year - 1970) + leaps_until(year - 1) - leaps_until(1969),
    decreases year,
{
    if year > 1970 {
        lemma_days_before_year(year - 1);
    }
}

fn days_before_month_of(year: i64, month: i64) -> (days: i64)
    requires
        1 <= month <= 12,
    ensures
        days == days_before_month(year as int, month as int),
        0 <= days <= 335,
{
    let mut days: i64 = 0;
    let mut m: i64 = 1;
    while m < month
        invariant
            1 <= m <= month <= 12,
            days == days_before_month(year as int, m as int),
            0 <= days <= 31 * (m - 1),
            m > 2 ==> days <= 31 * (m - 1) - 2,
            m > 4 ==> days <= 31 * (m - 1) - 3,
            m > 6 ==> days <= 31 * (m - 1) - 4,
            m > 9 ==> days <= 31 * (m - 1) - 5,
            m > 11 ==> days <= 31 * (m - 1) - 6,
        decreases month - m,
    {
        if m == 2 {
            days += if is_leap_year(year) {
                29
            } else {
                28
            };
        } else if m == 4 || m == 6 || m == 9 || m == 11 {
            days += 30;
        } else {
            days += 31;
        }
        m += 1;
    }
    days
}

/// How many days there are from the first of January 1970 to a date. There is no answer for
/// what is no date from then on, nor for one so late that the number of days does not fit.
pub fn days_since_unix_epoch(year: i64, month: i64, day: i64) -> (days: Option<i64>)
    ensures
        match days {
            Some(n) => is_date(year as int, month as int, day as int) && n == day_number(
                year as int,
                month as int,
                day as int,
            ),
            None => !is_date(year as int, month as int, day as int) || day_number(
                year as int,
                month as int,
                day as int,
            ) > i64::MAX,
        },
{
    if year < 1970 || month < 1 || month > 12 || day < 1 || day > 31 {
        return None;
    }
    proof {
        lemma_days_before_year(year as int);
    }
    let y: i128 = year as i128 - 1;
    let leaps: i128 = y / 4 - y / 100 + y / 400 - 477;
    let total: i128 = 365 * (year as i128 - 1970) + leaps + days_before_month_of(
        year,
        month,
    ) as i128 + day as i128 - 1;
    assert(leaps_until(1969) == 477);
    if total <= i64::MAX as i128 {
        Some(total as i64)
    } else {
        None
    }
}

// ---------------------------------------------------------------------------
// Timestamps
// ---------------------------------------------------------------------------

/// Three numbers with a separator between them.
pub open spec fn three_numbers(s: Seq<char>, sep: char) -> Option<(i64, i64, i64)> {
    let a = first_place(s, sep);
    let rest = s.skip(a + 1);
    let b = first_place(rest, sep);
    if a >= s.len() || b >= rest.len() {
        None
    } else {
        match (parse_i64(s.take(a)), parse_i64(rest.take(b)), parse_i64(rest.skip(b + 1))) {
            (Some(x), Some(y), Some(z)) => Some((x, y, z)),
            _ => None,
        }
    }
}

/// The seconds from the start of 1970 to a date and a time of day.
pub open spec fn second_number(date: (i64, i64, i64), time: (i64, i64, i64)) -> int {
    day_number(date.0 as int, date.1 as int, date.2 as int) * 86400 + time.0 * 3600 + time.1 * 60
        + time.2
}

/// The time that a timestamp such as `2024-01-15T10:30:45.123Z` tells, in seconds since the
/// start of 1970: by the date before the `T` and the eight characters after it. What follows
/// them, fractions of a second and the offset from UTC, does not count.
pub open spec fn timestamp(s: Seq<char>) -> Option<u64> {
    let t = first_place(s, 'T');
    let rest = s.skip(t + 1);
    if t >= s.len() || rest.len() < 8 {
        None
    } else {
        match (three_numbers(s.take(t), '-'), three_numbers(rest.take(8), ':')) {
            (Some(date), Some(time)) => if is_date(date.0 as int, date.1 as int, date.2 as int)
                && day_number(date.0 as int, date.1 as int, date.2 as int) <= i64::MAX && 0
                <= second_number(date, time) <= i64::MAX {
                Some(second_number(date, time) as u64)
            } else {
                None
            },
            _ => None,
        }
    }
}

fn place_in(chars: &Vec<char>, from: usize, to: usize, sep: char) -> (place: usize)
    requires
        from <= to <= chars@.len(),
    ensures
        from <= place <= to,
        place - from == first_place(chars@.subrange(from as int, to as int), sep),
{
    let ghost s = chars@.subrange(from as int, to as int);
    let mut i: usize = from;
    while i < to && chars[i] != sep
        invariant
            from <= i <= to <= chars@.len(),
            s == chars@.subrange(from as int, to as int),
            forall|j: int| 0 <= j < i - from ==> #[trigger] s[j] != sep,
        decreases to - i,
    {
        assert(s[i - from] == chars@[i as int]);
        i += 1;
    }
    proof {
        if i < to {
            assert(s[i - from] == chars@[i as int]);
        }
        lemma_first_place(s, sep, i - from);
    }
    i
}

fn three_numbers_in(chars: &Vec<char>, from: usize, to: usize, sep: char) -> (numbers: Option<
    (i64, i64, i64),
>)
    requires
        from <= to <= chars@.len(),
    ensures
        numbers == three_numbers(chars@.subrange(from as int, to as int), sep),
{
    let ghost s = chars@.subrange(from as int, to as int);
    let a = place_in(chars, from, to, sep);
    if a == to {
        return None;
    }
    let b = place_in(chars, a + 1, to, sep);
    let ghost rest = s.skip(a - from + 1);
    assert(rest =~= chars@.subrange(a + 1, to as int));
    if b == to {
        return None;
    }
    assert(s.take(a - from) =~= chars@.subrange(from as int, a as int));
    assert(rest.take(b - a - 1) =~= chars@.subrange(a + 1, b as int));
    assert(rest.skip(b - a) =~= chars@.subrange(b + 1, to as int));
    match (
        parse_i64_range(chars, from, a),
        parse_i64_range(chars, a + 1, b),
        parse_i64_range(chars, b + 1, to),
    ) {
        (Some(x), Some(y), Some(z)) => Some((x, y, z)),
        _ => None,
    }
}

/// The time that a timestamp tells, in seconds since the start of 1970.
pub fn parse_rfc3339(s: &str) -> (seconds: Option<u64>)
    ensures
        seconds == timestamp(s@),
{
    let chars = chars_of(s);
    let t = first_place_of(&chars, 'T');
    if t == chars.len() {
        return None;
    }
    let len: usize = chars.len();
    if len - t - 1 < 8 {
        return None;
    }
    assert(s@.take(t as int) =~= chars@.subrange(0, t as int));
    assert(s@.skip(t + 1).take(8) =~= chars@.subrange(t + 1, t + 9));
    let date = match three_numbers_in(&chars, 0, t, '-') {
        Some(date) => date,
        None => {
            return None;
        },
    };
    let time = match three_numbers_in(&chars, t + 1, t + 9, ':') {
        Some(time) => time,
        None => {
            return None;
        },
    };
    let days = match days_since_unix_epoch(date.0, date.1, date.2) {
        Some(days) => days,
        None => {
            return None;
        },
    };
    let total: i128 = days as i128 * 86400 + time.0 as i128 * 3600 + time.1 as i128 * 60
        + time.2 as i128;
    if 0 <= total && total <= i64::MAX as i128 {
        Some(total as u64)
    } else {
        None
    }
}

// ---------------------------------------------------------------------------
// Laws
// ---------------------------------------------------------------------------

/// The number of days until a year, without counting year by year.
pub proof fn law_days_before_year(year: int)
    requires
        year >= 1970,
    ensures
        days_before_year(year) == 365 * (year - 1970) + ((year - 1) / 4 - (year - 1) / 100 + (year
            - 1) / 400) - 477,
{
    lemma_days_before_year(year);
}

/// A year is as long as its months together, so that the first day of the next year comes
/// right after the last of December.
pub proof fn law_months_make_a_year(year: int)
    requires
        year >= 1970,
    ensures
        days_before_month(year, 12) + month_length(year, 12) == year_length(year),
        day_number(year + 1, 1, 1) == day_number(year, 12, 31) + 1,
{
    reveal_with_fuel(days_before_month, 13);
}

/// The first day of a month comes right after the last day of the month before.
pub proof fn law_next_month(year: int, month: int)
    requires
        year >= 1970,
        1 <= month < 12,
    ensures
        day_number(year, month + 1, 1) == day_number(year, month, month_length(year, month)) + 1,
{
}

/// A later date has a larger number.
pub proof fn law_later_dates(
    earlier: (int, int, int),
    later: (int, int, int),
)
    requires
        is_date(earlier.0, earlier.1, earlier.2),
        is_date(later.0, later.1, later.2),
        earlier.2 <= month_length(earlier.0, earlier.1),
        later.2 <= month_length(later.0, later.1),
        earlier.0 < later.0 || (earlier.0 == later.0 && (earlier.1 < later.1 || (earlier.1
            == later.1 && earlier.2 < later.2))),
    ensures
        day_number(earlier.0, earlier.1, earlier.2) < day_number(later.0, later.1, later.2),
{
    if earlier.0 < later.0 {
        lemma_years_grow(earlier.0 + 1, later.0);
        lemma_months_grow(earlier.0, earlier.1, 12);
        law_months_make_a_year(earlier.0);
        lemma_months_grow(later.0, 1, later.1);
        if earlier.1 < 12 {
            lemma_months_grow(earlier.0, earlier.1 + 1, 12);
        }
    } else if earlier.1 < later.1 {
        lemma_months_grow(earlier.0, earlier.1 + 1, later.1);
    }
}

proof fn lemma_years_grow(a: int, b: int)
    requires
        1970 <= a <= b,
    ensures
        days_before_year(a) <= days_before_year(b),
    decreases b - a,
{
    if a < b {
        lemma_years_grow(a, b - 1);
    }
}

proof fn lemma_months_grow(year: int, a: int, b: int)
    requires
        1 <= a <= b <= 12,
    ensures
        days_before_month(year, a) <= days_before_month(year, b),
    decreases b - a,
{
    if a < b {
        lemma_months_grow(year, a, b - 1);
    }
}

/// What follows the seconds of a timestamp, such as fractions and an offset, is ignored.
pub proof fn law_suffix_is_ignored(s: Seq<char>, a: Seq<char>, b: Seq<char>)
    requires
        first_place(s, 'T') + 9 == s.len(),
    ensures
        timestamp(s + a) == timestamp(s + b),
{
    let t = first_place(s, 'T');
    lemma_first_place_is_first(s, 'T');
    lemma_first_place(s + a, 'T', t);
    lemma_first_place(s + b, 'T', t);
    assert((s + a).take(t) =~= (s + b).take(t));
    assert((s + a).skip(t + 1).take(8) =~= (s + b).skip(t + 1).take(8));
}

proof fn lemma_first_place_is_first(s: Seq<char>, sep: char)
    ensures
        0 <= first_place(s, sep) <= s.len(),
        first_place(s, sep) < s.len() ==> s[first_place(s, sep)] == sep,
        forall|j: int| 0 <= j < first_place(s, sep) ==> s[j] != sep,
    decreases s.len(),
{
    if s.len() > 0 && s[0] != sep {
        let rest = s.drop_first();
        lemma_first_place_is_first(rest, sep);
        assert forall|j: int| 0 <= j < first_place(s, sep) implies s[j] != sep by {
            if j > 0 {
                assert(s[j] == rest[j - 1]);
            }
        }
    }
}

/// A number below one hundred, written with two digits.
pub open spec fn two_digits(n: int) -> Seq<char> {
    seq![digit_char((n / 10) as nat), digit_char((n % 10) as nat)]
}

/// A number below ten thousand, written with four digits.
pub open spec fn four_digits(n: int) -> Seq<char> {
    two_digits(n / 100) + two_digits(n % 100)
}

/// A date and a time of day, written as RFC 3339 has it, up to the seconds.
pub open spec fn written(date: (i64, i64, i64), time: (i64, i64, i64)) -> Seq<char> {
    four_digits(date.0 as int) + seq!['-'] + two_digits(date.1 as int) + seq!['-'] + two_digits(
        date.2 as int,
    ) + seq!['T'] + two_digits(time.0 as int) + seq![':'] + two_digits(time.1 as int) + seq![':']
        + two_digits(time.2 as int)
}

/// Every date with a four-digit year from 1970 on, and every time of day, is read back as it
/// was written, whatever follows the seconds.
pub proof fn law_written_timestamp_is_read(
    date: (i64, i64, i64),
    time: (i64, i64, i64),
    suffix: Seq<char>,
)
    requires
        is_date(date.0 as int, date.1 as int, date.2 as int),
        date.0 <= 9999,
        0 <= time.0 <= 99,
        0 <= time.1 <= 99,
        0 <= time.2 <= 99,
    ensures
        timestamp(written(date, time) + suffix) == Some(second_number(date, time) as u64),
{
    let s = written(date, time) + suffix;
    let year = four_digits(date.0 as int);
    lemma_digits_read(date.0 as int);
    lemma_digits_read(date.1 as int);
    lemma_digits_read(date.2 as int);
    lemma_digits_read(time.0 as int);
    lemma_digits_read(time.1 as int);
    lemma_digits_read(time.2 as int);
    assert(s[10] == 'T');
    lemma_first_place(s, 'T', 10);
    let day = s.take(10);
    assert(day =~= year + seq!['-'] + two_digits(date.1 as int) + seq!['-'] + two_digits(
        date.2 as int,
    ));
    lemma_split(year, two_digits(date.1 as int), two_digits(date.2 as int), '-');
    let hour = s.skip(11).take(8);
    assert(hour =~= two_digits(time.0 as int) + seq![':'] + two_digits(time.1 as int) + seq![':']
        + two_digits(time.2 as int));
    lemma_split(
        two_digits(time.0 as int),
        two_digits(time.1 as int),
        two_digits(time.2 as int),
        ':',
    );
    law_days_before_year(date.0 as int);
    lemma_months_grow(date.0 as int, 1, date.1 as int);
    lemma_months_grow(date.0 as int, date.1 as int, 12);
    law_months_make_a_year(date.0 as int);
}

/// Digits are neither separators nor signs, and are read as the number that they write.
proof fn lemma_digits_read(n: int)
    requires
        0 <= n <= 9999,
    ensures
        n <= 99 ==> parse_i64(two_digits(n)) == Some(n as i64),
        n <= 99 ==> all_digits(two_digits(n)),
        parse_i64(four_digits(n)) == Some(n as i64),
        all_digits(four_digits(n)),
{
    reveal_with_fuel(digits_value, 5);
    let two = two_digits(n);
    if n <= 99 {
        assert(two.drop_last() =~= seq![two[0]]);
        assert(two.drop_last().drop_last() =~= Seq::<char>::empty());
        assert(digits_value(two) == n);
    }
    let four = four_digits(n);
    assert(four =~= seq![four[0], four[1], four[2], four[3]]);
    assert(four.drop_last() =~= seq![four[0], four[1], four[2]]);
    assert(four.drop_last().drop_last() =~= seq![four[0], four[1]]);
    assert(four.drop_last().drop_last().drop_last() =~= seq![four[0]]);
    assert(four.drop_last().drop_last().drop_last().drop_last() =~= Seq::<char>::empty());
    assert(digits_value(four) == n);
}

/// Three numbers in digits are found between their separators.
proof fn lemma_split(a: Seq<char>, b: Seq<char>, c: Seq<char>, sep: char)
    requires
        all_digits(a),
        all_digits(b),
        parse_i64(a) is Some,
        parse_i64(b) is Some,
        parse_i64(c) is Some,
        sep == '-' || sep == ':',
    ensures
        three_numbers(a + seq![sep] + b + seq![sep] + c, sep) == Some(
            (parse_i64(a)->0, parse_i64(b)->0, parse_i64(c)->0),
        ),
{
    let s = a + seq![sep] + b + seq![sep] + c;
    assert forall|j: int| 0 <= j < a.len() implies s[j] != sep by {
        assert(is_digit(a[j]));
    }
    lemma_first_place(s, sep, a.len() as int);
    let rest = s.skip(a.len() as int + 1);
    assert(rest =~= b + seq![sep] + c);
    assert forall|j: int| 0 <= j < b.len() implies rest[j] != sep by {
        assert(is_digit(b[j]));
    }
    lemma_first_place(rest, sep, b.len() as int);
    assert(s.take(a.len() as int) =~= a);
    assert(rest.take(b.len() as int) =~= b);
    assert(rest.skip(b.len() as int + 1) =~= c);
}

/// The number of days until a month, without counting month by month: the lengths of the months
/// from March on repeat every five months.
pub proof fn law_days_before_month(year: int, month: int)
    requires
        1 <= month <= 12,
    ensures
        month <= 2 ==> days_before_month(year, month) == 31 * (month - 1),
        month > 2 ==> days_before_month(year, month) == (153 * (month - 3) + 2) / 5 + 59 + if (year
            % 4 == 0 && year % 100 != 0) || year % 400 == 0 {
            1int
        } else {
            0int
        },
{
    reveal_with_fuel(days_before_month, 13);
}

/// A year is a leap year exactly when it has one day more than others; and the leap years come
/// back every four hundred years.
pub proof fn law_leap_years(year: int)
    ensures
        leap(year + 400) == leap(year),
        leap(year) ==> year % 4 == 0,
        year % 4 == 0 && year % 100 != 0 ==> leap(year),
        leap(year) && year % 100 == 0 ==> year % 400 == 0,
        year % 400 == 0 ==> leap(year),
        year >= 1970 ==> (leap(year) <==> days_before_year(year + 1) - days_before_year(year) == 366),
{
}

/// A date is counted by its day, month and year: the next day is one more, and the first day of 1970
/// is day zero.
pub proof fn law_days_are_counted(year: int, month: int, day: int)
    ensures
        day_number(year, month, day + 1) == day_number(year, month, day) + 1,
        day_number(1970, 1, 1) == 0,
        is_date(year, month, day) <==> {
            &&& year >= 1970
            &&& month >= 1
            &&& month <= 12
            &&& day >= 1
            &&& day <= 31
        },
{
}

/// Sixty seconds make a minute, sixty minutes an hour, and twenty-four hours a day; time is counted
/// from the start of 1970.
pub proof fn law_time_is_counted(date: (i64, i64, i64), hour: i64, minute: i64, second: i64)
    requires
        0 <= hour < 1000,
        0 <= minute < 1000,
        0 <= second < 1000,
        date.2 < i64::MAX,
    ensures
        second_number((1970, 1, 1), (0, 0, 0)) == 0,
        second_number(date, (hour, minute, (second + 1) as i64)) == second_number(
            date,
            (hour, minute, second),
        ) + 1,
        second_number(date, (hour, minute, (second + 60) as i64)) == second_number(
            date,
            (hour, (minute + 1) as i64, second),
        ),
        second_number(date, (hour, (minute + 60) as i64, second)) == second_number(
            date,
            ((hour + 1) as i64, minute, second),
        ),
        second_number(date, ((hour + 24) as i64, minute, second)) == second_number(
            (date.0, date.1, (date.2 + 1) as i64),
            (hour, minute, second),
        ),
{
}

/// What is written for no date from 1970 on is not read.
pub proof fn law_no_date_is_not_read(
    date: (i64, i64, i64),
    time: (i64, i64, i64),
    suffix: Seq<char>,
)
    requires
        0 <= date.0 <= 9999,
        0 <= date.1 <= 99,
        0 <= date.2 <= 99,
        0 <= time.0 <= 99,
        0 <= time.1 <= 99,
        0 <= time.2 <= 99,
        date.0 < 1970 || date.1 < 1 || date.1 > 12 || date.2 < 1 || date.2 > 31,
    ensures
        timestamp(written(date, time) + suffix) is None,
{
    let s = written(date, time) + suffix;
    let year = four_digits(date.0 as int);
    lemma_digits_read(date.0 as int);
    lemma_digits_read(date.1 as int);
    lemma_digits_read(date.2 as int);
    assert(s[10] == 'T');
    lemma_digits_read(time.0 as int);
    lemma_first_place(s, 'T', 10);
    assert(s.take(10) =~= year + seq!['-'] + two_digits(date.1 as int) + seq!['-'] + two_digits(
        date.2 as int,
    ));
    lemma_split(year, two_digits(date.1 as int), two_digits(date.2 as int), '-');
}

/// A text without a `T`, or with fewer than eight characters after it, tells no time.
pub proof fn law_short_texts_tell_no_time(s: Seq<char>)
    requires
        !s.contains('T') || exists|i: int|
            0 <= i < s.len() && #[trigger] s[i] == 'T' && s.len() < i + 9 && !s.take(i).contains('T'),
    ensures
        timestamp(s) is None,
{
    lemma_first_place_is_first(s, 'T');
    let t = first_place(s, 'T');
    if t < s.len() {
        assert(s[t] == 'T');
        assert(s.contains(s[t]));
        let i = choose|i: int|
            0 <= i < s.len() && #[trigger] s[i] == 'T' && s.len() < i + 9 && !s.take(i).contains('T');
        if t < i {
            assert(s.take(i)[t] == 'T');
            assert(s.take(i).contains('T'));
        }
    }
}

/// Three numbers are found between two separators, where the first two hold none; they are read as
/// such, or not at all.
proof fn lemma_three_numbers(a: Seq<char>, b: Seq<char>, c: Seq<char>, sep: char)
    requires
        !a.contains(sep),
        !b.contains(sep),
    ensures
        three_numbers(a + seq![sep] + b + seq![sep] + c, sep) == match (
            parse_i64(a),
            parse_i64(b),
            parse_i64(c),
        ) {
            (Some(x), Some(y), Some(z)) => Some((x, y, z)),
            _ => None,
        },
{
    let s = a + seq![sep] + b + seq![sep] + c;
    assert forall|j: int| 0 <= j < a.len() implies s[j] != sep by {
        assert(a.contains(a[j]));
    }
    lemma_first_place(s, sep, a.len() as int);
    let rest = s.skip(a.len() as int + 1);
    assert(rest =~= b + seq![sep] + c);
    assert forall|j: int| 0 <= j < b.len() implies rest[j] != sep by {
        assert(b.contains(b[j]));
    }
    lemma_first_place(rest, sep, b.len() as int);
    assert(s.take(a.len() as int) =~= a);
    assert(rest.take(b.len() as int) =~= b);
    assert(rest.skip(b.len() as int + 1) =~= c);
}

/// The parts of a date and of a time of day, with their separators.
pub open spec fn put_together(
    date: (Seq<char>, Seq<char>, Seq<char>),
    time: (Seq<char>, Seq<char>, Seq<char>),
) -> Seq<char> {
    date.0 + seq!['-'] + date.1 + seq!['-'] + date.2 + seq!['T'] + time.0 + seq![':'] + time.1
        + seq![':'] + time.2
}

/// Parts of a date and of a time of day: the separators between them do not occur in them, and the
/// time takes eight characters.
pub open spec fn are_parts(
    date: (Seq<char>, Seq<char>, Seq<char>),
    time: (Seq<char>, Seq<char>, Seq<char>),
) -> bool {
    &&& !date.0.contains('-') && !date.1.contains('-')
    &&& !date.0.contains('T') && !date.1.contains('T') && !date.2.contains('T')
    &&& !time.0.contains(':') && !time.1.contains(':')
    &&& time.0.len() + time.1.len() + time.2.len() == 6
}

/// A timestamp is read by its six numbers, whatever follows them: as the seconds from the start of
/// 1970 to the date and the time of day, where all six are numbers, the first three are a date from
/// 1970 on, and the seconds can be counted; and not at all otherwise.
pub proof fn law_timestamp_by_its_parts(
    date: (Seq<char>, Seq<char>, Seq<char>),
    time: (Seq<char>, Seq<char>, Seq<char>),
    suffix: Seq<char>,
)
    requires
        are_parts(date, time),
    ensures
        timestamp(put_together(date, time) + suffix) == match (
            (parse_i64(date.0), parse_i64(date.1), parse_i64(date.2)),
            (parse_i64(time.0), parse_i64(time.1), parse_i64(time.2)),
        ) {
            ((Some(y), Some(mo), Some(d)), (Some(h), Some(mi), Some(s))) => {
                let seconds = second_number((y, mo, d), (h, mi, s));
                if y >= 1970 && 1 <= mo && mo <= 12 && 1 <= d && d <= 31 && day_number(
                    y as int,
                    mo as int,
                    d as int,
                ) <= i64::MAX && 0 <= seconds <= i64::MAX {
                    Some(seconds as u64)
                } else {
                    None
                }
            },
            _ => None,
        },
{
    let s = put_together(date, time) + suffix;
    let day = date.0 + seq!['-'] + date.1 + seq!['-'] + date.2;
    let hour = time.0 + seq![':'] + time.1 + seq![':'] + time.2;
    assert(s =~= day + seq!['T'] + hour + suffix);
    let t = day.len() as int;
    assert forall|j: int| 0 <= j < t implies s[j] != 'T' by {
        let a = date.0.len();
        let b = date.1.len();
        if j < a {
            assert(s[j] == date.0[j]);
            assert(date.0.contains(date.0[j]));
        } else if a < j && j < a + 1 + b {
            assert(s[j] == date.1[j - a - 1]);
            assert(date.1.contains(date.1[j - a - 1]));
        } else if a + 1 + b < j {
            assert(s[j] == date.2[j - a - b - 2]);
            assert(date.2.contains(date.2[j - a - b - 2]));
        }
    }
    assert(s[t] == 'T');
    lemma_first_place(s, 'T', t);
    assert(s.take(t) =~= day);
    assert(hour.len() == 8);
    assert(s.skip(t + 1).take(8) =~= hour);
    lemma_three_numbers(date.0, date.1, date.2, '-');
    lemma_three_numbers(time.0, time.1, time.2, ':');
}

/// Whatever is read as a timestamp is made of six such numbers.
pub proof fn law_what_is_read_has_six_parts(s: Seq<char>) -> (parts: (
    (Seq<char>, Seq<char>, Seq<char>),
    (Seq<char>, Seq<char>, Seq<char>),
    Seq<char>,
))
    requires
        timestamp(s) is Some,
    ensures
        are_parts(parts.0, parts.1),
        s == put_together(parts.0, parts.1) + parts.2,
{
    let t = first_place(s, 'T');
    lemma_first_place_is_first(s, 'T');
    let day = s.take(t);
    let rest = s.skip(t + 1);
    let hour = rest.take(8);
    let date = lemma_three_parts(day, '-');
    let time = lemma_three_parts(hour, ':');
    let suffix = rest.skip(8);
    assert forall|c: Seq<char>| c == date.0 || c == date.1 || c == date.2 implies !(
    #[trigger] c.contains('T')) by {
        if c.contains('T') {
            let i = choose|i: int| 0 <= i < c.len() && c[i] == 'T';
            let j = if c == date.0 {
                i
            } else if c == date.1 {
                date.0.len() + 1 + i
            } else {
                date.0.len() + 1 + date.1.len() + 1 + i
            };
            assert(day[j] == 'T');
            assert(s[j] == 'T');
        }
    }
    assert(!date.0.contains('T') && !date.1.contains('T') && !date.2.contains('T'));
    assert(s =~= day + seq!['T'] + hour + suffix);
    assert(s =~= put_together(date, time) + suffix);
    (date, time, suffix)
}

proof fn lemma_three_parts(s: Seq<char>, sep: char) -> (parts: (Seq<char>, Seq<char>, Seq<char>))
    requires
        three_numbers(s, sep) is Some,
    ensures
        !parts.0.contains(sep),
        !parts.1.contains(sep),
        s == parts.0 + seq![sep] + parts.1 + seq![sep] + parts.2,
{
    let a = first_place(s, sep);
    let rest = s.skip(a + 1);
    let b = first_place(rest, sep);
    lemma_first_place_is_first(s, sep);
    lemma_first_place_is_first(rest, sep);
    let parts = (s.take(a), rest.take(b), rest.skip(b + 1));
    assert(s =~= parts.0 + seq![sep] + parts.1 + seq![sep] + parts.2);
    parts
}

} // verus!
