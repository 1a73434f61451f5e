//! Calendar facts about the dates in a forecast, and the one call into
//! `chrono` that turns a date into its weekday name.

use vstd::prelude::*;

verus! {

/// Leap years of the proleptic Gregorian calendar (astronomical year numbering).
pub open spec fn is_leap_year(y: int) -> bool {
    y % 4 == 0 && (y % 100 != 0 || y % 400 == 0)
}

pub open spec fn days_in_month(y: int, m: int) -> int {
    if m == 2 {
        if is_leap_year(y) {
            29
        } else {
            28
        }
    } else if m == 4 || m == 6 || m == 9 || m == 11 {
        30
    } else {
        31
    }
}

/// The dates that `chrono::NaiveDate` can hold: years -262143 through 262142
/// and a real month and day of that year.
pub open spec fn date_exists(y: i32, m: u32, d: u32) -> bool {
    &&& -262143 <= y <= 262142
    &&& 1 <= m <= 12
    &&& 1 <= d <= days_in_month(y as int, m as int)
}

/// Month offsets of Sakamoto's weekday method.
pub open spec fn month_offset(m: int) -> int {
    if m == 1 {
        0
    } else if m == 2 {
        3
    } else if m == 3 {
        2
    } else if m == 4 {
        5
    } else if m == 5 {
        0
    } else if m == 6 {
        3
    } else if m == 7 {
        5
    } else if m == 8 {
        1
    } else if m == 9 {
        4
    } else if m == 10 {
        6
    } else if m == 11 {
        2
    } else {
        4
    }
}

/// The day of the week of a proleptic Gregorian date, 0 for Sunday.
pub open spec fn weekday_index(y: int, m: int, d: int) -> int {
    let yy = if m < 3 {
        y - 1
    } else {
        y
    };
    (yy + yy / 4 - yy / 100 + yy / 400 + month_offset(m) + d) % 7
}

/// English three-letter weekday names, Sunday first.
pub open spec fn weekday_abbrev(w: int) -> Seq<char> {
    if w == 0 {
        "Sun"@
    } else if w == 1 {
        "Mon"@
    } else if w == 2 {
        "Tue"@
    } else if w == 3 {
        "Wed"@
    } else if w == 4 {
        "Thu"@
    } else if w == 5 {
        "Fri"@
    } else {
        "Sat"@
    }
}

/// The count of days that `weekday_index` adds for the years before `t`.
spec fn year_shift(t: int) -> int {
    t + t / 4 - t / 100 + t / 400
}

/// From one year to the next the weekday moves by one, and by one more
/// when the later year is a leap year.
proof fn lemma_year_shift_step(y: int)
    ensures
        year_shift(y) - year_shift(y - 1) == if is_leap_year(y) {
            2int
        } else {
            1int
        },
{
    assert(y / 4 - (y - 1) / 4 == if y % 4 == 0 {
        1int
    } else {
        0int
    });
    assert(y / 100 - (y - 1) / 100 == if y % 100 == 0 {
        1int
    } else {
        0int
    });
    assert(y / 400 - (y - 1) / 400 == if y % 400 == 0 {
        1int
    } else {
        0int
    });
    if y % 400 == 0 {
        assert(y % 100 == 0 && y % 4 == 0);
    } else if y % 100 == 0 {
        assert(y % 4 == 0);
    }
}

/// Adding a count of days that is one more than a whole number of weeks
/// moves the weekday by one.
proof fn lemma_one_weekday_later(x: int, c: int)
    requires
        c % 7 == 1,
    ensures
        (x + c) % 7 == (x % 7 + 1) % 7,
{
    assert((x + c) % 7 == (x % 7 + 1) % 7) by (nonlinear_arith)
        requires
            c % 7 == 1,
    ;
}

/// The days that `weekday_index` counts before the first of month `m`.
spec fn month_start(y: int, m: int) -> int {
    (if m < 3 {
        year_shift(y - 1)
    } else {
        year_shift(y)
    }) + month_offset(m)
}

/// From the last day of a month to the first of the next, the count grows
/// by one more than a whole number of weeks.
proof fn lemma_month_end_step(y: int, m: int)
    requires
        1 <= m <= 12,
    ensures
        m < 12 ==> (month_start(y, m + 1) + 1 - (month_start(y, m) + days_in_month(y, m))) % 7
            == 1,
        m == 12 ==> (month_start(y + 1, 1) + 1 - (month_start(y, m) + days_in_month(y, m))) % 7
            == 1,
{
    lemma_year_shift_step(y);
}

/// Weekdays run on without a gap: the day after any date of the calendar
/// (the next day of the month, the first of the next month, or the first
/// of January of the next year) falls one weekday later. 1 January 1970
/// was a Thursday. The seven abbreviations are different from each other.
pub proof fn lemma_weekday_steps(y: int, m: int, d: int)
    requires
        1 <= m <= 12,
        1 <= d <= days_in_month(y, m),
    ensures
        0 <= weekday_index(y, m, d) < 7,
        d < days_in_month(y, m) ==> weekday_index(y, m, d + 1) == (weekday_index(y, m, d) + 1)
            % 7,
        d == days_in_month(y, m) && m < 12 ==> weekday_index(y, m + 1, 1) == (weekday_index(
            y,
            m,
            d,
        ) + 1) % 7,
        d == days_in_month(y, m) && m == 12 ==> weekday_index(y + 1, 1, 1) == (weekday_index(
            y,
            m,
            d,
        ) + 1) % 7,
        weekday_index(1970, 1, 1) == 4,
        weekday_abbrev(4) == "Thu"@,
        forall|a: int, b: int|
            0 <= a < b < 7 ==> #[trigger] weekday_abbrev(a) != #[trigger] weekday_abbrev(b),
{
    let x = month_start(y, m) + d;
    assert(weekday_index(y, m, d) == x % 7);
    if d < days_in_month(y, m) {
        assert(weekday_index(y, m, d + 1) == (x + 1) % 7);
        lemma_one_weekday_later(x, 1);
    } else if m < 12 {
        lemma_month_end_step(y, m);
        let c = month_start(y, m + 1) + 1 - x;
        assert(weekday_index(y, m + 1, 1) == (x + c) % 7);
        lemma_one_weekday_later(x, c);
    } else {
        lemma_month_end_step(y, m);
        let c = month_start(y + 1, 1) + 1 - x;
        assert(weekday_index(y + 1, 1, 1) == (x + c) % 7);
        lemma_one_weekday_later(x, c);
    }
    assert(weekday_index(1970, 1, 1) == (year_shift(1969) + 1) % 7);
    assert(year_shift(1969) == 1969 + 492 - 19 + 4);
    lemma_weekday_names_differ();
}

proof fn lemma_weekday_names_differ()
    ensures
        weekday_abbrev(4) == "Thu"@,
        forall|a: int, b: int|
            0 <= a < b < 7 ==> #[trigger] weekday_abbrev(a) != #[trigger] weekday_abbrev(b),
{
    reveal_strlit("Sun");
    reveal_strlit("Mon");
    reveal_strlit("Tue");
    reveal_strlit("Wed");
    reveal_strlit("Thu");
    reveal_strlit("Fri");
    reveal_strlit("Sat");
    assert("Sun"@[0] == 'S' && "Mon"@[0] == 'M' && "Tue"@[0] == 'T' && "Wed"@[0] == 'W');
    assert("Thu"@[0] == 'T' && "Fri"@[0] == 'F' && "Sat"@[0] == 'S');
    assert("Sun"@[1] == 'u' && "Tue"@[1] == 'u' && "Thu"@[1] == 'h' && "Sat"@[1] == 'a');
}

/// Calls `chrono::NaiveDate::from_ymd_opt` and formats the date it gives
/// with `"%a"`. Trusted: the date exists exactly when `date_exists` holds
/// (chrono's documented range and calendar), and `%a` gives the English
/// abbreviation of its proleptic Gregorian weekday.
#[verifier::external_body]
pub(crate) fn weekday_abbreviation(year: i32, month: u32, day: u32) -> (r: Option<String>)
    ensures
        r is Some <==> date_exists(year, month, day),
        r matches Some(s) ==> s@ == weekday_abbrev(weekday_index(year as int, month as int, day as int)),
{
    match chrono::NaiveDate::from_ymd_opt(year, month, day) {
        Some(date) => Some(date.format("%a").to_string()),
        None => None,
    }
}

} // verus!
