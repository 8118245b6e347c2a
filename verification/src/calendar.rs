use vstd::prelude::*;
use chrono::Datelike;

verus! {

/// Earliest year a calendar date can have.
pub const MIN_YEAR: i32 = -262143;

/// Latest year a calendar date can have.
pub const MAX_YEAR: i32 = 262142;

/// Leap years of the Gregorian calendar.
pub open spec fn is_leap_spec(year: int) -> bool {
    (year % 4 == 0 && year % 100 != 0) || year % 400 == 0
}

/// Days of a month of the Gregorian calendar.
pub open spec fn month_length(year: int, month: int) -> int {
    if month == 2 {
        if is_leap_spec(year) {
            29
        } else {
            28
        }
    } else if month == 4 || month == 6 || month == 9 || month == 11 {
        30
    } else {
        31
    }
}

/// Days of the months before `month` in `year`.
pub open spec fn days_before_month(year: int, month: int) -> int
    decreases month,
{
    if month <= 1 {
        0
    } else {
        days_before_month(year, month - 1) + month_length(year, month - 1)
    }
}

/// Days from 1 January of year 1 to the given date, in the Gregorian
/// calendar extended backwards.
pub open spec fn civil_day_number(year: int, month: int, day: int) -> int {
    let y = year - 1;
    365 * y + y / 4 - y / 100 + y / 400 + days_before_month(year, month) + day - 1
}

/// Day of the week, Monday being 0: 1 January of year 1 was a Monday.
pub open spec fn weekday_spec(year: int, month: int, day: int) -> int {
    civil_day_number(year, month, day) % 7
}

/// A date that exists and lies in the supported range of years.
pub open spec fn valid_date(year: int, month: int, day: int) -> bool {
    MIN_YEAR <= year <= MAX_YEAR && 1 <= month <= 12 && 1 <= day <= month_length(year, month)
}

/// `chrono::NaiveDate::from_ymd_opt` followed by `weekday()` and
/// `num_days_from_monday()`: the weekday of a calendar date, Monday being
/// 0, or `None` when the date does not exist or lies outside the years
/// that chrono supports. The contract states chrono's documented
/// behaviour: the proleptic Gregorian calendar, in which 1 January of
/// year 1 is a Monday.
#[verifier::external_body]
fn weekday_from_monday(year: i32, month: u32, day: u32) -> (r: Option<u32>)
    ensures
        r is Some <==> valid_date(year as int, month as int, day as int),
        r matches Some(w) ==> w == weekday_spec(year as int, month as int, day as int),
{
    match chrono::NaiveDate::from_ymd_opt(year, month, day) {
        Some(date) => Some(date.weekday().num_days_from_monday()),
        None => None,
    }
}

pub fn is_leap_year(year: i32) -> (r: bool)
    ensures
        r == is_leap_spec(year as int),
{
    // Shift by a multiple of 400 years, which keeps leap years, so that the
    // remainders are taken of a positive number.
    let shifted: u64 = (year as i64 + 2_147_484_000i64) as u64;
    proof {
        let y = year as int;
        vstd::arithmetic::div_mod::lemma_mod_multiples_vanish(536871000, y, 4);
        vstd::arithmetic::div_mod::lemma_mod_multiples_vanish(21474840, y, 100);
        vstd::arithmetic::div_mod::lemma_mod_multiples_vanish(5368710, y, 400);
        assert(shifted as int == y + 2147484000);
    }
    (shifted % 4 == 0 && shifted % 100 != 0) || shifted % 400 == 0
}

/// The number of days the calendar grid shows for a month; a month number
/// outside 1..=12 shows 30.
pub open spec fn grid_days_spec(year: int, month: int) -> int {
    if 1 <= month <= 12 {
        month_length(year, month)
    } else {
        30
    }
}

pub fn days_in_month(year: i32, month: u32) -> (r: u32)
    ensures
        r == grid_days_spec(year as int, month as int),
{
    match month {
        1 | 3 | 5 | 7 | 8 | 10 | 12 => 31,
        4 | 6 | 9 | 11 => 30,
        2 => {
            if is_leap_year(year) {
                29
            } else {
                28
            }
        },
        _ => 30,
    }
}

/// What one of the 42 cells of the month grid shows.
#[derive(Clone, Copy, Debug, PartialEq, Eq, Structural)]
pub enum CalendarCell {
    /// Before the first of the month.
    Lead,
    /// A day of the month, highlighted when it is today.
    Day { day: u32, today: bool },
    /// After the last day of the month.
    Trail,
}

/// The month shown by the calendar panel.
#[derive(Clone, Copy, Debug, PartialEq, Eq, Structural)]
pub struct MonthView {
    /// Weekday of the first of the month, Monday being 0.
    pub start_weekday: u32,
    pub days: u32,
    /// Today's day of the month, when the view shows the current month.
    pub today: Option<u32>,
}

pub open spec fn month_view_spec(
    view_year: int,
    view_month: int,
    now_year: int,
    now_month: int,
    now_day: u32,
) -> MonthView {
    MonthView {
        start_weekday: if valid_date(view_year, view_month, 1) {
            weekday_spec(view_year, view_month, 1) as u32
        } else {
            0
        },
        days: grid_days_spec(view_year, view_month) as u32,
        today: if view_year == now_year && view_month == now_month {
            Some(now_day)
        } else {
            None
        },
    }
}

pub fn month_view(
    view_year: i32,
    view_month: u32,
    now_year: i32,
    now_month: u32,
    now_day: u32,
) -> (r: MonthView)
    ensures
        r == month_view_spec(
            view_year as int,
            view_month as int,
            now_year as int,
            now_month as int,
            now_day,
        ),
        r.start_weekday < 7,
        r.days <= 31,
{
    let start = match weekday_from_monday(view_year, view_month, 1) {
        Some(w) => w,
        None => 0,
    };
    proof {
        if valid_date(view_year as int, view_month as int, 1) {
            assert(0 <= weekday_spec(view_year as int, view_month as int, 1) < 7);
        }
    }
    let today = if view_year == now_year && view_month == now_month {
        Some(now_day)
    } else {
        None
    };
    MonthView { start_weekday: start, days: days_in_month(view_year, view_month), today }
}

pub open spec fn cell_spec(v: MonthView, slot: int) -> CalendarCell {
    if slot < v.start_weekday {
        CalendarCell::Lead
    } else if slot < v.start_weekday + v.days {
        let day = (slot - v.start_weekday + 1) as u32;
        CalendarCell::Day { day, today: v.today == Some(day) }
    } else {
        CalendarCell::Trail
    }
}

impl MonthView {
    /// What cell `slot` (row * 7 + column) of the grid shows.
    pub fn cell(&self, slot: u32) -> (r: CalendarCell)
        requires
            self.start_weekday < 7,
            self.days <= 31,
        ensures
            r == cell_spec(*self, slot as int),
    {
        if slot < self.start_weekday {
            CalendarCell::Lead
        } else if slot < self.start_weekday + self.days {
            let day = slot - self.start_weekday + 1;
            let today = match self.today {
                Some(t) => t == day,
                None => false,
            };
            CalendarCell::Day { day, today }
        } else {
            CalendarCell::Trail
        }
    }
}

/// The day a cell shows, or 0 for a blank cell.
pub open spec fn cell_day(c: CalendarCell) -> int {
    match c {
        CalendarCell::Day { day, .. } => day as int,
        _ => 0,
    }
}

/// Every day of the month appears exactly once in the grid, at the slot
/// right after the leading blanks, and the six rows of seven cells always
/// hold the whole month.
pub proof fn lemma_grid_holds_month(v: MonthView, day: u32)
    requires
        v.start_weekday < 7,
        v.days <= 31,
        1 <= day <= v.days,
    ensures
        cell_day(cell_spec(v, v.start_weekday + day - 1)) == day,
        v.start_weekday + day - 1 < 42,
        forall|slot: int|
            0 <= slot < 42 && cell_day(#[trigger] cell_spec(v, slot)) == day ==> slot
                == v.start_weekday + day - 1,
        cell_spec(v, v.start_weekday + day - 1) == (CalendarCell::Day {
            day,
            today: v.today == Some(day),
        }),
        forall|slot: int| 0 <= slot < v.start_weekday ==> #[trigger] cell_spec(v, slot) == CalendarCell::Lead,
        forall|slot: int|
            v.start_weekday + v.days <= slot ==> #[trigger] cell_spec(v, slot) == CalendarCell::Trail,
{
}

/// The weekday of a valid date lies in 0..7, and consecutive days have
/// consecutive weekdays.
pub proof fn lemma_weekday_steps(year: int, month: int, day: int)
    requires
        valid_date(year, month, day),
        valid_date(year, month, day + 1),
    ensures
        0 <= weekday_spec(year, month, day) < 7,
        weekday_spec(year, month, day + 1) == (weekday_spec(year, month, day) + 1) % 7,
{
}

/// A month view marks a day as today only when it shows the current month
/// of the current year, and then marks today's day; the rest of the view
/// depends on the month shown alone.
pub proof fn lemma_today_only_in_current_month(
    view_year: int,
    view_month: int,
    now_year: int,
    now_month: int,
    now_day: u32,
    other_year: int,
    other_month: int,
    other_day: u32,
)
    ensures
        (month_view_spec(view_year, view_month, now_year, now_month, now_day).today is Some) <==> (
        view_year == now_year && view_month == now_month),
        view_year == now_year && view_month == now_month ==> month_view_spec(
            view_year,
            view_month,
            now_year,
            now_month,
            now_day,
        ).today == Some(now_day),
        month_view_spec(view_year, view_month, now_year, now_month, now_day).start_weekday
            == month_view_spec(view_year, view_month, other_year, other_month, other_day).start_weekday,
        month_view_spec(view_year, view_month, now_year, now_month, now_day).days
            == month_view_spec(view_year, view_month, other_year, other_month, other_day).days,
{
}

/// Within a year, a month starts on the weekday that follows the last day
/// of the month before: its first weekday is the previous month's first
/// weekday plus that month's length, modulo seven. February has 29 days in
/// a leap year and 28 otherwise; April, June, September and November have
/// 30, the other months 31.
pub proof fn lemma_months_follow_each_other(year: int, month: int, now_year: int, now_month: int, now_day: u32)
    requires
        MIN_YEAR <= year <= MAX_YEAR,
        1 <= month < 12,
    ensures
        ({
            let v = month_view_spec(year, month, now_year, now_month, now_day);
            let w = month_view_spec(year, month + 1, now_year, now_month, now_day);
            w.start_weekday == (v.start_weekday + v.days) % 7
        }),
        month_view_spec(year, 2, now_year, now_month, now_day).days == if (year % 4 == 0 && year
            % 100 != 0) || year % 400 == 0 {
            29u32
        } else {
            28u32
        },
        (month == 4 || month == 6 || month == 9 || month == 11) ==> month_view_spec(
            year,
            month,
            now_year,
            now_month,
            now_day,
        ).days == 30,
        (month == 1 || month == 3 || month == 5 || month == 7 || month == 8 || month == 10)
            ==> month_view_spec(year, month, now_year, now_month, now_day).days == 31,
{
    let x = civil_day_number(year, month, 1);
    let l = month_length(year, month);
    assert(civil_day_number(year, month + 1, 1) == x + l);
    vstd::arithmetic::div_mod::lemma_add_mod_noop(x, l, 7);
    vstd::arithmetic::div_mod::lemma_add_mod_noop(x % 7, l, 7);
    vstd::arithmetic::div_mod::lemma_mod_twice(x, 7);
    assert(valid_date(year, month, 1));
    assert(valid_date(year, month + 1, 1));
}

/// The short weekday names heading the grid: the language bundle's list
/// when it has all seven, else the Spanish initials.
pub fn day_headers(bundle: Vec<String>) -> (r: Vec<String>)
    ensures
        bundle@.len() == 7 ==> r@ == bundle@,
        bundle@.len() != 7 ==> r@.len() == 7 && r@[0]@ == "L"@ && r@[1]@ == "M"@ && r@[2]@
            == "M"@ && r@[3]@ == "J"@ && r@[4]@ == "V"@ && r@[5]@ == "S"@ && r@[6]@ == "D"@,
{
    if bundle.len() == 7 {
        bundle
    } else {
        let mut v: Vec<String> = Vec::new();
        v.push(String::from_str("L"));
        v.push(String::from_str("M"));
        v.push(String::from_str("M"));
        v.push(String::from_str("J"));
        v.push(String::from_str("V"));
        v.push(String::from_str("S"));
        v.push(String::from_str("D"));
        v
    }
}

} // verus!
