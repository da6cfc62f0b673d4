use vstd::prelude::*;

verus! {

/// Seconds in one day.
pub const SECS_PER_DAY: u64 = 86400;

/// First year that a `DateTime` of this clock holds.
pub const MIN_YEAR: u16 = 1970;

/// Last year that a `DateTime` of this clock holds.
pub const MAX_YEAR: u16 = 2105;

#[derive(Debug, Clone, Copy, PartialEq, Eq, Structural)]
pub enum DayOfWeek {
    Monday,
    Tuesday,
    Wednesday,
    Thursday,
    Friday,
    Saturday,
    Sunday,
}

/// The weekday with index `i` (Monday is 0) modulo 7.
pub open spec fn weekday_of_index(i: int) -> DayOfWeek {
    let k = i % 7;
    if k == 0 {
        DayOfWeek::Monday
    } else if k == 1 {
        DayOfWeek::Tuesday
    } else if k == 2 {
        DayOfWeek::Wednesday
    } else if k == 3 {
        DayOfWeek::Thursday
    } else if k == 4 {
        DayOfWeek::Friday
    } else if k == 5 {
        DayOfWeek::Saturday
    } else {
        DayOfWeek::Sunday
    }
}

/// The weekday of the day that holds second `e` of the epoch
/// (1970-01-01 was a Thursday).
pub open spec fn weekday_of_epoch(e: int) -> DayOfWeek {
    weekday_of_index(e / 86400 + 3)
}

impl DayOfWeek {
    /// Name shown in the header line.
    pub fn name(&self) -> (r: &'static str) {
        match self {
            DayOfWeek::Monday => "Monday",
            DayOfWeek::Tuesday => "Tuesday",
            DayOfWeek::Wednesday => "Wednesday",
            DayOfWeek::Thursday => "Thursday",
            DayOfWeek::Friday => "Friday",
            DayOfWeek::Saturday => "Saturday",
            DayOfWeek::Sunday => "Sunday",
        }
    }
}

fn weekday_from_index(i: u64) -> (r: DayOfWeek)
    ensures
        r == weekday_of_index(i as int),
{
    let k: u64 = i % 7;
    if k == 0 {
        DayOfWeek::Monday
    } else if k == 1 {
        DayOfWeek::Tuesday
    } else if k == 2 {
        DayOfWeek::Wednesday
    } else if k == 3 {
        DayOfWeek::Thursday
    } else if k == 4 {
        DayOfWeek::Friday
    } else if k == 5 {
        DayOfWeek::Saturday
    } else {
        DayOfWeek::Sunday
    }
}

pub open spec fn is_leap(y: int) -> bool {
    (y % 4 == 0 && y % 100 != 0) || y % 400 == 0
}

pub open spec fn year_len(y: int) -> int {
    if is_leap(y) {
        366
    } else {
        365
    }
}

/// Days from 1970-01-01 to the first day of year `y`.
pub open spec fn days_before_year(y: int) -> int
    decreases y - 1970,
{
    if y <= 1970 {
        0
    } else {
        days_before_year(y - 1) + year_len(y - 1)
    }
}

/// Length of month `m` (1 to 12) of year `y`.
pub open spec fn month_len(y: int, m: int) -> int {
    if m == 2 {
        if is_leap(y) {
            29
        } else {
            28
        }
    } else if m == 4 || m == 6 || m == 9 || m == 11 {
        30
    } else {
        31
    }
}

/// Days from the first of the year to the first of month `m`.
pub open spec fn days_before_month(y: int, m: int) -> int
    decreases m,
{
    if m <= 1 {
        0
    } else {
        days_before_month(y, m - 1) + month_len(y, m - 1)
    }
}

/// A calendar time to the second. The fields are kept one by one: a day of 31
/// is accepted in every month, and the epoch count carries it into the next.
#[derive(Debug, Clone, Copy, PartialEq, Eq, Structural)]
pub struct DateTime {
    pub year: u16,
    pub month: u8,
    pub day: u8,
    pub hour: u8,
    pub min: u8,
    pub sec: u8,
    pub day_of_week: DayOfWeek,
}

impl DateTime {
    /// Every field lies in its range: year 1970 to 2105, month 1 to 12,
    /// day 1 to 31, hour 0 to 23, minute and second 0 to 59.
    pub open spec fn fields_in_range(self) -> bool {
        &&& MIN_YEAR <= self.year <= MAX_YEAR
        &&& 1 <= self.month <= 12
        &&& 1 <= self.day <= 31
        &&& self.hour < 24
        &&& self.min < 60
        &&& self.sec < 60
    }

    /// Seconds since 1970-01-01 00:00:00 that the fields stand for.
    pub open spec fn epoch(self) -> int {
        (days_before_year(self.year as int) + days_before_month(self.year as int, self.month as int)
            + self.day - 1) * 86400 + self.hour * 3600 + self.min * 60 + self.sec
    }

    /// What `to_epoch` returns: the epoch count where the fields are in range.
    pub open spec fn epoch_opt(self) -> Option<int> {
        if self.fields_in_range() {
            Some(self.epoch())
        } else {
            None
        }
    }

    /// Midnight: 00:00:00 on any day.
    pub open spec fn is_midnight(self) -> bool {
        self.hour == 0 && self.min == 0 && self.sec == 0
    }
}

fn is_leap_year(y: u16) -> (r: bool)
    ensures
        r == is_leap(y as int),
{
    (y % 4 == 0 && y % 100 != 0) || y % 400 == 0
}

fn year_length(y: u16) -> (r: u64)
    ensures
        r == year_len(y as int),
{
    if is_leap_year(y) {
        366
    } else {
        365
    }
}

fn month_length(y: u16, m: u8) -> (r: u64)
    ensures
        r == month_len(y as int, m as int),
{
    if m == 2 {
        if is_leap_year(y) {
            29
        } else {
            28
        }
    } else if m == 4 || m == 6 || m == 9 || m == 11 {
        30
    } else {
        31
    }
}

pub proof fn lemma_days_before_year_bounds(y: int)
    requires
        y >= 1970,
    ensures
        365 * (y - 1970) <= days_before_year(y) <= 366 * (y - 1970),
    decreases y - 1970,
{
    if y > 1970 {
        lemma_days_before_year_bounds(y - 1);
    }
}

proof fn lemma_days_before_year_upper(y: int)
    requires
        y >= 1970,
    ensures
        days_before_year(y) <= 365 * (y - 1970) + (y - 1969) / 4,
    decreases y - 1970,
{
    if y > 1970 {
        lemma_days_before_year_upper(y - 1);
    }
}

/// Every time whose fields are in range has an epoch count that fits in 32
/// bits: the last second of 2105 is below `u32::MAX`.
pub proof fn lemma_epoch_fits(dt: DateTime)
    requires
        dt.fields_in_range(),
    ensures
        0 <= dt.epoch() <= u32::MAX,
{
    lemma_days_before_year_upper(dt.year as int);
    lemma_days_before_year_bounds(dt.year as int);
    lemma_days_before_month_bounds(dt.year as int, dt.month as int);
}

proof fn lemma_days_before_year_monotone(a: int, b: int)
    requires
        1970 <= a <= b,
    ensures
        days_before_year(a) <= days_before_year(b),
    decreases b - a,
{
    if a < b {
        lemma_days_before_year_monotone(a, b - 1);
    }
}

proof fn lemma_days_before_month_bounds(y: int, m: int)
    requires
        1 <= m <= 12,
    ensures
        0 <= days_before_month(y, m) <= 31 * (m - 1),
        days_before_month(y, 12) + 31 == year_len(y),
    decreases m,
{
    reveal_with_fuel(days_before_month, 12);
    if m > 1 {
        lemma_days_before_month_bounds(y, m - 1);
    }
}

impl DateTime {
    /// The epoch count of the fields, or `None` where a field is out of its
    /// range (or the count would not fit in 32 bits).
    pub fn to_epoch(&self) -> (r: Option<u32>)
        ensures
            r matches Some(e) ==> self.epoch_opt() == Some(e as int),
            r is None ==> self.epoch_opt() is None,
            r is None <==> !self.fields_in_range(),
    {
        if !(MIN_YEAR <= self.year && self.year <= MAX_YEAR && 1 <= self.month && self.month <= 12
            && 1 <= self.day && self.day <= 31 && self.hour < 24 && self.min < 60 && self.sec
            < 60) {
            return None;
        }
        let mut days: u64 = 0;
        let mut y: u16 = MIN_YEAR;
        while y < self.year
            invariant
                MIN_YEAR <= y <= self.year <= MAX_YEAR,
                days == days_before_year(y as int),
            decreases self.year - y,
        {
            proof {
                lemma_days_before_year_bounds(y as int);
            }
            days = days + year_length(y);
            y = y + 1;
        }
        proof {
            lemma_days_before_year_bounds(y as int);
        }
        let mut m: u8 = 1;
        while m < self.month
            invariant
                1 <= m <= self.month <= 12,
                y == self.year,
                days == days_before_year(y as int) + days_before_month(y as int, m as int),
                days <= 366 * 135 + 31 * (m - 1),
            decreases self.month - m,
        {
            proof {
                lemma_days_before_month_bounds(y as int, m as int);
            }
            days = days + month_length(y, m);
            m = m + 1;
        }
        days = days + self.day as u64 - 1;
        proof {
            lemma_epoch_fits(*self);
        }
        let total: u64 = days * 86400 + self.hour as u64 * 3600 + self.min as u64 * 60
            + self.sec as u64;
        Some(total as u32)
    }

    /// The calendar time of epoch second `epoch`, weekday included. Up to the
    /// last second of 2105 every field is in range; past it the year reads 2106.
    pub fn new(epoch: u32) -> (r: DateTime)
        ensures
            r.epoch() == epoch as int,
            r.day_of_week == weekday_of_epoch(epoch as int),
            1 <= r.month <= 12,
            1 <= r.day <= 31,
            r.hour < 24,
            r.min < 60,
            r.sec < 60,
            MIN_YEAR <= r.year,
            (epoch as int) < days_before_year(MAX_YEAR as int + 1) * 86400 ==> r.fields_in_range(),
    {
        let total_days: u64 = epoch as u64 / 86400;
        let rem: u64 = epoch as u64 % 86400;
        let mut days: u64 = total_days;
        let mut y: u16 = MIN_YEAR;
        while days >= year_length(y)
            invariant
                MIN_YEAR <= y,
                total_days <= 49711,
                total_days == days_before_year(y as int) + days,
            decreases days,
        {
            proof {
                lemma_days_before_year_bounds(y as int);
                lemma_days_before_year_bounds(y as int + 1);
            }
            days = days - year_length(y);
            y = y + 1;
        }
        proof {
            lemma_days_before_year_bounds(y as int);
            lemma_days_before_month_bounds(y as int, 12);
            if (epoch as int) < days_before_year(MAX_YEAR as int + 1) * 86400 && y > MAX_YEAR {
                lemma_days_before_year_monotone(MAX_YEAR as int + 1, y as int);
            }
        }
        let mut m: u8 = 1;
        while m < 12 && days >= month_length(y, m)
            invariant
                1 <= m <= 12,
                days_before_month(y as int, m as int) + days < year_len(y as int),
                total_days == days_before_year(y as int) + days_before_month(y as int, m as int)
                    + days,
            decreases 12 - m,
        {
            days = days - month_length(y, m);
            m = m + 1;
        }
        proof {
            lemma_days_before_month_bounds(y as int, m as int);
        }
        let hour: u64 = rem / 3600;
        let min: u64 = rem % 3600 / 60;
        let sec: u64 = rem % 60;
        assert(rem == hour * 3600 + min * 60 + sec) by (nonlinear_arith)
            requires
                hour == rem / 3600,
                min == rem % 3600 / 60,
                sec == rem % 60,
        ;
        DateTime {
            year: y,
            month: m,
            day: (days + 1) as u8,
            hour: hour as u8,
            min: min as u8,
            sec: sec as u8,
            day_of_week: weekday_from_index(total_days + 3),
        }
    }
}

} // verus!
