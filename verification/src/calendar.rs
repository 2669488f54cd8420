//! Calendar dates, times of day and timestamps at one-second resolution.
//!
//! Dates follow the proleptic Gregorian calendar, years 1 to 9999. Every
//! executable value of [`Date`] and [`TimeOfDay`] is valid by construction;
//! contracts speak of their views, [`CivilDate`] and [`ClockTime`].

use vstd::prelude::*;

verus! {

/// Whether `year` has 366 days.
pub open spec fn is_leap_year(year: int) -> bool {
    year % 4 == 0 && (year % 100 != 0 || year % 400 == 0)
}

/// The number of days of `year`.
pub open spec fn year_length(year: int) -> int {
    if is_leap_year(year) {
        366
    } else {
        365
    }
}

/// The number of days of `month` in `year`.
pub open spec fn days_in_month(year: int, month: int) -> int {
    if month == 2 {
        if is_leap_year(year) {
            29
        } else {
            28
        }
    } else if month == 4 || month == 6 || month == 9 || month == 11 {
        30
    } else {
        31
    }
}

/// The days of all years from year 1 up to, not including, `year`.
pub open spec fn days_before_year(year: int) -> int
    decreases year,
{
    if year <= 1 {
        0
    } else {
        days_before_year(year - 1) + year_length(year - 1)
    }
}

/// The days of the months of `year` that come before `month`.
pub open spec fn days_before_month(year: int, month: int) -> int
    decreases month,
{
    if month <= 1 {
        0
    } else {
        days_before_month(year, month - 1) + days_in_month(year, month - 1)
    }
}

/// A day of the week.
#[derive(Clone, Copy, Debug, PartialEq, Eq, Structural)]
pub enum Weekday {
    Monday,
    Tuesday,
    Wednesday,
    Thursday,
    Friday,
    Saturday,
    Sunday,
}

impl Weekday {
    /// Monday to Friday.
    pub open spec fn is_working_day(self) -> bool {
        self != Weekday::Saturday && self != Weekday::Sunday
    }

    /// Whether the day is one of Monday to Friday.
    pub fn working_day(&self) -> (r: bool)
        ensures
            r == self.is_working_day(),
    {
        match self {
            Weekday::Saturday => false,
            Weekday::Sunday => false,
            _ => true,
        }
    }
}

/// The weekday that lies `index` days after a Monday; `index` is taken modulo 7.
pub open spec fn weekday_from_index(index: int) -> Weekday {
    let i = index % 7;
    if i == 0 {
        Weekday::Monday
    } else if i == 1 {
        Weekday::Tuesday
    } else if i == 2 {
        Weekday::Wednesday
    } else if i == 3 {
        Weekday::Thursday
    } else if i == 4 {
        Weekday::Friday
    } else if i == 5 {
        Weekday::Saturday
    } else {
        Weekday::Sunday
    }
}

/// A calendar date as three integers: the mathematical model of [`Date`].
pub struct CivilDate {
    pub year: int,
    pub month: int,
    pub day: int,
}

impl CivilDate {
    /// The date exists in the calendar, in a year from 1 to 9999.
    pub open spec fn valid(self) -> bool {
        &&& 1 <= self.year <= 9999
        &&& 1 <= self.month <= 12
        &&& 1 <= self.day <= days_in_month(self.year, self.month)
    }

    /// The number of days from 1 January of year 1 to this date.
    pub open spec fn day_number(self) -> int {
        days_before_year(self.year) + days_before_month(self.year, self.month) + self.day - 1
    }

    /// The day of the week. 1 January of year 1 is a Monday.
    pub open spec fn weekday(self) -> Weekday {
        weekday_from_index(self.day_number())
    }
}

/// A time of day as three integers: the mathematical model of [`TimeOfDay`].
pub struct ClockTime {
    pub hour: int,
    pub minute: int,
    pub second: int,
}

impl ClockTime {
    /// Hours below 24, minutes and seconds below 60.
    pub open spec fn valid(self) -> bool {
        &&& 0 <= self.hour < 24
        &&& 0 <= self.minute < 60
        &&& 0 <= self.second < 60
    }

    /// The seconds that have passed since midnight.
    pub open spec fn second_of_day(self) -> int {
        self.hour * 3600 + self.minute * 60 + self.second
    }
}

/// A date with a time of day: the mathematical model of [`Timestamp`].
pub struct Moment {
    pub date: CivilDate,
    pub time: ClockTime,
}

impl Moment {
    /// The date and the time of day are valid.
    pub open spec fn valid(self) -> bool {
        self.date.valid() && self.time.valid()
    }

    /// The seconds from midnight of 1 January of year 1 to this moment.
    pub open spec fn instant(self) -> int {
        self.date.day_number() * 86400 + self.time.second_of_day()
    }
}

/// `days_before_year` in closed form.
pub proof fn lemma_days_before_year(year: int)
    requires
        1 <= year,
    ensures
        days_before_year(year) == 365 * (year - 1) + (year - 1) / 4 - (year - 1) / 100 + (year
            - 1) / 400,
    decreases year,
{
    if year > 1 {
        lemma_days_before_year(year - 1);
    }
}

/// `days_before_month` is the sum of at most eleven month lengths.
pub proof fn lemma_days_before_month(year: int, month: int)
    requires
        1 <= month <= 12,
    ensures
        days_before_month(year, month) == {
            let feb: int = if is_leap_year(year) {
                29
            } else {
                28
            };
            if month == 1 {
                0
            } else if month == 2 {
                31
            } else if month == 3 {
                31 + feb
            } else if month == 4 {
                62 + feb
            } else if month == 5 {
                92 + feb
            } else if month == 6 {
                123 + feb
            } else if month == 7 {
                153 + feb
            } else if month == 8 {
                184 + feb
            } else if month == 9 {
                215 + feb
            } else if month == 10 {
                245 + feb
            } else if month == 11 {
                276 + feb
            } else {
                306 + feb
            }
        },
    decreases month,
{
    if month > 1 {
        lemma_days_before_month(year, month - 1);
    }
}

impl CivilDate {
    /// Whether this date comes before `other` in the calendar: in an
    /// earlier year, or in the same year in an earlier month, or in the same
    /// month on an earlier day.
    pub open spec fn earlier_than(self, other: CivilDate) -> bool {
        self.year < other.year || (self.year == other.year && (self.month < other.month || (
        self.month == other.month && self.day < other.day)))
    }
}

impl ClockTime {
    /// Whether this time comes before `other` on the clock.
    pub open spec fn earlier_than(self, other: ClockTime) -> bool {
        self.hour < other.hour || (self.hour == other.hour && (self.minute < other.minute || (
        self.minute == other.minute && self.second < other.second)))
    }
}

impl Moment {
    /// Whether this moment comes before `other`: on an earlier date, or on
    /// the same date at an earlier time.
    pub open spec fn earlier_than(self, other: Moment) -> bool {
        self.date.earlier_than(other.date) || (self.date == other.date && self.time.earlier_than(
            other.time,
        ))
    }
}

/// The years up to a later year hold at least the days of the years up to
/// an earlier year and the days of that year.
proof fn lemma_years_add_up(earlier: int, later: int)
    requires
        1 <= earlier < later,
    ensures
        days_before_year(earlier) + year_length(earlier) <= days_before_year(later),
    decreases later,
{
    if earlier + 1 < later {
        lemma_years_add_up(earlier, later - 1);
    }
}

/// The day numbers of valid dates are in the order of the calendar.
pub proof fn lemma_day_numbers_follow_the_calendar(a: CivilDate, b: CivilDate)
    requires
        a.valid(),
        b.valid(),
    ensures
        a.earlier_than(b) <==> a.day_number() < b.day_number(),
        a == b <==> a.day_number() == b.day_number(),
{
    lemma_days_before_month(a.year, a.month);
    lemma_days_before_month(b.year, b.month);
    if a.year < b.year {
        lemma_years_add_up(a.year, b.year);
    } else if b.year < a.year {
        lemma_years_add_up(b.year, a.year);
    }
}

/// The instants of valid moments are in the order of calendar and clock: the
/// timeline that time ranges are measured on is the one that dates and
/// times of day are read on.
pub proof fn lemma_instants_follow_calendar_and_clock(a: Moment, b: Moment)
    requires
        a.valid(),
        b.valid(),
    ensures
        a.earlier_than(b) <==> a.instant() < b.instant(),
        a == b <==> a.instant() == b.instant(),
{
    lemma_day_numbers_follow_the_calendar(a.date, b.date);
}

/// A valid calendar date.
#[derive(Clone, Copy, Debug, PartialEq, Eq)]
pub struct Date {
    year: u16,
    month: u8,
    day: u8,
}

impl View for Date {
    type V = CivilDate;

    closed spec fn view(&self) -> CivilDate {
        CivilDate { year: self.year as int, month: self.month as int, day: self.day as int }
    }
}

/// Whether `year` has 366 days.
pub fn leap_year(year: u16) -> (r: bool)
    ensures
        r == is_leap_year(year as int),
{
    year % 4 == 0 && (year % 100 != 0 || year % 400 == 0)
}

/// The number of days of `month` in `year`.
pub fn month_length(year: u16, month: u8) -> (r: u8)
    ensures
        r == days_in_month(year as int, month as int),
{
    if month == 2 {
        if leap_year(year) {
            29
        } else {
            28
        }
    } else if month == 4 || month == 6 || month == 9 || month == 11 {
        30
    } else {
        31
    }
}

impl Date {
    #[verifier::type_invariant]
    spec fn inv(self) -> bool {
        self@.valid()
    }

    /// The date with the given year, month and day, if the calendar has it.
    pub fn new(year: u16, month: u8, day: u8) -> (r: Option<Date>)
        ensures
            r is Some <==> (CivilDate {
                year: year as int,
                month: month as int,
                day: day as int,
            }).valid(),
            r matches Some(d) ==> d@ == (CivilDate {
                year: year as int,
                month: month as int,
                day: day as int,
            }),
    {
        if year < 1 || year > 9999 || month < 1 || month > 12 || day < 1 {
            return None;
        }
        if day > month_length(year, month) {
            return None;
        }
        Some(Date { year, month, day })
    }

    /// The year, from 1 to 9999.
    pub fn year(&self) -> (r: u16)
        ensures
            r == self@.year,
            self@.valid(),
    {
        proof {
            use_type_invariant(self);
        }
        self.year
    }

    /// The month, from 1 to 12.
    pub fn month(&self) -> (r: u8)
        ensures
            r == self@.month,
            self@.valid(),
    {
        proof {
            use_type_invariant(self);
        }
        self.month
    }

    /// The day of the month, from 1.
    pub fn day(&self) -> (r: u8)
        ensures
            r == self@.day,
            self@.valid(),
    {
        proof {
            use_type_invariant(self);
        }
        self.day
    }

    /// Whether two dates are the same day.
    pub fn same_day(&self, other: &Date) -> (r: bool)
        ensures
            r == (self@ == other@),
    {
        self.year == other.year && self.month == other.month && self.day == other.day
    }

    /// The number of days from 1 January of year 1 to this date.
    pub fn day_number(&self) -> (r: u32)
        ensures
            r == self@.day_number(),
            r < 3652059,
            self@.valid(),
    {
        proof {
            use_type_invariant(self);
            lemma_days_before_year(self.year as int);
            lemma_days_before_month(self.year as int, self.month as int);
        }
        let y: u32 = (self.year - 1) as u32;
        let feb: u32 = if leap_year(self.year) {
            29
        } else {
            28
        };
        let before_month: u32 = if self.month == 1 {
            0
        } else if self.month == 2 {
            31
        } else if self.month == 3 {
            31 + feb
        } else if self.month == 4 {
            62 + feb
        } else if self.month == 5 {
            92 + feb
        } else if self.month == 6 {
            123 + feb
        } else if self.month == 7 {
            153 + feb
        } else if self.month == 8 {
            184 + feb
        } else if self.month == 9 {
            215 + feb
        } else if self.month == 10 {
            245 + feb
        } else if self.month == 11 {
            276 + feb
        } else {
            306 + feb
        };
        365 * y + y / 4 - y / 100 + y / 400 + before_month + (self.day as u32 - 1)
    }

    /// The day of the week.
    pub fn weekday(&self) -> (r: Weekday)
        ensures
            r == self@.weekday(),
    {
        let i: u32 = self.day_number() % 7;
        if i == 0 {
            Weekday::Monday
        } else if i == 1 {
            Weekday::Tuesday
        } else if i == 2 {
            Weekday::Wednesday
        } else if i == 3 {
            Weekday::Thursday
        } else if i == 4 {
            Weekday::Friday
        } else if i == 5 {
            Weekday::Saturday
        } else {
            Weekday::Sunday
        }
    }
}

/// A valid time of day, to the second.
#[derive(Clone, Copy, Debug, PartialEq, Eq)]
pub struct TimeOfDay {
    hour: u8,
    minute: u8,
    second: u8,
}

impl View for TimeOfDay {
    type V = ClockTime;

    closed spec fn view(&self) -> ClockTime {
        ClockTime {
            hour: self.hour as int,
            minute: self.minute as int,
            second: self.second as int,
        }
    }
}

impl TimeOfDay {
    #[verifier::type_invariant]
    spec fn inv(self) -> bool {
        self@.valid()
    }

    /// The time with the given hour, minute and second, if the clock has it.
    pub fn new(hour: u8, minute: u8, second: u8) -> (r: Option<TimeOfDay>)
        ensures
            r is Some <==> (ClockTime {
                hour: hour as int,
                minute: minute as int,
                second: second as int,
            }).valid(),
            r matches Some(t) ==> t@ == (ClockTime {
                hour: hour as int,
                minute: minute as int,
                second: second as int,
            }),
    {
        if hour > 23 || minute > 59 || second > 59 {
            return None;
        }
        Some(TimeOfDay { hour, minute, second })
    }

    /// The hour, from 0 to 23.
    pub fn hour(&self) -> (r: u8)
        ensures
            r == self@.hour,
            self@.valid(),
    {
        proof {
            use_type_invariant(self);
        }
        self.hour
    }

    /// The minute, from 0 to 59.
    pub fn minute(&self) -> (r: u8)
        ensures
            r == self@.minute,
            self@.valid(),
    {
        proof {
            use_type_invariant(self);
        }
        self.minute
    }

    /// The second, from 0 to 59.
    pub fn second(&self) -> (r: u8)
        ensures
            r == self@.second,
            self@.valid(),
    {
        proof {
            use_type_invariant(self);
        }
        self.second
    }

    /// The seconds that have passed since midnight.
    pub fn second_of_day(&self) -> (r: u32)
        ensures
            r == self@.second_of_day(),
            r < 86400,
            self@.valid(),
    {
        proof {
            use_type_invariant(self);
        }
        self.hour as u32 * 3600 + self.minute as u32 * 60 + self.second as u32
    }
}

/// A date together with a time of day.
#[derive(Clone, Copy, Debug, PartialEq, Eq)]
pub struct Timestamp {
    pub date: Date,
    pub time: TimeOfDay,
}

impl View for Timestamp {
    type V = Moment;

    open spec fn view(&self) -> Moment {
        Moment { date: self.date@, time: self.time@ }
    }
}

impl Timestamp {
    /// The time `time` on the day `date`.
    pub fn new(date: Date, time: TimeOfDay) -> (r: Timestamp)
        ensures
            r@ == (Moment { date: date@, time: time@ }),
    {
        Timestamp { date, time }
    }

    /// The seconds from midnight of 1 January of year 1 to this timestamp.
    pub fn instant(&self) -> (r: u64)
        ensures
            r == self@.instant(),
            self@.valid(),
    {
        let days: u32 = self.date.day_number();
        let seconds: u32 = self.time.second_of_day();
        days as u64 * 86400 + seconds as u64
    }

    /// Whether this timestamp lies strictly before `other`.
    pub fn before(&self, other: &Timestamp) -> (r: bool)
        ensures
            r == (self@.instant() < other@.instant()),
    {
        self.instant() < other.instant()
    }

    /// Whether this timestamp lies before `other` or is equal to it.
    pub fn not_after(&self, other: &Timestamp) -> (r: bool)
        ensures
            r == (self@.instant() <= other@.instant()),
    {
        self.instant() <= other.instant()
    }
}

} // verus!
