use backend::calendar::{leap_year, month_length, Date, TimeOfDay, Timestamp, Weekday};

fn date(year: u16, month: u8, day: u8) -> Date {
    Date::new(year, month, day).unwrap()
}

fn weekday_of_time(day: time::Weekday) -> Weekday {
    match day {
        time::Weekday::Monday => Weekday::Monday,
        time::Weekday::Tuesday => Weekday::Tuesday,
        time::Weekday::Wednesday => Weekday::Wednesday,
        time::Weekday::Thursday => Weekday::Thursday,
        time::Weekday::Friday => Weekday::Friday,
        time::Weekday::Saturday => Weekday::Saturday,
        time::Weekday::Sunday => Weekday::Sunday,
    }
}

#[test]
fn first_day_of_2024_is_a_monday() {
    assert_eq!(date(2024, 1, 1).weekday(), Weekday::Monday);
    assert_eq!(date(2024, 1, 6).weekday(), Weekday::Saturday);
    assert_eq!(date(2024, 1, 7).weekday(), Weekday::Sunday);
}

#[test]
fn first_day_of_year_one_is_a_monday() {
    assert_eq!(date(1, 1, 1).day_number(), 0);
    assert_eq!(date(1, 1, 1).weekday(), Weekday::Monday);
}

#[test]
fn day_numbers_are_exact() {
    assert_eq!(date(1, 12, 31).day_number(), 364);
    assert_eq!(date(2, 1, 1).day_number(), 365);
    assert_eq!(date(2024, 1, 1).day_number(), 738_885);
    assert_eq!(date(2024, 3, 1).day_number(), 738_885 + 31 + 29);
    assert_eq!(date(9999, 12, 31).day_number(), 3_652_058);
}

#[test]
fn leap_years_follow_the_gregorian_rule() {
    assert!(leap_year(2024));
    assert!(leap_year(2000));
    assert!(!leap_year(1900));
    assert!(!leap_year(2023));
    assert_eq!(month_length(2024, 2), 29);
    assert_eq!(month_length(2023, 2), 28);
    assert_eq!(month_length(1900, 2), 28);
    assert_eq!(month_length(2023, 4), 30);
    assert_eq!(month_length(2023, 12), 31);
}

#[test]
fn dates_outside_the_calendar_are_refused() {
    assert!(Date::new(2023, 2, 29).is_none());
    assert!(Date::new(2024, 2, 29).is_some());
    assert!(Date::new(2024, 2, 30).is_none());
    assert!(Date::new(2024, 4, 31).is_none());
    assert!(Date::new(2024, 0, 1).is_none());
    assert!(Date::new(2024, 13, 1).is_none());
    assert!(Date::new(2024, 1, 0).is_none());
    assert!(Date::new(2024, 1, 32).is_none());
    assert!(Date::new(0, 1, 1).is_none());
    assert!(Date::new(10000, 1, 1).is_none());
    assert!(Date::new(9999, 12, 31).is_some());
}

#[test]
fn dates_keep_their_parts() {
    let d = date(2023, 11, 5);
    assert_eq!((d.year(), d.month(), d.day()), (2023, 11, 5));
    assert!(d.same_day(&date(2023, 11, 5)));
    assert!(!d.same_day(&date(2023, 11, 6)));
}

#[test]
fn validity_agrees_with_the_time_crate() {
    for year in [1u16, 4, 100, 400, 1582, 1900, 1999, 2000, 2023, 2024, 2100, 9999] {
        for month in 0u8..=13 {
            for day in 0u8..=32 {
                let ours = Date::new(year, month, day).is_some();
                let theirs = time::Month::try_from(month)
                    .ok()
                    .and_then(|m| time::Date::from_calendar_date(year as i32, m, day).ok())
                    .is_some();
                assert_eq!(ours, theirs, "{year}-{month}-{day}");
            }
        }
    }
}

#[test]
fn weekdays_agree_with_the_time_crate() {
    let mut day = time::Date::from_calendar_date(1995, time::Month::January, 1).unwrap();
    let end = time::Date::from_calendar_date(2035, time::Month::January, 1).unwrap();
    let mut previous: Option<u32> = None;
    while day < end {
        let ours = date(day.year() as u16, u8::from(day.month()), day.day());
        assert_eq!(ours.weekday(), weekday_of_time(day.weekday()), "{day}");
        if let Some(number) = previous {
            assert_eq!(ours.day_number(), number + 1, "{day}");
        }
        previous = Some(ours.day_number());
        day = day.next_day().unwrap();
    }
}

#[test]
fn working_days_are_monday_to_friday() {
    assert!(Weekday::Monday.working_day());
    assert!(Weekday::Tuesday.working_day());
    assert!(Weekday::Wednesday.working_day());
    assert!(Weekday::Thursday.working_day());
    assert!(Weekday::Friday.working_day());
    assert!(!Weekday::Saturday.working_day());
    assert!(!Weekday::Sunday.working_day());
}

#[test]
fn times_outside_the_clock_are_refused() {
    assert!(TimeOfDay::new(0, 0, 0).is_some());
    assert!(TimeOfDay::new(23, 59, 59).is_some());
    assert!(TimeOfDay::new(24, 0, 0).is_none());
    assert!(TimeOfDay::new(0, 60, 0).is_none());
    assert!(TimeOfDay::new(0, 0, 60).is_none());
}

#[test]
fn seconds_of_the_day_are_exact() {
    assert_eq!(TimeOfDay::new(0, 0, 0).unwrap().second_of_day(), 0);
    assert_eq!(TimeOfDay::new(7, 30, 15).unwrap().second_of_day(), 7 * 3600 + 30 * 60 + 15);
    assert_eq!(TimeOfDay::new(23, 59, 59).unwrap().second_of_day(), 86_399);
    let t = TimeOfDay::new(7, 30, 15).unwrap();
    assert_eq!((t.hour(), t.minute(), t.second()), (7, 30, 15));
}

#[test]
fn timestamps_are_ordered_by_their_instant() {
    let noon = Timestamp::new(date(2024, 1, 1), TimeOfDay::new(12, 0, 0).unwrap());
    let later = Timestamp::new(date(2024, 1, 1), TimeOfDay::new(12, 0, 1).unwrap());
    let next_day = Timestamp::new(date(2024, 1, 2), TimeOfDay::new(0, 0, 0).unwrap());
    assert_eq!(noon.instant(), 738_885u64 * 86_400 + 12 * 3600);
    assert!(noon.before(&later));
    assert!(!later.before(&noon));
    assert!(!noon.before(&noon));
    assert!(noon.not_after(&noon));
    assert!(later.before(&next_day));
    assert!(!next_day.not_after(&later));
    assert_eq!(next_day.instant(), 738_886u64 * 86_400);
}
