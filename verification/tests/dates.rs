use kepco_crawler::date::Date;

#[test]
fn from_ymd_accepts_calendar_days() {
    assert_eq!(Date::from_ymd(2023, 1, 1), Some(Date { year: 2023, month: 1, day: 1 }));
    assert_eq!(Date::from_ymd(2024, 2, 29), Some(Date { year: 2024, month: 2, day: 29 }));
    assert_eq!(Date::from_ymd(2023, 2, 29), None);
    assert_eq!(Date::from_ymd(1900, 2, 29), None);
    assert_eq!(Date::from_ymd(2000, 2, 29), Some(Date { year: 2000, month: 2, day: 29 }));
    assert_eq!(Date::from_ymd(2023, 13, 1), None);
    assert_eq!(Date::from_ymd(2023, 4, 31), None);
    assert_eq!(Date::from_ymd(2023, 0, 10), None);
}
