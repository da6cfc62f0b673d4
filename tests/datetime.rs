use bedclock::datetime::{DateTime, DayOfWeek};

fn dt(year: u16, month: u8, day: u8, hour: u8, min: u8, sec: u8) -> DateTime {
    DateTime { year, month, day, hour, min, sec, day_of_week: DayOfWeek::Monday }
}

#[test]
fn epoch_of_known_times() {
    assert_eq!(dt(1970, 1, 1, 0, 0, 0).to_epoch(), Some(0));
    assert_eq!(dt(2018, 9, 1, 23, 59, 40).to_epoch(), Some(1535846380));
    assert_eq!(dt(2000, 2, 29, 12, 0, 0).to_epoch(), Some(951825600));
    assert_eq!(dt(2105, 12, 31, 23, 59, 59).to_epoch(), Some(4291747199));
}

#[test]
fn day_31_carries_into_next_month() {
    assert_eq!(dt(2018, 2, 31, 0, 0, 0).to_epoch(), Some(1520035200));
}

#[test]
fn out_of_range_fields_have_no_epoch() {
    assert_eq!(dt(1969, 12, 31, 23, 59, 59).to_epoch(), None);
    assert_eq!(dt(2106, 1, 1, 0, 0, 0).to_epoch(), None);
    assert_eq!(dt(2018, 13, 1, 0, 0, 0).to_epoch(), None);
    assert_eq!(dt(2018, 0, 1, 0, 0, 0).to_epoch(), None);
    assert_eq!(dt(2018, 1, 0, 0, 0, 0).to_epoch(), None);
    assert_eq!(dt(2018, 1, 32, 0, 0, 0).to_epoch(), None);
    assert_eq!(dt(2018, 1, 1, 24, 0, 0).to_epoch(), None);
    assert_eq!(dt(2018, 1, 1, 0, 60, 0).to_epoch(), None);
    assert_eq!(dt(2018, 1, 1, 0, 0, 60).to_epoch(), None);
}

#[test]
fn from_epoch_gives_fields_and_weekday() {
    let d = DateTime::new(1535846380);
    assert_eq!(d, DateTime { day_of_week: DayOfWeek::Saturday, ..dt(2018, 9, 1, 23, 59, 40) });
    let d = DateTime::new(951825600);
    assert_eq!(d, DateTime { day_of_week: DayOfWeek::Tuesday, ..dt(2000, 2, 29, 12, 0, 0) });
    let d = DateTime::new(4291747199);
    assert_eq!(d, DateTime { day_of_week: DayOfWeek::Thursday, ..dt(2105, 12, 31, 23, 59, 59) });
    let d = DateTime::new(4291747200);
    assert_eq!((d.year, d.month, d.day), (2106, 1, 1));
    assert_eq!(DayOfWeek::Saturday.name(), "Saturday");
}

#[test]
fn epoch_round_trip() {
    for e in [0u32, 59, 86399, 86400, 951825600, 1535846380, 4291747199] {
        assert_eq!(DateTime::new(e).to_epoch(), Some(e));
    }
}
