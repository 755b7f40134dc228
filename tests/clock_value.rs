use clock::clock::{
    clock_value_at, clock_value_from_time_of_day, compute_clock_value, current_time,
    two_digit_text, MAX_TIMESTAMP, MIN_TIMESTAMP, UTC_OFFSET_SECONDS,
};

// 2024-01-01T00:00:00Z
const NEW_YEAR_2024: i64 = 1_704_067_200;

#[test]
fn padded_morning_time() {
    // 00:05 UTC is 09:05 at UTC+9
    let v = clock_value_at(NEW_YEAR_2024 + 5 * 60).unwrap();
    assert_eq!(v.hour_text(), "09");
    assert_eq!(v.minute_text(), "05");
    assert_eq!(v.text(), "0905");
}

#[test]
fn midnight_shows_hour_24() {
    // 15:30 UTC is 00:30 at UTC+9
    let v = clock_value_at(NEW_YEAR_2024 + 15 * 3600 + 30 * 60).unwrap();
    assert_eq!(v.hour_text(), "24");
    assert_eq!(v.minute_text(), "30");
}

#[test]
fn every_hour_and_minute_is_two_padded_digits() {
    for hour in 0u32..24 {
        for minute in 0u32..60 {
            let v = clock_value_from_time_of_day(hour, minute);
            let shown = if hour == 0 { 24 } else { hour };
            assert_eq!(v.hour_text(), format!("{:02}", shown));
            assert_eq!(v.minute_text(), format!("{:02}", minute));
            assert_eq!(v.hour_text().len(), 2);
            assert_eq!(v.minute_text().len(), 2);
        }
    }
}

#[test]
fn every_instant_of_a_day_is_padded() {
    let mut t = NEW_YEAR_2024;
    while t < NEW_YEAR_2024 + 86_400 {
        let v = clock_value_at(t).unwrap();
        let local = (t + UTC_OFFSET_SECONDS as i64).rem_euclid(86_400);
        let hour = local / 3600;
        let shown = if hour == 0 { 24 } else { hour };
        assert_eq!(v.hour_text(), format!("{:02}", shown));
        assert_eq!(v.minute_text(), format!("{:02}", (local % 3600) / 60));
        t += 60;
    }
}

#[test]
fn last_minute_before_midnight() {
    // 14:59 UTC is 23:59 at UTC+9
    let v = clock_value_at(NEW_YEAR_2024 + 14 * 3600 + 59 * 60 + 59).unwrap();
    assert_eq!(v.text(), "2359");
}

#[test]
fn epoch_and_negative_instants() {
    assert_eq!(clock_value_at(0).unwrap().text(), "0900");
    // 1969-12-31T14:59:00Z is 23:59 at UTC+9
    assert_eq!(clock_value_at(-9 * 3600 - 60).unwrap().text(), "2359");
    assert_eq!(clock_value_at(-9 * 3600).unwrap().text(), "2400");
}

#[test]
fn instants_outside_chrono_range_are_refused() {
    assert!(clock_value_at(MIN_TIMESTAMP).is_some());
    assert!(clock_value_at(MAX_TIMESTAMP).is_some());
    assert!(clock_value_at(MIN_TIMESTAMP - 1).is_none());
    assert!(clock_value_at(MAX_TIMESTAMP + 1).is_none());
    assert!(clock_value_at(i64::MIN).is_none());
    assert!(clock_value_at(i64::MAX).is_none());
}

#[test]
fn extreme_instants_show_their_time_of_day() {
    // MAX_TIMESTAMP is 23:59:59 UTC, 08:59 at UTC+9
    assert_eq!(clock_value_at(MAX_TIMESTAMP).unwrap().text(), "0859");
    // MIN_TIMESTAMP is 00:00:00 UTC, 09:00 at UTC+9
    assert_eq!(clock_value_at(MIN_TIMESTAMP).unwrap().text(), "0900");
}

#[test]
fn two_digit_text_pads() {
    assert_eq!(two_digit_text(0), "00");
    assert_eq!(two_digit_text(7), "07");
    assert_eq!(two_digit_text(42), "42");
    assert_eq!(two_digit_text(99), "99");
}

#[test]
fn current_time_is_four_digits() {
    let now = current_time();
    assert_eq!(now.len(), 4);
    assert!(now.chars().all(|c| c.is_ascii_digit()));
    let hour: u32 = now[..2].parse().unwrap();
    let minute: u32 = now[2..].parse().unwrap();
    assert!((1..=24).contains(&hour));
    assert!(minute < 60);
}

#[test]
fn compute_clock_value_is_in_range() {
    let v = compute_clock_value();
    let hour: u32 = v.hour_text().parse().unwrap();
    let minute: u32 = v.minute_text().parse().unwrap();
    assert_eq!(v.hour_text().len(), 2);
    assert_eq!(v.minute_text().len(), 2);
    assert!((1..=24).contains(&hour));
    assert!(minute < 60);
}

#[test]
fn hour_24_only_at_local_midnight() {
    let mut t = NEW_YEAR_2024;
    while t < NEW_YEAR_2024 + 86_400 {
        let v = clock_value_at(t).unwrap();
        assert_ne!(v.hour_text(), "00");
        let utc_hour = t.rem_euclid(86_400) / 3600;
        assert_eq!(v.hour_text() == "24", utc_hour == 15);
        t += 600;
    }
}
