use chrono::{NaiveTime, Timelike};
use haridokei::hands::{hands_at, second_hand_angle, ClockTime, TURN};

fn reading_of(now: &NaiveTime) -> ClockTime {
    ClockTime::from_hour12(now.hour12().1, now.minute(), now.second(), now.nanosecond() / 1_000_000)
}

#[test]
fn chrono_reading_of_afternoon() {
    let now = NaiveTime::from_hms_milli_opt(15, 20, 45, 250).unwrap();
    assert_eq!(reading_of(&now), ClockTime { hour: 3, minute: 20, second: 45, millis: 250 });
}

#[test]
fn chrono_reading_of_noon_and_midnight() {
    for h in [0, 12] {
        let now = NaiveTime::from_hms_opt(h, 0, 0).unwrap();
        let t = reading_of(&now);
        assert_eq!(t.hour, 0);
        assert!(hands_at(&t).iter().all(|hand| hand.angle == 0));
    }
}

#[test]
fn chrono_leap_second_reading() {
    let now = NaiveTime::from_hms_milli_opt(23, 59, 59, 1_500).unwrap();
    let t = reading_of(&now);
    assert_eq!(t, ClockTime { hour: 11, minute: 59, second: 59, millis: 1_500 });
    assert_eq!(second_hand_angle(t.second, t.millis), TURN + 360_000);
}
