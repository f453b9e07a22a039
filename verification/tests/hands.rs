use haridokei::hands::{
    hands_at, long_hand_angle, second_hand_angle, short_hand_angle, ClockTime, Hand, HandShape,
    TURN,
};

#[test]
fn second_hand_sweeps_once_a_minute() {
    assert_eq!(second_hand_angle(0, 0), 0);
    assert_eq!(second_hand_angle(15, 0), TURN / 4);
    assert_eq!(second_hand_angle(30, 500), 21_960_000);
    assert_eq!(second_hand_angle(59, 999), TURN - 720);
}

#[test]
fn second_hand_angle_in_degrees_matches_six_per_second() {
    // 6 degrees a second, 0.006 degrees a millisecond; 120000 units a degree.
    let degrees = second_hand_angle(42, 250) as f64 / 120_000.0;
    assert!((degrees - (6.0 * 42.0 + 0.006 * 250.0)).abs() < 1e-9);
}

#[test]
fn long_hand_sweeps_once_an_hour() {
    assert_eq!(long_hand_angle(0, 0, 0), 0);
    assert_eq!(long_hand_angle(15, 0, 0), TURN / 4);
    assert_eq!(long_hand_angle(30, 30, 0), TURN / 2 + 360_000);
    assert_eq!(long_hand_angle(0, 0, 1), 12);
}

#[test]
fn short_hand_sweeps_once_in_twelve_hours() {
    assert_eq!(short_hand_angle(0, 0, 0), 0);
    assert_eq!(short_hand_angle(3, 0, 0), TURN / 4);
    assert_eq!(short_hand_angle(6, 30, 0), TURN / 2 + 1_800_000);
    assert_eq!(short_hand_angle(11, 59, 59), TURN - 1000);
}

#[test]
fn short_hand_follows_long_hand_twelvefold() {
    for (h, m, s) in [(0, 0, 0), (4, 17, 33), (11, 59, 59), (7, 0, 45)] {
        assert_eq!(short_hand_angle(h, m, s), h as u64 * (TURN / 12) + long_hand_angle(m, s, 0) / 12);
    }
}

#[test]
fn long_hand_follows_second_hand_sixtyfold() {
    for (m, s, ms) in [(0, 0, 0), (12, 34, 567), (59, 59, 999), (30, 0, 1)] {
        assert_eq!(long_hand_angle(m, s, ms), m as u64 * (TURN / 60) + second_hand_angle(s, ms) / 60);
    }
}

#[test]
fn hands_stay_within_a_turn_outside_leap_seconds() {
    let t = ClockTime::from_hour12(11, 59, 59, 999);
    for hand in hands_at(&t) {
        assert!(hand.angle < TURN);
    }
}

#[test]
fn leap_second_carries_second_hand_past_a_turn() {
    assert!(second_hand_angle(59, 1999) > TURN);
}

#[test]
fn short_hand_never_goes_back_within_the_dial() {
    let mut previous = 0;
    for h in 0..12 {
        for m in 0..60 {
            for s in (0..60).step_by(7) {
                let angle = short_hand_angle(h, m, s);
                assert!(angle >= previous);
                previous = angle;
            }
        }
    }
}

#[test]
fn twelve_o_clock_reads_as_zero() {
    let t = ClockTime::from_hour12(12, 5, 6, 7);
    assert_eq!(t, ClockTime { hour: 0, minute: 5, second: 6, millis: 7 });
    assert_eq!(ClockTime::from_hour12(7, 0, 0, 0).hour, 7);
}

#[test]
fn hands_in_painting_order() {
    let t = ClockTime::from_hour12(3, 15, 30, 0);
    let hands = hands_at(&t);
    assert_eq!(
        hands,
        vec![
            Hand { shape: HandShape { half_width: 3, shoulder: 90, length: 270 }, angle: 21_600_000 },
            Hand { shape: HandShape { half_width: 12, shoulder: 90, length: 270 }, angle: 11_160_000 },
            Hand { shape: HandShape { half_width: 18, shoulder: 60, length: 165 }, angle: 11_730_000 },
        ]
    );
}
