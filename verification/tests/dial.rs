use haridokei::color::OPAQUE_BLACK;
use haridokei::dial::{
    numerals, ClockFace, DialMark, DialShape, Numeral, HOUR_STEP, MINUTE_STEP,
};
use haridokei::hands::{second_hand_angle, short_hand_angle, ClockTime, TURN};

fn direction_from_twelve(shape: &DialShape) -> u64 {
    (shape.angle + TURN / 4) % TURN
}

#[test]
fn face_has_disc_ticks_pin_and_dots_in_order() {
    let face = ClockFace::new([0, 255, 255, 255]);
    let shapes = face.shapes();
    assert_eq!(face.background_color(), 0x00ff_ffff);
    assert_eq!(shapes.len(), 62);
    assert_eq!(shapes[0], DialShape { mark: DialMark::Background, angle: 0, color: 0x00ff_ffff });
    for i in 0..12 {
        assert_eq!(
            shapes[1 + i],
            DialShape { mark: DialMark::MajorTick, angle: i as u64 * HOUR_STEP, color: OPAQUE_BLACK }
        );
    }
    assert_eq!(shapes[13], DialShape { mark: DialMark::CenterPin, angle: 0, color: OPAQUE_BLACK });
    let dots: Vec<u64> = shapes[14..].iter().map(|s| s.angle / MINUTE_STEP).collect();
    let expected: Vec<u64> = (0..60).filter(|p| p % 5 != 0).collect();
    assert_eq!(dots, expected);
    assert!(shapes[14..].iter().all(|s| s.mark == DialMark::MinorTick && s.color == OPAQUE_BLACK));
}

#[test]
fn laying_out_again_gives_the_same_face() {
    let mut face = ClockFace::new([1, 2, 3, 4]);
    let first = face.shapes().to_vec();
    face.make_clock_base();
    assert_eq!(face.shapes(), &first[..]);
    face.make_clock_base();
    assert_eq!(face.shapes().len(), 62);
    assert_eq!(face.shapes(), &first[..]);
    assert_eq!(face.background_color(), 0x0102_0304);
}

#[test]
fn face_takes_any_background_color() {
    let face = ClockFace::new([0x10, 0x20, 0x30, 0x80]);
    assert_eq!(face.background_color(), 0x1020_3080);
    assert_eq!(face.shapes()[0].color, 0x1020_3080);
}

#[test]
fn every_second_points_at_exactly_one_tick() {
    let face = ClockFace::new([0, 0, 0, 0]);
    for s in 0..60u32 {
        let target = second_hand_angle(s, 0);
        let hits: Vec<&DialShape> = face
            .shapes()
            .iter()
            .filter(|shape| matches!(shape.mark, DialMark::MajorTick | DialMark::MinorTick))
            .filter(|shape| direction_from_twelve(shape) == target)
            .collect();
        assert_eq!(hits.len(), 1, "second {}", s);
        let expected = if s % 5 == 0 { DialMark::MajorTick } else { DialMark::MinorTick };
        assert_eq!(hits[0].mark, expected);
    }
}

#[test]
fn numerals_run_clockwise_from_twelve() {
    let numerals = numerals();
    assert_eq!(numerals.len(), 12);
    assert_eq!(numerals[0], Numeral { label: 12, angle: 0 });
    for i in 1..12 {
        assert_eq!(numerals[i], Numeral { label: i as u32, angle: i as u64 * HOUR_STEP });
    }
}

#[test]
fn short_hand_points_at_its_numeral_on_the_hour() {
    let numerals = numerals();
    for hour12 in 1..=12u32 {
        let t = ClockTime::from_hour12(hour12, 0, 0, 0);
        let numeral = numerals[(hour12 % 12) as usize];
        assert_eq!(numeral.label, hour12);
        assert_eq!(short_hand_angle(t.hour, t.minute, t.second), numeral.angle);
    }
}
