use haridokei::settings::{GlobalSettingFile, WindowBounds, DEFAULT_ORIGIN_BITS, DEFAULT_SIZE_BITS};

fn bounds(x: f32, y: f32, w: f32, h: f32) -> WindowBounds {
    WindowBounds { origin_x: x.to_bits(), origin_y: y.to_bits(), width: w.to_bits(), height: h.to_bits() }
}

#[test]
fn default_settings() {
    let s = GlobalSettingFile::default();
    assert_eq!(s.bounds(), bounds(10.0, 10.0, 300.0, 300.0));
    assert_eq!(DEFAULT_ORIGIN_BITS, 10.0f32.to_bits());
    assert_eq!(DEFAULT_SIZE_BITS, 300.0f32.to_bits());
    assert_eq!(s.clock_background_color(), [0, 255, 255, 255]);
    assert_eq!(s.font_family(), ".SystemUIFont");
}

#[test]
fn bounds_read_back_what_was_set() {
    let mut s = GlobalSettingFile::new(bounds(1.0, 2.0, 3.0, 4.0), [1, 2, 3, 4], "Fraunces".to_string());
    let b = bounds(-12.5, 7.25, 640.0, 480.5);
    s.set_bounds(b);
    assert_eq!(s.bounds(), b);
    assert_eq!(s.clock_background_color(), [1, 2, 3, 4]);
    assert_eq!(s.font_family(), "Fraunces");
}
