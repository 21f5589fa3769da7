use rustpture::geometry::PointI;
use rustpture::geometry::RectI;
use rustpture::pin::centered_origin;
use rustpture::pin::context_menu_anchor;
use rustpture::pin::opacity_after_wheel;
use rustpture::pin::rect_center;
use rustpture::pin::wheel_delta;
use rustpture::pin::wheel_keys;
use rustpture::pin::PinControl;
use rustpture::pin::DEFAULT_OPACITY;
use rustpture::pin::MIN_OPACITY;

#[test]
fn wheel_words() {
    assert_eq!(wheel_delta(0x0078_0008), 120);
    assert_eq!(wheel_delta(0xff88_0000), -120);
    assert_eq!(wheel_keys(0xff88_0008), 8);
    assert_eq!(wheel_keys(0x0078_0000), 0);
}

#[test]
fn one_notch_changes_opacity_by_sixteen() {
    assert_eq!(opacity_after_wheel(200, 120), 216);
    assert_eq!(opacity_after_wheel(200, -120), 184);
    assert_eq!(opacity_after_wheel(200, 240), 232);
}

#[test]
fn opacity_stays_within_limits() {
    assert_eq!(opacity_after_wheel(250, 120), 255);
    assert_eq!(opacity_after_wheel(40, -120), MIN_OPACITY);
    assert_eq!(opacity_after_wheel(100, i32::MIN), MIN_OPACITY);
    assert_eq!(opacity_after_wheel(100, i32::MAX), 255);
}

#[test]
fn partial_notches_round_to_the_nearest_step() {
    // 30 / 120 * 16 = 4
    assert_eq!(opacity_after_wheel(100, 30), 104);
    // 8 / 120 * 16 = 1.07 -> 1
    assert_eq!(opacity_after_wheel(100, 8), 101);
    // -4 / 120 * 16 = -0.53 -> -1
    assert_eq!(opacity_after_wheel(100, -4), 99);
    // 3 / 120 * 16 = 0.4 -> 0
    assert_eq!(opacity_after_wheel(100, 3), 100);
}

#[test]
fn opacity_matches_floating_point_rounding() {
    for delta in -32768i32..=32767 {
        let change = ((delta as f64 / 120.0) * 16.0).round() as i32;
        let expected = (128 + change).clamp(32, 255) as u8;
        assert_eq!(opacity_after_wheel(128, delta), expected, "delta {delta}");
    }
}

#[test]
fn new_pin_is_opaque_and_on_top() {
    let c = PinControl::new();
    assert_eq!(c.opacity, DEFAULT_OPACITY);
    assert!(c.always_on_top);
    assert!(!c.dragging);
}

#[test]
fn drag_follows_the_cursor() {
    let mut c = PinControl::new();
    assert_eq!(c.drag_target(PointI::new(5, 5)), None);
    c.begin_drag(PointI::new(500, 400), PointI::new(100, 80));
    assert_eq!(c.drag_target(PointI::new(500, 400)), Some(PointI::new(100, 80)));
    assert_eq!(c.drag_target(PointI::new(450, 430)), Some(PointI::new(50, 110)));
    c.end_drag();
    assert_eq!(c.drag_target(PointI::new(450, 430)), None);
}

#[test]
fn toggling_always_on_top() {
    let mut c = PinControl::new();
    assert!(!c.toggle_always_on_top());
    assert!(c.toggle_always_on_top());
}

#[test]
fn turning_opacity_updates_state() {
    let mut c = PinControl::new();
    assert_eq!(c.turn_opacity(-240), 223);
    assert_eq!(c.opacity, 223);
}

#[test]
fn center_rounds_toward_zero() {
    assert_eq!(rect_center(RectI::new(0, 0, 101, 51)), PointI::new(50, 25));
    assert_eq!(rect_center(RectI::new(-101, -51, 0, 0)), PointI::new(-50, -25));
}

#[test]
fn context_menu_opens_at_the_cursor_or_the_center() {
    let window = RectI::new(100, 100, 300, 200);
    assert_eq!(context_menu_anchor(-1, window), PointI::new(200, 150));
    assert_eq!(context_menu_anchor(0x0064_00c8, window), PointI::new(200, 100));
    assert_eq!(context_menu_anchor(0xfff6_fff6u32 as isize, window), PointI::new(-10, -10));
}

#[test]
fn centered_in_the_work_area() {
    let work = RectI::new(0, 40, 1920, 1080);
    assert_eq!(centered_origin(work, 1000, 500), PointI::new(460, 310));
    assert_eq!(centered_origin(work, 1921, 1043), PointI::new(0, 39));
}
