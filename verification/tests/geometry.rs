use rustpture::geometry::clamp_even_if_inverted;
use rustpture::geometry::midpoint;
use rustpture::geometry::zoom_anchor;
use rustpture::geometry::ZoomAnchor;
use rustpture::geometry::PointI;
use rustpture::geometry::RectI;

#[test]
fn rect_from_points_is_normalized() {
    assert_eq!(
        RectI::from_points(PointI::new(10, 20), PointI::new(-5, 50)),
        RectI::new(-5, 20, 10, 50)
    );
}

/// The floating-point placement a zoomed window gets from its anchor.
fn zoom_around_point(old: RectI, cursor: PointI, new_width: i32, new_height: i32) -> PointI {
    let a = zoom_anchor(old, cursor);
    let ratio_x = a.offset_x as f64 / a.width as f64;
    let ratio_y = a.offset_y as f64 / a.height as f64;
    PointI::new(
        (cursor.x as f64 - ratio_x * new_width as f64).round() as i32,
        (cursor.y as f64 - ratio_y * new_height as f64).round() as i32,
    )
}

#[test]
fn zoom_keeps_cursor_anchor() {
    let old = RectI::new(100, 100, 300, 200);
    let cursor = PointI::new(150, 125);
    let origin = zoom_around_point(old, cursor, 400, 200);
    assert_eq!(origin, PointI::new(50, 75));
}

#[test]
fn inverted_clamp_range_does_not_panic() {
    let window = RectI::new(0, 0, 1, 1);
    let bounds = RectI::new(0, 0, 10, 10);
    assert_eq!(window.clamp_origin_inside(bounds, 32), PointI::new(4, 4));
}

#[test]
fn clamp_keeps_a_visible_strip() {
    let window = RectI::new(-500, -500, -300, -300);
    let bounds = RectI::new(0, 0, 1920, 1080);
    assert_eq!(
        window.clamp_origin_inside(bounds, 32),
        PointI::new(-168, -168)
    );
}

#[test]
fn defaults_are_zero() {
    assert_eq!(PointI::default(), PointI::new(0, 0));
    assert_eq!(RectI::default(), RectI::new(0, 0, 0, 0));
}

#[test]
fn from_points_of_equal_points_is_empty() {
    let r = RectI::from_points(PointI::new(3, 4), PointI::new(3, 4));
    assert_eq!(r, RectI::new(3, 4, 3, 4));
    assert!(r.is_empty());
}

#[test]
fn width_height_and_emptiness() {
    let r = RectI::new(-5, 20, 10, 50);
    assert_eq!(r.width(), 15);
    assert_eq!(r.height(), 30);
    assert!(!r.is_empty());
    assert!(RectI::new(0, 0, 5, 0).is_empty());
    assert!(RectI::new(0, 0, 0, 5).is_empty());
    assert!(RectI::new(10, 0, 5, 5).is_empty());
}

#[test]
fn translated_moves_every_edge() {
    let r = RectI::new(1, 2, 3, 4).translated(-10, 20);
    assert_eq!(r, RectI::new(-9, 22, -7, 24));
}

#[test]
fn clamp_leaves_a_visible_window_alone() {
    let window = RectI::new(100, 200, 300, 400);
    let bounds = RectI::new(0, 0, 1920, 1080);
    assert_eq!(window.clamp_origin_inside(bounds, 32), PointI::new(100, 200));
}

#[test]
fn clamp_pulls_back_from_the_far_side() {
    let window = RectI::new(1900, 1070, 2100, 1270);
    let bounds = RectI::new(0, 0, 1920, 1080);
    assert_eq!(window.clamp_origin_inside(bounds, 32), PointI::new(1888, 1048));
}

#[test]
fn clamp_margin_is_at_least_one_pixel() {
    let window = RectI::new(-500, 0, -400, 100);
    let bounds = RectI::new(0, 0, 1920, 1080);
    assert_eq!(window.clamp_origin_inside(bounds, 0), PointI::new(-99, 0));
    assert_eq!(window.clamp_origin_inside(bounds, -7), PointI::new(-99, 0));
}

#[test]
fn clamp_is_idempotent() {
    let window = RectI::new(-500, 2000, -300, 2100);
    let bounds = RectI::new(0, 0, 1920, 1080);
    let p = window.clamp_origin_inside(bounds, 32);
    let moved = RectI::new(p.x, p.y, p.x + window.width(), p.y + window.height());
    assert_eq!(moved.clamp_origin_inside(bounds, 32), p);
}

#[test]
fn inverted_midpoint_rounds_toward_zero() {
    assert_eq!(clamp_even_if_inverted(0, 3, -10), -3);
    assert_eq!(clamp_even_if_inverted(0, 10, -3), 3);
    assert_eq!(clamp_even_if_inverted(5, 0, 10), 5);
    assert_eq!(clamp_even_if_inverted(-5, 0, 10), 0);
    assert_eq!(clamp_even_if_inverted(50, 0, 10), 10);
    assert_eq!(midpoint(i32::MAX, i32::MAX), i32::MAX);
    assert_eq!(midpoint(i32::MIN, i32::MIN), i32::MIN);
    assert_eq!(midpoint(-3, 0), -1);
}

#[test]
fn zoom_anchor_clamps_the_cursor_to_the_window() {
    let old = RectI::new(100, 100, 300, 200);
    assert_eq!(
        zoom_anchor(old, PointI::new(150, 125)),
        ZoomAnchor { offset_x: 50, offset_y: 25, width: 200, height: 100 }
    );
    assert_eq!(
        zoom_anchor(old, PointI::new(50, 20)),
        ZoomAnchor { offset_x: 0, offset_y: 0, width: 200, height: 100 }
    );
    assert_eq!(
        zoom_anchor(old, PointI::new(400, 300)),
        ZoomAnchor { offset_x: 200, offset_y: 100, width: 200, height: 100 }
    );
}

#[test]
fn zoom_anchor_of_an_empty_window_uses_one_pixel() {
    let old = RectI::new(10, 10, 10, 5);
    assert_eq!(
        zoom_anchor(old, PointI::new(11, 11)),
        ZoomAnchor { offset_x: 1, offset_y: 1, width: 1, height: 1 }
    );
}

#[test]
fn zoom_matches_the_unclamped_ratio() {
    // Clamping the offset before dividing gives the same ratio as clamping
    // the quotient, for cursors inside and outside the window.
    for width in 1..30i32 {
        for dx in -40..70i32 {
            let old = RectI::new(0, 0, width, 1);
            let a = zoom_anchor(old, PointI::new(dx, 0));
            let clamped_first = a.offset_x as f64 / a.width as f64;
            let clamped_after = (dx as f64 / width as f64).clamp(0.0, 1.0);
            assert_eq!(clamped_first, clamped_after);
        }
    }
}
