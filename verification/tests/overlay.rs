use rustpture::geometry::PointI;
use rustpture::geometry::RectI;
use rustpture::overlay::difference_regions;
use rustpture::overlay::frame_regions;
use rustpture::overlay::intersect;
use rustpture::overlay::point_from_lparam;
use rustpture::overlay::rgb;
use rustpture::overlay::selection_delta_regions;
use rustpture::overlay::virtual_screen_rect;
use rustpture::overlay::ReleaseOutcome;
use rustpture::overlay::SelectionPaint;
use rustpture::overlay::SelectionState;

fn contains(r: &RectI, x: i32, y: i32) -> bool {
    r.left <= x && x < r.right && r.top <= y && y < r.bottom
}

fn covered(parts: &[RectI], x: i32, y: i32) -> usize {
    parts.iter().filter(|r| contains(r, x, y)).count()
}

#[test]
fn rgb_packs_channels() {
    assert_eq!(rgb(255, 0, 255), 0x00ff_00ff);
    assert_eq!(rgb(0, 0, 0), 0);
    assert_eq!(rgb(255, 255, 255), 0x00ff_ffff);
    assert_eq!(rgb(1, 2, 3), 0x0003_0201);
}

#[test]
fn lparam_words_are_sign_extended() {
    assert_eq!(point_from_lparam(0), PointI::new(0, 0));
    assert_eq!(point_from_lparam(0x0002_0001), PointI::new(1, 2));
    assert_eq!(point_from_lparam(0x0001_fffe), PointI::new(-2, 1));
    assert_eq!(point_from_lparam(0xffff_8000u32 as isize), PointI::new(-32768, -1));
    assert_eq!(point_from_lparam(-1), PointI::new(-1, -1));
    assert_eq!(point_from_lparam(0x7fff_7fff), PointI::new(32767, 32767));
}

#[test]
fn intersect_takes_the_overlap() {
    let a = RectI::new(0, 0, 10, 10);
    let b = RectI::new(5, -5, 20, 7);
    assert_eq!(intersect(a, b), RectI::new(5, 0, 10, 7));
    assert!(intersect(a, RectI::new(20, 20, 30, 30)).is_empty());
}

#[test]
fn difference_of_disjoint_rects_is_the_rect() {
    let a = RectI::new(0, 0, 10, 10);
    let b = RectI::new(20, 20, 30, 30);
    assert_eq!(difference_regions(a, b), vec![a]);
}

#[test]
fn difference_of_empty_rect_is_nothing() {
    let a = RectI::new(0, 0, 0, 10);
    assert!(difference_regions(a, RectI::new(0, 0, 5, 5)).is_empty());
}

#[test]
fn difference_of_contained_rect_is_nothing() {
    let a = RectI::new(2, 2, 5, 5);
    let b = RectI::new(0, 0, 10, 10);
    assert!(difference_regions(a, b).is_empty());
}

#[test]
fn difference_around_a_hole_has_four_strips() {
    let a = RectI::new(0, 0, 10, 10);
    let b = RectI::new(3, 4, 6, 8);
    assert_eq!(
        difference_regions(a, b),
        vec![
            RectI::new(0, 0, 10, 4),
            RectI::new(0, 8, 10, 10),
            RectI::new(0, 4, 3, 8),
            RectI::new(6, 4, 10, 8),
        ]
    );
}

#[test]
fn difference_covers_each_pixel_once() {
    let a = RectI::new(0, 0, 12, 9);
    let b = RectI::new(4, -3, 20, 5);
    let parts = difference_regions(a, b);
    for x in -5..25 {
        for y in -5..15 {
            let expected = contains(&a, x, y) && !contains(&b, x, y);
            assert_eq!(covered(&parts, x, y), usize::from(expected), "pixel {x},{y}");
        }
    }
}

#[test]
fn frame_of_a_large_rect_is_two_pixels() {
    let r = RectI::new(0, 0, 10, 6);
    assert_eq!(
        frame_regions(r),
        vec![
            RectI::new(0, 0, 10, 2),
            RectI::new(0, 4, 10, 6),
            RectI::new(0, 0, 2, 6),
            RectI::new(8, 0, 10, 6),
        ]
    );
}

#[test]
fn frame_of_a_thin_rect_is_the_rect() {
    let r = RectI::new(5, 5, 6, 20);
    let parts = frame_regions(r);
    assert_eq!(parts[0], RectI::new(5, 5, 6, 7));
    assert_eq!(parts[2], RectI::new(5, 5, 6, 20));
    for x in 0..10 {
        for y in 0..25 {
            assert_eq!(covered(&parts, x, y) > 0, contains(&r, x, y));
        }
    }
}

#[test]
fn frame_of_an_empty_rect_is_nothing() {
    assert!(frame_regions(RectI::new(3, 3, 3, 9)).is_empty());
}

#[test]
fn selection_delta_covers_every_changed_pixel() {
    let old = RectI::new(10, 10, 30, 20);
    let new = RectI::new(10, 10, 32, 25);
    let parts = selection_delta_regions(old, new);
    let look = |r: &RectI, x: i32, y: i32| {
        let inside = contains(r, x, y);
        let w = 2.min(r.width()).max(1);
        let h = 2.min(r.height()).max(1);
        let frame = inside
            && (y < r.top + h || y >= r.bottom - h || x < r.left + w || x >= r.right - w);
        (inside, frame)
    };
    for x in 0..40 {
        for y in 0..30 {
            if look(&old, x, y) != look(&new, x, y) {
                assert!(covered(&parts, x, y) > 0, "pixel {x},{y}");
            }
            if covered(&parts, x, y) > 0 {
                assert!(contains(&old, x, y) || contains(&new, x, y));
            }
        }
    }
    // The unchanged inside of the selection is not repainted.
    assert_eq!(covered(&parts, 15, 15), 0);
}

#[test]
fn virtual_rect_is_at_least_one_pixel() {
    assert_eq!(virtual_screen_rect(-1920, -100, 3840, 1180), RectI::new(-1920, -100, 1920, 1080));
    assert_eq!(virtual_screen_rect(5, 6, 0, -3), RectI::new(5, 6, 6, 7));
}

#[test]
fn drag_and_release_captures_the_selection_on_screen() {
    let mut s = SelectionState::new(RectI::new(-1920, 0, 1920, 1080));
    assert!(!s.active && !s.dragging);
    s.begin_capture(RectI::new(-1920, -10, 1920, 1080));
    assert!(s.active);
    s.press(PointI::new(100, 50));
    assert_eq!(s.selection(), RectI::new(100, 50, 100, 50));
    let change = s.move_to(PointI::new(40, 80));
    assert_eq!(change, Some((RectI::new(100, 50, 100, 50), RectI::new(40, 50, 100, 80))));
    assert_eq!(s.move_to(PointI::new(40, 80)), None);
    let outcome = s.release(PointI::new(30, 90));
    assert_eq!(outcome, ReleaseOutcome::Capture(RectI::new(-1890, 40, -1820, 80)));
    assert!(!s.active && !s.dragging);
    assert_eq!(s.release(PointI::new(0, 0)), ReleaseOutcome::Ignored);
}

#[test]
fn a_click_without_drag_is_dismissed() {
    let mut s = SelectionState::new(RectI::new(0, 0, 100, 100));
    s.begin_capture(RectI::new(0, 0, 100, 100));
    s.press(PointI::new(10, 10));
    assert_eq!(s.release(PointI::new(11, 40)), ReleaseOutcome::Dismissed);
    assert!(!s.active);
}

#[test]
fn release_without_press_is_ignored() {
    let mut s = SelectionState::new(RectI::new(0, 0, 100, 100));
    s.begin_capture(RectI::new(0, 0, 100, 100));
    assert_eq!(s.release(PointI::new(50, 50)), ReleaseOutcome::Ignored);
    assert!(s.active);
}

#[test]
fn moves_without_drag_change_nothing() {
    let mut s = SelectionState::new(RectI::new(0, 0, 100, 100));
    assert_eq!(s.move_to(PointI::new(5, 5)), None);
    assert_eq!(s.current, PointI::new(0, 0));
}

#[test]
fn losing_capture_ends_the_drag() {
    let mut s = SelectionState::new(RectI::new(0, 0, 100, 100));
    s.begin_capture(RectI::new(0, 0, 100, 100));
    s.press(PointI::new(10, 10));
    s.move_to(PointI::new(20, 30));
    assert_eq!(s.capture_lost(), Some(RectI::new(10, 10, 20, 30)));
    assert!(!s.dragging && s.active);
    assert_eq!(s.capture_lost(), None);
}

#[test]
fn focus_loss_and_escape_cancel() {
    let mut s = SelectionState::new(RectI::new(0, 0, 100, 100));
    assert!(!s.focus_lost());
    s.begin_capture(RectI::new(0, 0, 100, 100));
    s.press(PointI::new(1, 1));
    assert!(s.focus_lost());
    assert!(!s.active && !s.dragging);
    s.begin_capture(RectI::new(0, 0, 100, 100));
    s.cancel();
    assert!(!s.active);
}

#[test]
fn display_change_cancels_and_moves_the_overlay() {
    let mut s = SelectionState::new(RectI::new(0, 0, 100, 100));
    s.begin_capture(RectI::new(0, 0, 100, 100));
    assert!(s.refresh_geometry(RectI::new(-50, 0, 100, 100)));
    assert!(!s.active);
    assert_eq!(s.virtual_rect, RectI::new(-50, 0, 100, 100));
    assert!(!s.refresh_geometry(RectI::new(0, 0, 10, 10)));
    assert_eq!(s.virtual_rect, RectI::new(0, 0, 10, 10));
}

#[test]
fn focus_loss_keeps_the_selection_geometry() {
    let mut s = SelectionState::new(RectI::new(-10, -20, 100, 100));
    s.begin_capture(RectI::new(-10, -20, 100, 100));
    s.press(PointI::new(3, 4));
    s.move_to(PointI::new(30, 40));
    assert!(s.focus_lost());
    assert_eq!(s.virtual_rect, RectI::new(-10, -20, 100, 100));
    assert_eq!(s.anchor, PointI::new(3, 4));
    assert_eq!(s.current, PointI::new(30, 40));
}

#[test]
fn a_narrow_release_near_the_coordinate_limit_is_dismissed() {
    let mut s = SelectionState::new(RectI::new(i32::MAX - 10, 0, i32::MAX, 100));
    s.begin_capture(RectI::new(i32::MAX - 10, 0, i32::MAX, 100));
    s.press(PointI::new(100, 10));
    assert_eq!(s.release(PointI::new(101, 500)), ReleaseOutcome::Dismissed);
}

#[test]
fn paint_plan_draws_two_rings_when_there_is_room() {
    let mut s = SelectionState::new(RectI::new(0, 0, 100, 100));
    assert_eq!(s.paint_plan(), None);
    s.begin_capture(RectI::new(0, 0, 100, 100));
    s.press(PointI::new(10, 10));
    assert_eq!(s.paint_plan(), None);
    s.move_to(PointI::new(20, 15));
    assert_eq!(
        s.paint_plan(),
        Some(SelectionPaint {
            fill: RectI::new(10, 10, 20, 15),
            frame: RectI::new(10, 10, 20, 15),
            inner_frame: Some(RectI::new(11, 11, 19, 14)),
        })
    );
    s.move_to(PointI::new(12, 30));
    assert_eq!(
        s.paint_plan(),
        Some(SelectionPaint {
            fill: RectI::new(10, 10, 12, 30),
            frame: RectI::new(10, 10, 12, 30),
            inner_frame: None,
        })
    );
    s.capture_lost();
    assert_eq!(s.paint_plan(), None);
}
