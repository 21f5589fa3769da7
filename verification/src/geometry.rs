use vstd::prelude::*;
use vstd::math::max;
use vstd::math::min;

verus! {

/// A point in integer screen or client coordinates.
#[derive(Clone, Copy, Debug, PartialEq, Eq, Structural)]
pub struct PointI {
    pub x: i32,
    pub y: i32,
}

impl PointI {
    pub fn new(x: i32, y: i32) -> (p: Self)
        ensures
            p.x == x,
            p.y == y,
    {
        PointI { x, y }
    }
}

impl Default for PointI {
    fn default() -> (p: Self)
        ensures
            p.x == 0,
            p.y == 0,
    {
        PointI { x: 0, y: 0 }
    }
}

/// A half-open rectangle `[left, right) x [top, bottom)`.
#[derive(Clone, Copy, Debug, PartialEq, Eq, Structural)]
pub struct RectI {
    pub left: i32,
    pub top: i32,
    pub right: i32,
    pub bottom: i32,
}

/// `v` is a value of `i32`.
pub open spec fn fits_i32(v: int) -> bool {
    i32::MIN <= v <= i32::MAX
}

impl RectI {
    /// Mathematical width, which may lie outside `i32`.
    pub open spec fn span_x(self) -> int {
        self.right - self.left
    }

    /// Mathematical height, which may lie outside `i32`.
    pub open spec fn span_y(self) -> int {
        self.bottom - self.top
    }

    /// Width and height are representable as `i32`.
    pub open spec fn sized(self) -> bool {
        fits_i32(self.span_x()) && fits_i32(self.span_y())
    }

    /// The rectangle covers no pixel.
    pub open spec fn empty(self) -> bool {
        self.span_x() <= 0 || self.span_y() <= 0
    }

    /// The pixel `(x, y)` lies inside the rectangle.
    pub open spec fn contains(self, x: int, y: int) -> bool {
        self.left <= x < self.right && self.top <= y < self.bottom
    }

    pub fn new(left: i32, top: i32, right: i32, bottom: i32) -> (r: Self)
        ensures
            r.left == left,
            r.top == top,
            r.right == right,
            r.bottom == bottom,
    {
        RectI { left, top, right, bottom }
    }
}

impl Default for RectI {
    fn default() -> (r: Self)
        ensures
            r.left == 0,
            r.top == 0,
            r.right == 0,
            r.bottom == 0,
    {
        RectI { left: 0, top: 0, right: 0, bottom: 0 }
    }
}

/// `v` limited to `[lo, hi]` (with `lo <= hi`).
pub open spec fn clamp_int(v: int, lo: int, hi: int) -> int {
    if v < lo {
        lo
    } else if v > hi {
        hi
    } else {
        v
    }
}

/// `s / 2` rounded toward zero, as integer division does.
pub open spec fn half_toward_zero(s: int) -> int {
    if s >= 0 {
        s / 2
    } else {
        -((-s) / 2)
    }
}

/// `value` limited to `[minimum, maximum]`; when the range is inverted, the
/// midpoint of the two limits instead.
pub open spec fn clamp_or_middle(value: int, minimum: int, maximum: int) -> int {
    if minimum <= maximum {
        clamp_int(value, minimum, maximum)
    } else {
        half_toward_zero(minimum + maximum)
    }
}

/// The margin that stays visible: at least one pixel.
pub open spec fn visible_margin(margin: int) -> int {
    if margin < 1 {
        1
    } else {
        margin
    }
}

/// `n / d` rounded to the nearest integer, halves away from zero (`d > 0`).
pub open spec fn round_half_away(n: int, d: int) -> int {
    if n >= 0 {
        (2 * n + d) / (2 * d)
    } else {
        -((-2 * n + d) / (2 * d))
    }
}

/// Length of an extent as used for zooming: at least one pixel.
pub open spec fn zoom_length(len: int) -> int {
    if len < 1 {
        1
    } else {
        len
    }
}

/// Offset of the cursor inside the old extent, limited to the extent.
pub open spec fn zoom_offset(cursor: int, start: int, len: int) -> int {
    clamp_int(cursor - start, 0, zoom_length(len))
}

/// The normalized selection of two corner points is their bounding box: it
/// holds exactly the pixels between the two points on each axis (the far
/// edges excluded), its edges are the smaller and larger coordinates, and
/// the order of the two points does not matter.
pub proof fn span_rect_is_bounding_box(a: PointI, b: PointI)
    ensures
        span_rect(a, b) == span_rect(b, a),
        span_rect(a, b).left <= a.x && span_rect(a, b).left <= b.x,
        span_rect(a, b).left == a.x || span_rect(a, b).left == b.x,
        span_rect(a, b).right >= a.x && span_rect(a, b).right >= b.x,
        span_rect(a, b).right == a.x || span_rect(a, b).right == b.x,
        span_rect(a, b).top <= a.y && span_rect(a, b).top <= b.y,
        span_rect(a, b).top == a.y || span_rect(a, b).top == b.y,
        span_rect(a, b).bottom >= a.y && span_rect(a, b).bottom >= b.y,
        span_rect(a, b).bottom == a.y || span_rect(a, b).bottom == b.y,
        span_rect(a, b).span_x() == max(a.x - b.x, b.x - a.x),
        span_rect(a, b).span_y() == max(a.y - b.y, b.y - a.y),
        forall|x: int, y: int|
            span_rect(a, b).contains(x, y) <==> (min(a.x as int, b.x as int) <= x < max(
                a.x as int,
                b.x as int,
            ) && min(a.y as int, b.y as int) <= y < max(a.y as int, b.y as int)),
{
}

/// Clamping keeps the required strip of the window visible: whenever the
/// window and `bounds` together are wide (high) enough for a strip of
/// `margin` pixels (at least one) on the axis, the clamped window, of its
/// own width (height), reaches at least that far into `bounds` from either
/// side.
pub proof fn clamp_keeps_margin_visible(window: RectI, bounds: RectI, margin: int)
    ensures
        ({
            let m = if margin < 1 {
                1
            } else {
                margin
            };
            let (x, y) = window.clamped_origin(bounds, margin);
            &&& window.span_x() + (bounds.right - bounds.left) >= 2 * m ==> x + window.span_x()
                >= bounds.left + m && x <= bounds.right - m
            &&& window.span_y() + (bounds.bottom - bounds.top) >= 2 * m ==> y + window.span_y()
                >= bounds.top + m && y <= bounds.bottom - m
            &&& window.span_x() + (bounds.right - bounds.left) >= 2 * m && window.left
                + window.span_x() >= bounds.left + m && window.left <= bounds.right - m ==> x
                == window.left
            &&& window.span_y() + (bounds.bottom - bounds.top) >= 2 * m && window.top
                + window.span_y() >= bounds.top + m && window.top <= bounds.bottom - m ==> y
                == window.top
        }),
{
}

/// Halving rounds toward zero: the half is within one half of `s / 2` and
/// never farther from zero than `s / 2`, with the sign of `s`.
pub proof fn half_toward_zero_is_truncated_half(s: int)
    ensures
        -1 <= s - 2 * half_toward_zero(s) <= 1,
        s >= 0 ==> 0 <= 2 * half_toward_zero(s) <= s,
        s < 0 ==> s <= 2 * half_toward_zero(s) <= 0,
{
}

/// Clamping with a proper range gives the nearest value of the range to
/// `value`; with an inverted range, the truncated midpoint of the limits.
pub proof fn clamp_or_middle_is_nearest_in_range(value: int, minimum: int, maximum: int)
    ensures
        minimum <= maximum ==> minimum <= clamp_or_middle(value, minimum, maximum) <= maximum,
        minimum <= value <= maximum ==> clamp_or_middle(value, minimum, maximum) == value,
        minimum <= maximum && value < minimum ==> clamp_or_middle(value, minimum, maximum)
            == minimum,
        minimum <= maximum && value > maximum ==> clamp_or_middle(value, minimum, maximum)
            == maximum,
        minimum > maximum ==> -1 <= (minimum + maximum) - 2 * clamp_or_middle(
            value,
            minimum,
            maximum,
        ) <= 1,
        minimum > maximum ==> maximum <= clamp_or_middle(value, minimum, maximum) <= minimum,
{
}

/// A window that already shows the required margin inside `bounds` keeps
/// its origin.
pub proof fn visible_window_keeps_origin(window: RectI, bounds: RectI, margin: int)
    requires
        window.min_origin_x(bounds, margin) <= window.left <= window.max_origin_x(bounds, margin),
        window.min_origin_y(bounds, margin) <= window.top <= window.max_origin_y(bounds, margin),
    ensures
        window.clamped_origin(bounds, margin) == (window.left as int, window.top as int),
{
}

/// Clamping is idempotent: a window moved to the clamped origin (same
/// size) is clamped to that same origin again.
pub proof fn clamp_origin_is_idempotent(window: RectI, bounds: RectI, margin: int)
    requires
        window.clamp_fits(bounds, margin),
        fits_i32(window.clamped_origin(bounds, margin).0 + window.span_x()),
        fits_i32(window.clamped_origin(bounds, margin).1 + window.span_y()),
    ensures
        ({
            let (x, y) = window.clamped_origin(bounds, margin);
            let moved = RectI {
                left: x as i32,
                top: y as i32,
                right: (x + window.span_x()) as i32,
                bottom: (y + window.span_y()) as i32,
            };
            moved.clamped_origin(bounds, margin) == (x, y)
        }),
{
    let (x, y) = window.clamped_origin(bounds, margin);
    let lo_x = window.min_origin_x(bounds, margin);
    let hi_x = window.max_origin_x(bounds, margin);
    let lo_y = window.min_origin_y(bounds, margin);
    let hi_y = window.max_origin_y(bounds, margin);
    assert(fits_i32(x)) by {
        if lo_x > hi_x {
            assert(fits_i32(half_toward_zero(lo_x + hi_x)));
        }
    }
    assert(fits_i32(y)) by {
        if lo_y > hi_y {
            assert(fits_i32(half_toward_zero(lo_y + hi_y)));
        }
    }
}

/// The normalized rectangle with corners `a` and `b`.
pub open spec fn span_rect(a: PointI, b: PointI) -> RectI {
    RectI {
        left: if a.x < b.x { a.x } else { b.x },
        top: if a.y < b.y { a.y } else { b.y },
        right: if a.x < b.x { b.x } else { a.x },
        bottom: if a.y < b.y { b.y } else { a.y },
    }
}

impl RectI {
    /// Normalized rectangle spanned by two corner points.
    pub fn from_points(a: PointI, b: PointI) -> (r: Self)
        ensures
            r == span_rect(a, b),
            r.left <= r.right,
            r.top <= r.bottom,
            r.left == min(a.x as int, b.x as int),
            r.right == max(a.x as int, b.x as int),
            r.top == min(a.y as int, b.y as int),
            r.bottom == max(a.y as int, b.y as int),
    {
        RectI {
            left: if a.x < b.x { a.x } else { b.x },
            top: if a.y < b.y { a.y } else { b.y },
            right: if a.x < b.x { b.x } else { a.x },
            bottom: if a.y < b.y { b.y } else { a.y },
        }
    }

    pub fn width(self) -> (w: i32)
        requires
            fits_i32(self.span_x()),
        ensures
            w == self.span_x(),
    {
        self.right - self.left
    }

    pub fn height(self) -> (h: i32)
        requires
            fits_i32(self.span_y()),
        ensures
            h == self.span_y(),
    {
        self.bottom - self.top
    }

    pub fn is_empty(self) -> (b: bool)
        requires
            self.sized(),
        ensures
            b == self.empty(),
    {
        self.width() <= 0 || self.height() <= 0
    }

    /// Every edge of the rectangle moved by `(dx, dy)` is an `i32`.
    pub open spec fn shifted(self, dx: int, dy: int) -> bool {
        fits_i32(self.left + dx) && fits_i32(self.top + dy) && fits_i32(self.right + dx)
            && fits_i32(self.bottom + dy)
    }

    pub fn translated(self, dx: i32, dy: i32) -> (r: Self)
        requires
            self.shifted(dx as int, dy as int),
        ensures
            r.left == self.left + dx,
            r.top == self.top + dy,
            r.right == self.right + dx,
            r.bottom == self.bottom + dy,
            r.span_x() == self.span_x(),
            r.span_y() == self.span_y(),
    {
        RectI {
            left: self.left + dx,
            top: self.top + dy,
            right: self.right + dx,
            bottom: self.bottom + dy,
        }
    }

    /// Smallest left edge that still shows `margin` pixels inside `bounds`.
    pub open spec fn min_origin_x(self, bounds: RectI, margin: int) -> int {
        bounds.left - self.span_x() + visible_margin(margin)
    }

    /// Largest left edge that still shows `margin` pixels inside `bounds`.
    pub open spec fn max_origin_x(self, bounds: RectI, margin: int) -> int {
        bounds.right - visible_margin(margin)
    }

    pub open spec fn min_origin_y(self, bounds: RectI, margin: int) -> int {
        bounds.top - self.span_y() + visible_margin(margin)
    }

    pub open spec fn max_origin_y(self, bounds: RectI, margin: int) -> int {
        bounds.bottom - visible_margin(margin)
    }

    /// Every intermediate value of `clamp_origin_inside` is an `i32`.
    pub open spec fn clamp_fits(self, bounds: RectI, margin: int) -> bool {
        &&& self.sized()
        &&& fits_i32(bounds.left - self.span_x())
        &&& fits_i32(bounds.top - self.span_y())
        &&& fits_i32(self.min_origin_x(bounds, margin))
        &&& fits_i32(self.max_origin_x(bounds, margin))
        &&& fits_i32(self.min_origin_y(bounds, margin))
        &&& fits_i32(self.max_origin_y(bounds, margin))
    }

    /// Origin `clamp_origin_inside` gives, as integers.
    pub open spec fn clamped_origin(self, bounds: RectI, margin: int) -> (int, int) {
        (
            clamp_or_middle(
                self.left as int,
                self.min_origin_x(bounds, margin),
                self.max_origin_x(bounds, margin),
            ),
            clamp_or_middle(
                self.top as int,
                self.min_origin_y(bounds, margin),
                self.max_origin_y(bounds, margin),
            ),
        )
    }

    /// Origin for this window so that at least `visible_margin` (at least
    /// one) pixels of it stay inside `bounds` on each axis. Where `bounds`
    /// is too small for that, the origin is the middle of the inverted range.
    pub fn clamp_origin_inside(self, bounds: Self, visible_margin: i32) -> (p: PointI)
        requires
            self.clamp_fits(bounds, visible_margin as int),
        ensures
            ({
                let m: int = if visible_margin < 1 {
                    1
                } else {
                    visible_margin as int
                };
                &&& self.span_x() + (bounds.right - bounds.left) >= 2 * m ==> p.x + self.span_x()
                    >= bounds.left + m && p.x <= bounds.right - m
                &&& self.span_y() + (bounds.bottom - bounds.top) >= 2 * m ==> p.y + self.span_y()
                    >= bounds.top + m && p.y <= bounds.bottom - m
            }),
            (p.x as int, p.y as int) == self.clamped_origin(bounds, visible_margin as int),
            self.min_origin_x(bounds, visible_margin as int) <= self.max_origin_x(
                bounds,
                visible_margin as int,
            ) ==> self.min_origin_x(bounds, visible_margin as int) <= p.x <= self.max_origin_x(
                bounds,
                visible_margin as int,
            ),
            self.min_origin_y(bounds, visible_margin as int) <= self.max_origin_y(
                bounds,
                visible_margin as int,
            ) ==> self.min_origin_y(bounds, visible_margin as int) <= p.y <= self.max_origin_y(
                bounds,
                visible_margin as int,
            ),
    {
        let width = self.width();
        let height = self.height();
        let margin = if visible_margin < 1 { 1 } else { visible_margin };

        let min_x = bounds.left - width + margin;
        let max_x = bounds.right - margin;
        let min_y = bounds.top - height + margin;
        let max_y = bounds.bottom - margin;

        PointI {
            x: clamp_even_if_inverted(self.left, min_x, max_x),
            y: clamp_even_if_inverted(self.top, min_y, max_y),
        }
    }
}

/// `value` limited to `[minimum, maximum]`, or the midpoint of the limits
/// (rounded toward zero) when `minimum > maximum`.
pub fn clamp_even_if_inverted(value: i32, minimum: i32, maximum: i32) -> (r: i32)
    ensures
        r == clamp_or_middle(value as int, minimum as int, maximum as int),
{
    if minimum <= maximum {
        if value < minimum {
            minimum
        } else if value > maximum {
            maximum
        } else {
            value
        }
    } else {
        midpoint(minimum, maximum)
    }
}

/// `(a + b) / 2`, rounded toward zero, without overflow.
pub fn midpoint(a: i32, b: i32) -> (m: i32)
    ensures
        m == half_toward_zero(a + b),
{
    let sum: i64 = a as i64 + b as i64;
    if sum >= 0 {
        (sum / 2) as i32
    } else {
        let half: i64 = (-sum) / 2;
        (-half) as i32
    }
}

/// Where the cursor sits inside a window that is about to be zoomed: its
/// offset from the left and top edges, limited to the window, and the
/// window's width and height, at least one pixel each. The cursor's
/// fraction of the window, `offset / extent`, lies in `[0, 1]`; the zoomed
/// window is placed so that the cursor keeps that fraction.
#[derive(Clone, Copy, Debug, PartialEq, Eq, Structural)]
pub struct ZoomAnchor {
    pub offset_x: i32,
    pub offset_y: i32,
    pub width: i32,
    pub height: i32,
}

/// The cursor's clamped offset inside `old_rect` and the rectangle's
/// extents (at least one pixel), from which a zoom keeps the cursor anchored.
pub fn zoom_anchor(old_rect: RectI, cursor: PointI) -> (a: ZoomAnchor)
    requires
        old_rect.sized(),
        fits_i32(cursor.x - old_rect.left),
        fits_i32(cursor.y - old_rect.top),
    ensures
        a.width == zoom_length(old_rect.span_x()),
        a.height == zoom_length(old_rect.span_y()),
        a.offset_x == zoom_offset(cursor.x as int, old_rect.left as int, old_rect.span_x()),
        a.offset_y == zoom_offset(cursor.y as int, old_rect.top as int, old_rect.span_y()),
        1 <= a.width && 0 <= a.offset_x <= a.width,
        1 <= a.height && 0 <= a.offset_y <= a.height,
        old_rect.span_x() >= 1 ==> a.width == old_rect.span_x(),
        old_rect.span_y() >= 1 ==> a.height == old_rect.span_y(),
        0 <= cursor.x - old_rect.left <= a.width ==> a.offset_x == cursor.x - old_rect.left,
        cursor.x - old_rect.left < 0 ==> a.offset_x == 0,
        cursor.x - old_rect.left > a.width ==> a.offset_x == a.width,
        0 <= cursor.y - old_rect.top <= a.height ==> a.offset_y == cursor.y - old_rect.top,
        cursor.y - old_rect.top < 0 ==> a.offset_y == 0,
        cursor.y - old_rect.top > a.height ==> a.offset_y == a.height,
{
    let old_width = old_rect.width();
    let old_height = old_rect.height();
    let width = if old_width < 1 { 1 } else { old_width };
    let height = if old_height < 1 { 1 } else { old_height };
    let dx = cursor.x - old_rect.left;
    let dy = cursor.y - old_rect.top;
    ZoomAnchor {
        offset_x: if dx < 0 { 0 } else if dx > width { width } else { dx },
        offset_y: if dy < 0 { 0 } else if dy > height { height } else { dy },
        width,
        height,
    }
}

} // verus!
