use vstd::prelude::*;
use crate::geometry::PointI;
use crate::geometry::RectI;
use crate::geometry::fits_i32;
use crate::geometry::half_toward_zero;
use crate::geometry::midpoint;
use crate::geometry::round_half_away;
use crate::overlay::point_from_lparam;
use crate::overlay::point_from_lparam_spec;
use crate::overlay::sign_extend_16;
use vstd::arithmetic::div_mod::lemma_div_is_ordered;
use vstd::arithmetic::div_mod::lemma_div_pos_is_pos;
use vstd::arithmetic::div_mod::lemma_fundamental_div_mod;
use vstd::arithmetic::div_mod::lemma_mod_pos_bound;
use vstd::math::max;
use vstd::math::min;

verus! {

/// Opacity of a freshly pinned image.
pub const DEFAULT_OPACITY: u8 = 255;

/// The most transparent a pinned image can get.
pub const MIN_OPACITY: u8 = 32;

/// Wheel distance of one notch.
pub const WHEEL_NOTCH: i32 = 120;

/// Opacity change for one wheel notch.
pub const OPACITY_PER_NOTCH: i32 = 16;

/// Pixels of a pinned image kept on its monitor's work area when it is
/// brought back on screen.
pub const ONSCREEN_MARGIN: i32 = 32;

/// Signed wheel distance in the high word of a wheel message's `WPARAM`.
pub fn wheel_delta(wparam: usize) -> (delta: i32)
    ensures
        delta == sign_extend_16(((wparam as int) / 0x10000) % 0x10000),
{
    let high = (wparam >> 16usize) & 0xffff;
    assert(high == (wparam / 0x10000) % 0x10000) by (bit_vector)
        requires high == (wparam >> 16usize) & 0xffff;
    let delta = high as u16 as i16 as i32;
    assert(high >= 0x8000 ==> delta == high - 0x10000) by (bit_vector)
        requires delta == high as u16 as i16 as i32, high < 0x10000;
    assert(high < 0x8000 ==> delta == high) by (bit_vector)
        requires delta == high as u16 as i16 as i32, high < 0x10000;
    delta
}

/// Key-state flags in the low word of a wheel message's `WPARAM`.
pub fn wheel_keys(wparam: usize) -> (keys: u32)
    ensures
        keys == (wparam as int) % 0x10000,
{
    let low = wparam & 0xffff;
    assert(low == wparam % 0x10000) by (bit_vector)
        requires low == wparam & 0xffff;
    low as u32
}

/// Opacity after a wheel turn of `delta` (in `WHEEL_NOTCH` units per
/// notch): `OPACITY_PER_NOTCH` per notch, rounded to the nearest step with
/// halves away from zero, kept within `[MIN_OPACITY, 255]`.
pub open spec fn wheel_opacity(opacity: int, delta: int) -> int {
    let change = round_half_away(delta * OPACITY_PER_NOTCH, WHEEL_NOTCH as int);
    let raised = opacity + change;
    if raised < MIN_OPACITY {
        MIN_OPACITY as int
    } else if raised > 255 {
        255
    } else {
        raised
    }
}

/// The opacity a Ctrl+wheel turn of `delta` gives.
pub fn opacity_after_wheel(opacity: u8, delta: i32) -> (r: u8)
    ensures
        r == wheel_opacity(opacity as int, delta as int),
        MIN_OPACITY <= r <= 255,
{
    assert(OPACITY_PER_NOTCH == 16 && WHEEL_NOTCH == 120);
    // OPACITY_PER_NOTCH steps per WHEEL_NOTCH of travel.
    let n: i64 = delta as i64 * 16;
    let d: i64 = 120;
    assert(-0x8_0000_0000 <= n <= 0x8_0000_0000);
    let change: i64 = if n >= 0 {
        (2 * n + d) / (2 * d)
    } else {
        let m: i64 = -n;
        -((2 * m + d) / (2 * d))
    };
    assert(-0x1_0000_0000 <= change <= 0x1_0000_0000) by (nonlinear_arith)
        requires
            n >= 0 ==> change == (2 * n + d) / (2 * d),
            n < 0 ==> change == -((-2 * n + d) / (2 * d)),
            d == 120,
            -0x10_0000_0000 <= n <= 0x10_0000_0000,
    ;
    let raised: i64 = opacity as i64 + change;
    if raised < MIN_OPACITY as i64 {
        MIN_OPACITY
    } else if raised > 255 {
        255
    } else {
        raised as u8
    }
}

/// Rounding to the nearest integer is monotone.
pub proof fn round_half_away_is_monotone(n1: int, n2: int, d: int)
    requires
        n1 <= n2,
        d > 0,
    ensures
        round_half_away(n1, d) <= round_half_away(n2, d),
{
    if n1 >= 0 {
        lemma_div_is_ordered(2 * n1 + d, 2 * n2 + d, 2 * d);
    } else if n2 >= 0 {
        lemma_div_pos_is_pos(-2 * n1 + d, 2 * d);
        lemma_div_pos_is_pos(2 * n2 + d, 2 * d);
    } else {
        lemma_div_is_ordered(-2 * n2 + d, -2 * n1 + d, 2 * d);
    }
}

/// Turning the wheel further up never makes an image more transparent,
/// and one notch up or down from the middle range changes the opacity by
/// exactly `OPACITY_PER_NOTCH`.
pub proof fn wheel_opacity_is_monotone(opacity: int, delta1: int, delta2: int)
    requires
        delta1 <= delta2,
    ensures
        wheel_opacity(opacity, delta1) <= wheel_opacity(opacity, delta2),
        MIN_OPACITY + OPACITY_PER_NOTCH <= opacity <= 255 - OPACITY_PER_NOTCH ==> wheel_opacity(
            opacity,
            WHEEL_NOTCH as int,
        ) == opacity + OPACITY_PER_NOTCH && wheel_opacity(opacity, -WHEEL_NOTCH)
            == opacity - OPACITY_PER_NOTCH,
        wheel_opacity(opacity, 0) == if opacity < MIN_OPACITY {
            MIN_OPACITY as int
        } else if opacity > 255 {
            255
        } else {
            opacity
        },
{
    assert(delta1 * OPACITY_PER_NOTCH <= delta2 * OPACITY_PER_NOTCH) by (nonlinear_arith)
        requires
            delta1 <= delta2,
    ;
    round_half_away_is_monotone(delta1 * OPACITY_PER_NOTCH, delta2 * OPACITY_PER_NOTCH, 120);
    assert((2 * 1920 + 120) / (2 * 120) == 16) by (nonlinear_arith);
    assert(round_half_away(0int, 120) == 0) by (nonlinear_arith);
}

/// `round_half_away(n, d)` is an integer nearest to `n / d`: its error is
/// at most one half.
pub proof fn round_half_away_is_nearest(n: int, d: int)
    requires
        d > 0,
    ensures
        -d <= 2 * (n - d * round_half_away(n, d)) <= d,
{
    let dd = 2 * d;
    if n >= 0 {
        let x = 2 * n + d;
        lemma_fundamental_div_mod(x, dd);
        lemma_mod_pos_bound(x, dd);
        let q = x / dd;
        assert(dd * q == 2 * (d * q)) by (nonlinear_arith)
            requires
                dd == 2 * d,
        ;
    } else {
        let x = -2 * n + d;
        lemma_fundamental_div_mod(x, dd);
        lemma_mod_pos_bound(x, dd);
        let q = x / dd;
        assert(dd * q == 2 * (d * q)) by (nonlinear_arith)
            requires
                dd == 2 * d,
        ;
        assert(d * (-q) == -(d * q)) by (nonlinear_arith);
    }
}

/// A wheel turn moves the opacity to the nearest whole step of the exact
/// change `delta * 16 / 120`, stopped at the limits: the result lies in
/// `[32, 255]`; strictly between the limits it differs from
/// `opacity + delta * 16 / 120` by at most one half; at 255 that exact value
/// is at least 254.5, and at 32 it is at most 32.5.
pub proof fn wheel_opacity_is_nearest_step(opacity: int, delta: int)
    ensures
        ({
            let r = wheel_opacity(opacity, delta);
            &&& 32 <= r <= 255
            &&& 32 < r < 255 ==> -120 <= 2 * (120 * (r - opacity) - 16 * delta) <= 120
            &&& r == 255 ==> 2 * (120 * (255 - opacity) - 16 * delta) <= 120
            &&& r == 32 ==> 2 * (16 * delta - 120 * (32 - opacity)) <= 120
        }),
{
    round_half_away_is_nearest(delta * 16, 120);
}

/// One wheel notch changes any opacity in range by exactly 16, up or down,
/// unless a limit (32 or 255) is reached first.
pub proof fn one_notch_is_sixteen(opacity: int)
    requires
        32 <= opacity <= 255,
    ensures
        wheel_opacity(opacity, 120) == min(opacity + 16, 255),
        wheel_opacity(opacity, -120) == max(opacity - 16, 32),
{
    round_half_away_is_nearest(1920, 120);
    round_half_away_is_nearest(-1920, 120);
}

/// Interaction state of a pinned image window (its zoom factor is kept by
/// the window itself).
pub struct PinControl {
    /// Window opacity.
    pub opacity: u8,
    /// The window is being dragged with the left button.
    pub dragging: bool,
    /// Screen position of the cursor when the drag started.
    pub drag_cursor: PointI,
    /// Window origin when the drag started.
    pub drag_origin: PointI,
    /// The window stays above other windows.
    pub always_on_top: bool,
}

impl PinControl {
    /// A freshly pinned image: opaque, on top, not dragged.
    pub fn new() -> (c: Self)
        ensures
            c.opacity == DEFAULT_OPACITY,
            !c.dragging,
            c.drag_cursor == (PointI { x: 0, y: 0 }),
            c.drag_origin == (PointI { x: 0, y: 0 }),
            c.always_on_top,
    {
        PinControl {
            opacity: DEFAULT_OPACITY,
            dragging: false,
            drag_cursor: PointI { x: 0, y: 0 },
            drag_origin: PointI { x: 0, y: 0 },
            always_on_top: true,
        }
    }

    /// A drag starts with the cursor at `cursor` and the window at `origin`.
    pub fn begin_drag(&mut self, cursor: PointI, origin: PointI)
        ensures
            final(self).dragging,
            final(self).drag_cursor == cursor,
            final(self).drag_origin == origin,
            final(self).opacity == old(self).opacity,
            final(self).always_on_top == old(self).always_on_top,
    {
        self.dragging = true;
        self.drag_cursor = cursor;
        self.drag_origin = origin;
    }

    /// The drag ends (button released or mouse capture lost).
    pub fn end_drag(&mut self)
        ensures
            !final(self).dragging,
            final(self).drag_cursor == old(self).drag_cursor,
            final(self).drag_origin == old(self).drag_origin,
            final(self).opacity == old(self).opacity,
            final(self).always_on_top == old(self).always_on_top,
    {
        self.dragging = false;
    }

    /// Window origin that follows the cursor at `cursor`: the drag start
    /// origin moved by the cursor's travel.
    pub open spec fn follow(self, cursor: PointI) -> (int, int) {
        (
            self.drag_origin.x + cursor.x - self.drag_cursor.x,
            self.drag_origin.y + cursor.y - self.drag_cursor.y,
        )
    }

    /// Moving to `cursor` computes only `i32` values.
    pub open spec fn follow_fits(self, cursor: PointI) -> bool {
        self.dragging ==> fits_i32(self.drag_origin.x + cursor.x) && fits_i32(
            self.follow(cursor).0,
        ) && fits_i32(self.drag_origin.y + cursor.y) && fits_i32(self.follow(cursor).1)
    }

    /// Where the window goes when the cursor moves to `cursor`: nowhere
    /// unless it is being dragged.
    pub fn drag_target(&self, cursor: PointI) -> (target: Option<PointI>)
        requires
            self.follow_fits(cursor),
        ensures
            !self.dragging ==> target.is_none(),
            self.dragging ==> target.is_some() && (target.unwrap().x as int, target.unwrap().y as int)
                == self.follow(cursor),
    {
        if !self.dragging {
            return None;
        }
        Some(
            PointI {
                x: self.drag_origin.x + cursor.x - self.drag_cursor.x,
                y: self.drag_origin.y + cursor.y - self.drag_cursor.y,
            },
        )
    }

    /// Toggles whether the window stays on top; returns the new setting.
    pub fn toggle_always_on_top(&mut self) -> (on_top: bool)
        ensures
            on_top == !old(self).always_on_top,
            final(self).always_on_top == on_top,
            final(self).opacity == old(self).opacity,
            final(self).dragging == old(self).dragging,
            final(self).drag_cursor == old(self).drag_cursor,
            final(self).drag_origin == old(self).drag_origin,
    {
        self.always_on_top = !self.always_on_top;
        self.always_on_top
    }

    /// Applies a Ctrl+wheel turn of `delta`; returns the new opacity.
    pub fn turn_opacity(&mut self, delta: i32) -> (opacity: u8)
        ensures
            opacity == wheel_opacity(old(self).opacity as int, delta as int),
            final(self).opacity == opacity,
            final(self).dragging == old(self).dragging,
            final(self).drag_cursor == old(self).drag_cursor,
            final(self).drag_origin == old(self).drag_origin,
            final(self).always_on_top == old(self).always_on_top,
    {
        self.opacity = opacity_after_wheel(self.opacity, delta);
        self.opacity
    }
}

/// Dragging moves the window rigidly with the cursor: the grab point stays
/// under the cursor, and two cursor positions give window positions that
/// differ by the same amount.
pub proof fn drag_follows_cursor(control: PinControl, c1: PointI, c2: PointI)
    ensures
        control.follow(control.drag_cursor) == (
            control.drag_origin.x as int,
            control.drag_origin.y as int,
        ),
        control.follow(c2).0 - control.follow(c1).0 == c2.x - c1.x,
        control.follow(c2).1 - control.follow(c1).1 == c2.y - c1.y,
{
}

/// Center of a window rectangle (each coordinate rounded toward zero).
pub fn rect_center(rect: RectI) -> (p: PointI)
    requires
        fits_i32(rect.left + rect.right),
        fits_i32(rect.top + rect.bottom),
    ensures
        p.x == half_toward_zero(rect.left + rect.right),
        p.y == half_toward_zero(rect.top + rect.bottom),
{
    PointI { x: midpoint(rect.left, rect.right), y: midpoint(rect.top, rect.bottom) }
}

/// Where the context menu opens: at the point packed in `lparam`, or at the
/// window's center when the menu was asked for from the keyboard
/// (`lparam == -1`).
pub fn context_menu_anchor(lparam: isize, window: RectI) -> (p: PointI)
    requires
        lparam == -1 ==> fits_i32(window.left + window.right) && fits_i32(
            window.top + window.bottom,
        ),
    ensures
        lparam == -1 ==> p.x == half_toward_zero(window.left + window.right) && p.y
            == half_toward_zero(window.top + window.bottom),
        lparam != -1 ==> p == point_from_lparam_spec(lparam),
{
    if lparam == -1 {
        rect_center(window)
    } else {
        point_from_lparam(lparam)
    }
}

/// Origin that centers a `width x height` window in `work`.
pub fn centered_origin(work: RectI, width: i32, height: i32) -> (p: PointI)
    requires
        work.sized(),
        fits_i32(work.span_x() - width),
        fits_i32(work.span_y() - height),
        fits_i32(work.left + half_toward_zero(work.span_x() - width)),
        fits_i32(work.top + half_toward_zero(work.span_y() - height)),
    ensures
        p.x == work.left + half_toward_zero(work.span_x() - width),
        p.y == work.top + half_toward_zero(work.span_y() - height),
{
    let available_width = work.width();
    let available_height = work.height();
    PointI {
        x: work.left + midpoint(available_width - width, 0),
        y: work.top + midpoint(available_height - height, 0),
    }
}

} // verus!
