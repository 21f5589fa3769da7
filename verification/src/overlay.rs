use vstd::prelude::*;
use vstd::math::max;
use vstd::math::min;
use crate::geometry::PointI;
use crate::geometry::RectI;
use crate::geometry::span_rect;
use crate::geometry::fits_i32;

verus! {

/// A GDI `COLORREF` built from its red, green and blue channels.
pub fn rgb(red: u8, green: u8, blue: u8) -> (c: u32)
    ensures
        c == red + 256 * green + 65536 * blue,
{
    let c: u32 = red as u32 | ((green as u32) << 8u32) | ((blue as u32) << 16u32);
    assert(red as u32 | ((green as u32) << 8u32) | ((blue as u32) << 16u32) == red + 256 * green
        + 65536 * blue) by (bit_vector);
    c
}

/// Sign extension of a 16-bit word.
pub open spec fn sign_extend_16(v: int) -> int {
    if v >= 0x8000 {
        v - 0x10000
    } else {
        v
    }
}

/// The point whose coordinates are the sign-extended low and high words of
/// `lparam`.
pub open spec fn point_from_lparam_spec(lparam: isize) -> PointI {
    PointI {
        x: sign_extend_16((lparam as int) % 0x10000) as i32,
        y: sign_extend_16(((lparam as int) / 0x10000) % 0x10000) as i32,
    }
}

/// The signed coordinates packed into the low and high words of a mouse
/// message's `LPARAM`.
pub fn point_from_lparam(lparam: isize) -> (p: PointI)
    ensures
        p.x == sign_extend_16((lparam as int) % 0x10000),
        p.y == sign_extend_16(((lparam as int) / 0x10000) % 0x10000),
        p == point_from_lparam_spec(lparam),
{
    let low = lparam as u32 & 0xffff;
    let high = (lparam as u32 >> 16u32) & 0xffff;
    assert(low == lparam % 0x10000) by (bit_vector)
        requires low == lparam as u32 & 0xffff;
    assert(high == (lparam / 0x10000) % 0x10000) by (bit_vector)
        requires high == (lparam as u32 >> 16u32) & 0xffff;
    let x = low as u16 as i16 as i32;
    let y = high as u16 as i16 as i32;
    assert(low >= 0x8000 ==> x == low - 0x10000) by (bit_vector)
        requires x == low as u16 as i16 as i32, low < 0x10000;
    assert(low < 0x8000 ==> x == low) by (bit_vector)
        requires x == low as u16 as i16 as i32, low < 0x10000;
    assert(high >= 0x8000 ==> y == high - 0x10000) by (bit_vector)
        requires y == high as u16 as i16 as i32, high < 0x10000;
    assert(high < 0x8000 ==> y == high) by (bit_vector)
        requires y == high as u16 as i16 as i32, high < 0x10000;
    PointI { x, y }
}

/// Thickness of the selection border in pixels.
pub const BORDER_WIDTH: i32 = 2;

/// Overlap of two rectangles (empty when they do not overlap).
pub open spec fn overlap(a: RectI, b: RectI) -> RectI {
    RectI {
        left: if a.left < b.left { b.left } else { a.left },
        top: if a.top < b.top { b.top } else { a.top },
        right: if a.right < b.right { a.right } else { b.right },
        bottom: if a.bottom < b.bottom { a.bottom } else { b.bottom },
    }
}

/// Overlap of two rectangles.
pub fn intersect(a: RectI, b: RectI) -> (r: RectI)
    ensures
        r == overlap(a, b),
        forall|x: int, y: int| r.contains(x, y) <==> a.contains(x, y) && b.contains(x, y),
{
    RectI {
        left: if a.left < b.left { b.left } else { a.left },
        top: if a.top < b.top { b.top } else { a.top },
        right: if a.right < b.right { a.right } else { b.right },
        bottom: if a.bottom < b.bottom { a.bottom } else { b.bottom },
    }
}

/// Some rectangle of `parts` contains the pixel `(x, y)`.
pub open spec fn covers(parts: Seq<RectI>, x: int, y: int) -> bool {
    exists|i: int| #![trigger parts[i]] 0 <= i < parts.len() && parts[i].contains(x, y)
}

/// `parts` with `r` appended unless `r` is empty.
pub open spec fn keep_nonempty(parts: Seq<RectI>, r: RectI) -> Seq<RectI> {
    if r.empty() {
        parts
    } else {
        parts.push(r)
    }
}

/// Every rectangle of `parts` is non-empty and lies inside `outer`.
pub open spec fn nonempty_within(parts: Seq<RectI>, outer: RectI) -> bool {
    forall|i: int|
        #![trigger parts[i]]
        0 <= i < parts.len() ==> !parts[i].empty() && outer.left <= parts[i].left
            && parts[i].right <= outer.right && outer.top <= parts[i].top && parts[i].bottom
            <= outer.bottom
}

/// The strips of `rect` outside `other`, in the order top, bottom, left,
/// right, empty ones left out.
pub open spec fn difference_parts(rect: RectI, other: RectI) -> Seq<RectI> {
    let i = overlap(rect, other);
    if rect.empty() {
        Seq::empty()
    } else if i.empty() {
        seq![rect]
    } else {
        keep_nonempty(
            keep_nonempty(
                keep_nonempty(
                    keep_nonempty(
                        Seq::empty(),
                        RectI { left: rect.left, top: rect.top, right: rect.right, bottom: i.top },
                    ),
                    RectI {
                        left: rect.left,
                        top: i.bottom,
                        right: rect.right,
                        bottom: rect.bottom,
                    },
                ),
                RectI { left: rect.left, top: i.top, right: i.left, bottom: i.bottom },
            ),
            RectI { left: i.right, top: i.top, right: rect.right, bottom: i.bottom },
        )
    }
}

/// The sizes that `difference_regions` computes are `i32`s.
pub open spec fn difference_fits(rect: RectI, other: RectI) -> bool {
    rect.sized() && (!rect.empty() ==> overlap(rect, other).sized())
}

proof fn lemma_covers_empty(x: int, y: int)
    ensures
        !covers(Seq::<RectI>::empty(), x, y),
{
}

proof fn lemma_covers_keep(parts: Seq<RectI>, r: RectI, x: int, y: int)
    ensures
        covers(keep_nonempty(parts, r), x, y) == (covers(parts, x, y) || r.contains(x, y)),
{
    if !r.empty() {
        let pushed = parts.push(r);
        if covers(parts, x, y) {
            let i = choose|i: int| #![trigger parts[i]] 0 <= i < parts.len() && parts[i].contains(x, y);
            assert(pushed[i] == parts[i]);
        }
        if r.contains(x, y) {
            assert(pushed[parts.len() as int] == r);
        }
        if covers(pushed, x, y) {
            let i = choose|i: int| #![trigger pushed[i]] 0 <= i < pushed.len() && pushed[i].contains(x, y);
            if i < parts.len() {
                assert(pushed[i] == parts[i]);
            }
        }
    }
}

proof fn lemma_covers_concat(a: Seq<RectI>, b: Seq<RectI>, x: int, y: int)
    ensures
        covers(a + b, x, y) == (covers(a, x, y) || covers(b, x, y)),
{
    let ab = a + b;
    if covers(a, x, y) {
        let i = choose|i: int| #![trigger a[i]] 0 <= i < a.len() && a[i].contains(x, y);
        assert(ab[i] == a[i]);
    }
    if covers(b, x, y) {
        let i = choose|i: int| #![trigger b[i]] 0 <= i < b.len() && b[i].contains(x, y);
        assert(ab[a.len() + i] == b[i]);
    }
    if covers(ab, x, y) {
        let i = choose|i: int| #![trigger ab[i]] 0 <= i < ab.len() && ab[i].contains(x, y);
        if i < a.len() {
            assert(ab[i] == a[i]);
        } else {
            assert(ab[i] == b[i - a.len()]);
        }
    }
}

proof fn lemma_nonempty_within_keep(parts: Seq<RectI>, r: RectI, outer: RectI)
    requires
        nonempty_within(parts, outer),
        outer.left <= r.left,
        r.right <= outer.right,
        outer.top <= r.top,
        r.bottom <= outer.bottom,
    ensures
        nonempty_within(keep_nonempty(parts, r), outer),
{
    if !r.empty() {
        let pushed = parts.push(r);
        assert forall|i: int| #![trigger pushed[i]] 0 <= i < pushed.len() implies !pushed[i].empty()
            && outer.left <= pushed[i].left && pushed[i].right <= outer.right && outer.top
            <= pushed[i].top && pushed[i].bottom <= outer.bottom by {
            if i < parts.len() {
                assert(pushed[i] == parts[i]);
            }
        }
    }
}

/// The difference strips cover exactly the pixels of `rect` outside
/// `other`, and each is a non-empty part of `rect`.
pub proof fn difference_covers_exactly(rect: RectI, other: RectI, x: int, y: int)
    ensures
        covers(difference_parts(rect, other), x, y) <==> rect.contains(x, y) && !other.contains(
            x,
            y,
        ),
        nonempty_within(difference_parts(rect, other), rect),
{
    let i = overlap(rect, other);
    if rect.empty() {
        lemma_covers_empty(x, y);
    } else if i.empty() {
        let parts = seq![rect];
        if covers(parts, x, y) {
            let k = choose|k: int| #![trigger parts[k]] 0 <= k < parts.len() && parts[k].contains(x, y);
            assert(parts[k] == rect);
        }
        if rect.contains(x, y) {
            assert(parts[0] == rect);
        }
    } else {
        let top = RectI { left: rect.left, top: rect.top, right: rect.right, bottom: i.top };
        let bottom = RectI { left: rect.left, top: i.bottom, right: rect.right, bottom: rect.bottom };
        let left = RectI { left: rect.left, top: i.top, right: i.left, bottom: i.bottom };
        let right = RectI { left: i.right, top: i.top, right: rect.right, bottom: i.bottom };
        let s0 = Seq::<RectI>::empty();
        let s1 = keep_nonempty(s0, top);
        let s2 = keep_nonempty(s1, bottom);
        let s3 = keep_nonempty(s2, left);
        lemma_covers_empty(x, y);
        lemma_covers_keep(s0, top, x, y);
        lemma_covers_keep(s1, bottom, x, y);
        lemma_covers_keep(s2, left, x, y);
        lemma_covers_keep(s3, right, x, y);
        lemma_nonempty_within_keep(s0, top, rect);
        lemma_nonempty_within_keep(s1, bottom, rect);
        lemma_nonempty_within_keep(s2, left, rect);
        lemma_nonempty_within_keep(s3, right, rect);
    }
}


/// The two rectangles share no pixel because one lies entirely to one side
/// of the other.
pub open spec fn separated(a: RectI, b: RectI) -> bool {
    a.right <= b.left || b.right <= a.left || a.bottom <= b.top || b.bottom <= a.top
}

/// No two rectangles of `parts` share a pixel.
pub open spec fn pairwise_separated(parts: Seq<RectI>) -> bool {
    forall|i: int, j: int|
        #![trigger parts[i], parts[j]]
        0 <= i < j < parts.len() ==> separated(parts[i], parts[j])
}

proof fn lemma_separated_keep(parts: Seq<RectI>, r: RectI)
    requires
        pairwise_separated(parts),
        forall|i: int| #![trigger parts[i]] 0 <= i < parts.len() ==> separated(parts[i], r),
    ensures
        pairwise_separated(keep_nonempty(parts, r)),
{
    if !r.empty() {
        let pushed = parts.push(r);
        assert forall|i: int, j: int| #![trigger pushed[i], pushed[j]] 0 <= i < j < pushed.len() implies separated(
            pushed[i],
            pushed[j],
        ) by {
            assert(pushed[i] == parts[i]);
            if j < parts.len() {
                assert(pushed[j] == parts[j]);
            }
        }
    }
}

proof fn lemma_keep_members(parts: Seq<RectI>, r: RectI, i: int)
    requires
        0 <= i < keep_nonempty(parts, r).len(),
    ensures
        keep_nonempty(parts, r)[i] == r || (i < parts.len() && keep_nonempty(parts, r)[i]
            == parts[i]),
{
}

/// Separated rectangles share no pixel.
pub proof fn separated_rects_are_disjoint(a: RectI, b: RectI, x: int, y: int)
    requires
        separated(a, b),
    ensures
        !(a.contains(x, y) && b.contains(x, y)),
{
}

/// The difference strips never overlap, so each pixel of `rect` outside
/// `other` is covered by exactly one of them.
pub proof fn difference_parts_are_separated(rect: RectI, other: RectI)
    ensures
        pairwise_separated(difference_parts(rect, other)),
{
    let i = overlap(rect, other);
    if !rect.empty() && !i.empty() {
        let top = RectI { left: rect.left, top: rect.top, right: rect.right, bottom: i.top };
        let bottom = RectI { left: rect.left, top: i.bottom, right: rect.right, bottom: rect.bottom };
        let left = RectI { left: rect.left, top: i.top, right: i.left, bottom: i.bottom };
        let right = RectI { left: i.right, top: i.top, right: rect.right, bottom: i.bottom };
        let s0 = Seq::<RectI>::empty();
        let s1 = keep_nonempty(s0, top);
        let s2 = keep_nonempty(s1, bottom);
        let s3 = keep_nonempty(s2, left);
        lemma_separated_keep(s0, top);
        assert forall|k: int| #![trigger s1[k]] 0 <= k < s1.len() implies separated(s1[k], bottom) by {
            lemma_keep_members(s0, top, k);
        }
        lemma_separated_keep(s1, bottom);
        assert forall|k: int| #![trigger s2[k]] 0 <= k < s2.len() implies separated(s2[k], left) by {
            lemma_keep_members(s1, bottom, k);
            if s2[k] != bottom {
                lemma_keep_members(s0, top, k);
            }
        }
        lemma_separated_keep(s2, left);
        assert forall|k: int| #![trigger s3[k]] 0 <= k < s3.len() implies separated(s3[k], right) by {
            lemma_keep_members(s2, left, k);
            if s3[k] != left {
                lemma_keep_members(s1, bottom, k);
                if s3[k] != bottom {
                    lemma_keep_members(s0, top, k);
                }
            }
        }
        lemma_separated_keep(s3, right);
    }
}

/// Appends `r` to `parts` unless it is empty.
fn push_nonempty(parts: &mut Vec<RectI>, r: RectI)
    requires
        r.sized(),
    ensures
        final(parts)@ == keep_nonempty(old(parts)@, r),
{
    if !r.is_empty() {
        parts.push(r);
    }
}

/// The regions of `rect` that are not covered by `other`: `rect` itself
/// when the two do not overlap, otherwise the non-empty strips above,
/// below, left and right of the overlap.
pub fn difference_regions(rect: RectI, other: RectI) -> (parts: Vec<RectI>)
    requires
        difference_fits(rect, other),
    ensures
        parts@ == difference_parts(rect, other),
        forall|x: int, y: int|
            covers(parts@, x, y) <==> rect.contains(x, y) && !other.contains(x, y),
        nonempty_within(parts@, rect),
        pairwise_separated(parts@),
{
    proof {
        difference_parts_are_separated(rect, other);
        assert forall|x: int, y: int|
            covers(difference_parts(rect, other), x, y) <==> rect.contains(x, y)
                && !other.contains(x, y) by {
            difference_covers_exactly(rect, other, x, y);
        }
        difference_covers_exactly(rect, other, 0, 0);
    }
    let mut parts: Vec<RectI> = Vec::new();
    if rect.is_empty() {
        return parts;
    }
    let inter = intersect(rect, other);
    if inter.is_empty() {
        parts.push(rect);
        assert(parts@ == seq![rect]);
        return parts;
    }
    push_nonempty(
        &mut parts,
        RectI { left: rect.left, top: rect.top, right: rect.right, bottom: inter.top },
    );
    push_nonempty(
        &mut parts,
        RectI { left: rect.left, top: inter.bottom, right: rect.right, bottom: rect.bottom },
    );
    push_nonempty(
        &mut parts,
        RectI { left: rect.left, top: inter.top, right: inter.left, bottom: inter.bottom },
    );
    push_nonempty(
        &mut parts,
        RectI { left: inter.right, top: inter.top, right: rect.right, bottom: inter.bottom },
    );
    parts
}

/// Border thickness along an extent of length `len`: `BORDER_WIDTH`,
/// at most `len`, at least one pixel.
pub open spec fn frame_thickness(len: int) -> int {
    let t = if BORDER_WIDTH < len {
        BORDER_WIDTH as int
    } else {
        len
    };
    if t < 1 {
        1
    } else {
        t
    }
}

/// The pixel `(x, y)` belongs to the painted border of the selection `rect`.
pub open spec fn in_frame(rect: RectI, x: int, y: int) -> bool {
    let w = frame_thickness(rect.span_x());
    let h = frame_thickness(rect.span_y());
    rect.contains(x, y) && (y < rect.top + h || y >= rect.bottom - h || x < rect.left + w || x
        >= rect.right - w)
}

/// The border strips of `rect` in the order top, bottom, left, right; none
/// for an empty rectangle.
pub open spec fn frame_parts(rect: RectI) -> Seq<RectI> {
    let w = frame_thickness(rect.span_x());
    let h = frame_thickness(rect.span_y());
    if rect.empty() {
        Seq::empty()
    } else {
        keep_nonempty(
            keep_nonempty(
                keep_nonempty(
                    keep_nonempty(
                        Seq::empty(),
                        RectI {
                            left: rect.left,
                            top: rect.top,
                            right: rect.right,
                            bottom: (rect.top + h) as i32,
                        },
                    ),
                    RectI {
                        left: rect.left,
                        top: (rect.bottom - h) as i32,
                        right: rect.right,
                        bottom: rect.bottom,
                    },
                ),
                RectI {
                    left: rect.left,
                    top: rect.top,
                    right: (rect.left + w) as i32,
                    bottom: rect.bottom,
                },
            ),
            RectI {
                left: (rect.right - w) as i32,
                top: rect.top,
                right: rect.right,
                bottom: rect.bottom,
            },
        )
    }
}

/// The frame strips cover exactly the border pixels of `rect`, and each is
/// a non-empty part of `rect`.
pub proof fn frame_covers_exactly(rect: RectI, x: int, y: int)
    requires
        rect.sized(),
    ensures
        covers(frame_parts(rect), x, y) <==> in_frame(rect, x, y),
        nonempty_within(frame_parts(rect), rect),
{
    lemma_covers_empty(x, y);
    if !rect.empty() {
        let w = frame_thickness(rect.span_x());
        let h = frame_thickness(rect.span_y());
        let top = RectI {
            left: rect.left,
            top: rect.top,
            right: rect.right,
            bottom: (rect.top + h) as i32,
        };
        let bottom = RectI {
            left: rect.left,
            top: (rect.bottom - h) as i32,
            right: rect.right,
            bottom: rect.bottom,
        };
        let left = RectI {
            left: rect.left,
            top: rect.top,
            right: (rect.left + w) as i32,
            bottom: rect.bottom,
        };
        let right = RectI {
            left: (rect.right - w) as i32,
            top: rect.top,
            right: rect.right,
            bottom: rect.bottom,
        };
        let s0 = Seq::<RectI>::empty();
        let s1 = keep_nonempty(s0, top);
        let s2 = keep_nonempty(s1, bottom);
        let s3 = keep_nonempty(s2, left);
        lemma_covers_keep(s0, top, x, y);
        lemma_covers_keep(s1, bottom, x, y);
        lemma_covers_keep(s2, left, x, y);
        lemma_covers_keep(s3, right, x, y);
        lemma_nonempty_within_keep(s0, top, rect);
        lemma_nonempty_within_keep(s1, bottom, rect);
        lemma_nonempty_within_keep(s2, left, rect);
        lemma_nonempty_within_keep(s3, right, rect);
    }
}

/// The strips along the edges of `rect` that its border is painted on:
/// `BORDER_WIDTH` pixels thick, at most as thick as `rect`, at least one
/// pixel; none for an empty rectangle.
pub fn frame_regions(rect: RectI) -> (parts: Vec<RectI>)
    requires
        rect.sized(),
    ensures
        parts@ == frame_parts(rect),
        forall|x: int, y: int| covers(parts@, x, y) <==> in_frame(rect, x, y),
        nonempty_within(parts@, rect),
{
    proof {
        assert forall|x: int, y: int| covers(frame_parts(rect), x, y) <==> in_frame(rect, x, y) by {
            frame_covers_exactly(rect, x, y);
        }
        frame_covers_exactly(rect, 0, 0);
    }
    let mut parts: Vec<RectI> = Vec::new();
    if rect.is_empty() {
        return parts;
    }
    let rect_width = rect.width();
    let rect_height = rect.height();
    let capped_width = if BORDER_WIDTH < rect_width { BORDER_WIDTH } else { rect_width };
    let width = if capped_width < 1 { 1 } else { capped_width };
    let capped_height = if BORDER_WIDTH < rect_height { BORDER_WIDTH } else { rect_height };
    let height = if capped_height < 1 { 1 } else { capped_height };
    push_nonempty(
        &mut parts,
        RectI { left: rect.left, top: rect.top, right: rect.right, bottom: rect.top + height },
    );
    push_nonempty(
        &mut parts,
        RectI { left: rect.left, top: rect.bottom - height, right: rect.right, bottom: rect.bottom },
    );
    push_nonempty(
        &mut parts,
        RectI { left: rect.left, top: rect.top, right: rect.left + width, bottom: rect.bottom },
    );
    push_nonempty(
        &mut parts,
        RectI { left: rect.right - width, top: rect.top, right: rect.right, bottom: rect.bottom },
    );
    parts
}

/// How the overlay paints the pixel `(x, y)` for the selection `rect`:
/// whether it is inside the selection, and whether it is on its border.
pub open spec fn selection_look(rect: RectI, x: int, y: int) -> (bool, bool) {
    (rect.contains(x, y), in_frame(rect, x, y))
}

/// The sizes that `selection_delta_regions` computes are `i32`s.
pub open spec fn delta_fits(old: RectI, new: RectI) -> bool {
    difference_fits(old, new) && difference_fits(new, old)
}

/// The regions to repaint when the selection changes from `old` to `new`:
/// the parts of each outside the other, then the border strips of each.
pub open spec fn delta_parts(old: RectI, new: RectI) -> Seq<RectI> {
    difference_parts(old, new) + difference_parts(new, old) + frame_parts(old) + frame_parts(new)
}

/// Repainting the delta regions is enough: every pixel whose look differs
/// between the two selections is covered, and every covered pixel lies in
/// one of the two selections.
pub proof fn selection_delta_is_sufficient(old: RectI, new: RectI, x: int, y: int)
    requires
        old.sized(),
        new.sized(),
    ensures
        selection_look(old, x, y) != selection_look(new, x, y) ==> covers(
            delta_parts(old, new),
            x,
            y,
        ),
        covers(delta_parts(old, new), x, y) ==> old.contains(x, y) || new.contains(x, y),
{
    let a = difference_parts(old, new);
    let b = difference_parts(new, old);
    let c = frame_parts(old);
    let d = frame_parts(new);
    difference_covers_exactly(old, new, x, y);
    difference_covers_exactly(new, old, x, y);
    frame_covers_exactly(old, x, y);
    frame_covers_exactly(new, x, y);
    lemma_covers_concat(a, b, x, y);
    lemma_covers_concat(a + b, c, x, y);
    lemma_covers_concat(a + b + c, d, x, y);
}

/// The regions to repaint when the selection changes from `old` to `new`.
pub fn selection_delta_regions(old: RectI, new: RectI) -> (parts: Vec<RectI>)
    requires
        delta_fits(old, new),
    ensures
        parts@ == delta_parts(old, new),
        forall|x: int, y: int|
            selection_look(old, x, y) != selection_look(new, x, y) ==> covers(parts@, x, y),
        forall|x: int, y: int| covers(parts@, x, y) ==> old.contains(x, y) || new.contains(x, y),
{
    proof {
        assert forall|x: int, y: int|
            selection_look(old, x, y) != selection_look(new, x, y) implies covers(
                delta_parts(old, new),
                x,
                y,
            ) by {
            selection_delta_is_sufficient(old, new, x, y);
        }
        assert forall|x: int, y: int| covers(delta_parts(old, new), x, y) implies old.contains(x, y)
            || new.contains(x, y) by {
            selection_delta_is_sufficient(old, new, x, y);
        }
    }
    let mut parts = difference_regions(old, new);
    let mut more = difference_regions(new, old);
    parts.append(&mut more);
    let mut old_frame = frame_regions(old);
    parts.append(&mut old_frame);
    let mut new_frame = frame_regions(new);
    parts.append(&mut new_frame);
    parts
}

/// State of the full-screen selection overlay.
pub struct SelectionState {
    /// The virtual desktop the overlay covers, in screen coordinates.
    pub virtual_rect: RectI,
    /// A capture was started and is neither finished nor cancelled.
    pub active: bool,
    /// The left button is held down and a selection is being dragged.
    pub dragging: bool,
    /// Where the drag started, in overlay coordinates.
    pub anchor: PointI,
    /// Where the drag is now, in overlay coordinates.
    pub current: PointI,
}

/// What a button release asks of the overlay.
#[derive(Clone, Copy, Debug, PartialEq, Eq, Structural)]
pub enum ReleaseOutcome {
    /// No drag was in progress: nothing happens.
    Ignored,
    /// The drag ended on a selection narrower or lower than two pixels: the
    /// overlay hides without capturing.
    Dismissed,
    /// The overlay hides and the given screen rectangle is captured.
    Capture(RectI),
}

/// The smallest width and height of a selection that gets captured.
pub const MIN_CAPTURE_SIZE: i32 = 2;

impl SelectionState {
    /// A fresh, inactive overlay over `virtual_rect`.
    pub fn new(virtual_rect: RectI) -> (s: Self)
        ensures
            s.virtual_rect == virtual_rect,
            !s.active,
            !s.dragging,
            s.anchor == (PointI { x: 0, y: 0 }),
            s.current == (PointI { x: 0, y: 0 }),
    {
        SelectionState {
            virtual_rect,
            active: false,
            dragging: false,
            anchor: PointI { x: 0, y: 0 },
            current: PointI { x: 0, y: 0 },
        }
    }

    /// The selection being dragged, in overlay coordinates.
    pub fn selection(&self) -> (r: RectI)
        ensures
            r == span_rect(self.anchor, self.current),
    {
        RectI::from_points(self.anchor, self.current)
    }

    /// Starts a capture over `virtual_rect`, forgetting any earlier drag.
    pub fn begin_capture(&mut self, virtual_rect: RectI)
        ensures
            final(self).virtual_rect == virtual_rect,
            final(self).active,
            !final(self).dragging,
            final(self).anchor == (PointI { x: 0, y: 0 }),
            final(self).current == (PointI { x: 0, y: 0 }),
    {
        self.virtual_rect = virtual_rect;
        self.active = true;
        self.dragging = false;
        self.anchor = PointI { x: 0, y: 0 };
        self.current = PointI { x: 0, y: 0 };
    }

    /// Cancels the capture (the Escape key, or a lost focus while active).
    pub fn cancel(&mut self)
        ensures
            !final(self).active,
            !final(self).dragging,
            final(self).virtual_rect == old(self).virtual_rect,
            final(self).anchor == old(self).anchor,
            final(self).current == old(self).current,
    {
        self.active = false;
        self.dragging = false;
    }

    /// The overlay lost the keyboard focus: an active capture is cancelled.
    /// Returns whether it was.
    pub fn focus_lost(&mut self) -> (cancelled: bool)
        ensures
            cancelled == old(self).active,
            cancelled ==> !final(self).active && !final(self).dragging,
            final(self).virtual_rect == old(self).virtual_rect,
            final(self).anchor == old(self).anchor,
            final(self).current == old(self).current,
            !cancelled ==> *final(self) == *old(self),
    {
        if self.active {
            self.cancel();
            true
        } else {
            false
        }
    }

    /// The display layout changed: an active capture is cancelled and the
    /// overlay takes the new virtual desktop. Returns whether a capture was
    /// cancelled.
    pub fn refresh_geometry(&mut self, virtual_rect: RectI) -> (cancelled: bool)
        ensures
            cancelled == old(self).active,
            final(self).virtual_rect == virtual_rect,
            !final(self).active,
            final(self).dragging == (old(self).dragging && !old(self).active),
            final(self).anchor == old(self).anchor,
            final(self).current == old(self).current,
    {
        let cancelled = self.active;
        if cancelled {
            self.cancel();
        }
        self.virtual_rect = virtual_rect;
        cancelled
    }

    /// The left button went down at `point`: a drag starts there.
    pub fn press(&mut self, point: PointI)
        ensures
            final(self).dragging,
            final(self).anchor == point,
            final(self).current == point,
            final(self).active == old(self).active,
            final(self).virtual_rect == old(self).virtual_rect,
    {
        self.dragging = true;
        self.anchor = point;
        self.current = point;
    }

    /// The pointer moved to `point`. While dragging to a new point, returns
    /// the selection before and after the move, which are to be repainted.
    pub fn move_to(&mut self, point: PointI) -> (change: Option<(RectI, RectI)>)
        ensures
            old(self).dragging && point != old(self).current ==> {
                &&& change == Some(
                    (span_rect(old(self).anchor, old(self).current), span_rect(old(self).anchor, point)),
                )
                &&& final(self).current == point
                &&& final(self).anchor == old(self).anchor
                &&& final(self).dragging == old(self).dragging
                &&& final(self).active == old(self).active
                &&& final(self).virtual_rect == old(self).virtual_rect
            },
            !(old(self).dragging && point != old(self).current) ==> change.is_none() && *final(self)
                == *old(self),
    {
        if self.dragging && point != self.current {
            let old_selection = RectI::from_points(self.anchor, self.current);
            self.current = point;
            let new_selection = RectI::from_points(self.anchor, self.current);
            Some((old_selection, new_selection))
        } else {
            None
        }
    }

    /// The mouse capture was taken away. A drag in progress ends without a
    /// capture; its last selection is returned to be repainted.
    pub fn capture_lost(&mut self) -> (ended: Option<RectI>)
        ensures
            old(self).dragging ==> ended == Some(span_rect(old(self).anchor, old(self).current)),
            !old(self).dragging ==> ended.is_none(),
            !final(self).dragging,
            final(self).active == old(self).active,
            final(self).anchor == old(self).anchor,
            final(self).current == old(self).current,
            final(self).virtual_rect == old(self).virtual_rect,
    {
        if self.dragging {
            let old_selection = RectI::from_points(self.anchor, self.current);
            self.dragging = false;
            Some(old_selection)
        } else {
            None
        }
    }

    /// The screen rectangle captured when a drag from the anchor ends at
    /// `point`.
    pub open spec fn capture_rect(self, point: PointI) -> RectI {
        let local = span_rect(self.anchor, point);
        RectI {
            left: (local.left + self.virtual_rect.left) as i32,
            top: (local.top + self.virtual_rect.top) as i32,
            right: (local.right + self.virtual_rect.left) as i32,
            bottom: (local.bottom + self.virtual_rect.top) as i32,
        }
    }

    /// Ending a drag at `point` computes only `i32` values: the selection's
    /// width; its height when the width reaches `MIN_CAPTURE_SIZE`; its
    /// edges moved to screen coordinates when a capture follows.
    pub open spec fn release_fits(self, point: PointI) -> bool {
        let local = span_rect(self.anchor, point);
        self.dragging ==> {
            &&& fits_i32(local.span_x())
            &&& local.span_x() >= MIN_CAPTURE_SIZE ==> fits_i32(local.span_y())
            &&& local.span_x() >= MIN_CAPTURE_SIZE && local.span_y() >= MIN_CAPTURE_SIZE
                ==> local.shifted(self.virtual_rect.left as int, self.virtual_rect.top as int)
        }
    }

    /// The left button went up at `point`. A drag ends there: the overlay
    /// is deactivated and, when the selection is at least
    /// `MIN_CAPTURE_SIZE` pixels wide and high, the selection moved to
    /// screen coordinates is to be captured.
    pub fn release(&mut self, point: PointI) -> (outcome: ReleaseOutcome)
        requires
            old(self).release_fits(point),
        ensures
            !old(self).dragging ==> outcome == ReleaseOutcome::Ignored && *final(self) == *old(self),
            old(self).dragging ==> {
                let local = span_rect(old(self).anchor, point);
                &&& !final(self).active
                &&& !final(self).dragging
                &&& final(self).current == point
                &&& final(self).anchor == old(self).anchor
                &&& final(self).virtual_rect == old(self).virtual_rect
                &&& (local.span_x() < MIN_CAPTURE_SIZE || local.span_y() < MIN_CAPTURE_SIZE)
                    ==> outcome == ReleaseOutcome::Dismissed
                &&& (local.span_x() >= MIN_CAPTURE_SIZE && local.span_y() >= MIN_CAPTURE_SIZE)
                    ==> outcome == ReleaseOutcome::Capture(old(self).capture_rect(point))
            },
    {
        if !self.dragging {
            return ReleaseOutcome::Ignored;
        }
        self.current = point;
        self.dragging = false;
        self.active = false;
        let local_rect = RectI::from_points(self.anchor, self.current);
        if local_rect.width() < MIN_CAPTURE_SIZE || local_rect.height() < MIN_CAPTURE_SIZE {
            return ReleaseOutcome::Dismissed;
        }
        let screen_rect = local_rect.translated(self.virtual_rect.left, self.virtual_rect.top);
        ReleaseOutcome::Capture(screen_rect)
    }
}

/// A captured rectangle is at least `MIN_CAPTURE_SIZE` pixels wide and
/// high, follows a drag, and keeps the size of the dragged selection.
pub proof fn captured_rect_is_a_dragged_selection(state: SelectionState, point: PointI)
    requires
        state.dragging,
        state.release_fits(point),
        span_rect(state.anchor, point).span_x() >= MIN_CAPTURE_SIZE,
        span_rect(state.anchor, point).span_y() >= MIN_CAPTURE_SIZE,
    ensures
        state.capture_rect(point).left == min(state.anchor.x as int, point.x as int)
            + state.virtual_rect.left,
        state.capture_rect(point).right == max(state.anchor.x as int, point.x as int)
            + state.virtual_rect.left,
        state.capture_rect(point).top == min(state.anchor.y as int, point.y as int)
            + state.virtual_rect.top,
        state.capture_rect(point).bottom == max(state.anchor.y as int, point.y as int)
            + state.virtual_rect.top,
        state.capture_rect(point).span_x() == span_rect(state.anchor, point).span_x(),
        state.capture_rect(point).span_y() == span_rect(state.anchor, point).span_y(),
        state.capture_rect(point).span_x() >= MIN_CAPTURE_SIZE,
        state.capture_rect(point).span_y() >= MIN_CAPTURE_SIZE,
{
}

/// The rectangle of the virtual desktop from its system metrics; a
/// reported size below one pixel counts as one pixel.
pub fn virtual_screen_rect(left: i32, top: i32, width: i32, height: i32) -> (r: RectI)
    requires
        fits_i32(left + if width < 1 { 1 } else { width }),
        fits_i32(top + if height < 1 { 1 } else { height }),
    ensures
        r.left == left,
        r.top == top,
        r.right == left + if width < 1 { 1 } else { width },
        r.bottom == top + if height < 1 { 1 } else { height },
        !r.empty(),
{
    let width = if width < 1 { 1 } else { width };
    let height = if height < 1 { 1 } else { height };
    RectI { left, top, right: left + width, bottom: top + height }
}

/// The one-pixel ring along the edges of `r`, which `FrameRect` draws.
pub open spec fn ring(r: RectI, x: int, y: int) -> bool {
    r.contains(x, y) && (x == r.left || x == r.right - 1 || y == r.top || y == r.bottom - 1)
}

/// The rectangle one pixel inside `r` on every side.
pub open spec fn inset(r: RectI) -> RectI {
    RectI {
        left: (r.left + 1) as i32,
        top: (r.top + 1) as i32,
        right: (r.right - 1) as i32,
        bottom: (r.bottom - 1) as i32,
    }
}

/// The second border ring of a selection: one pixel inside it, when that
/// rectangle is not empty.
pub open spec fn inner_frame_of(sel: RectI) -> Option<RectI> {
    if inset(sel).right > inset(sel).left && inset(sel).bottom > inset(sel).top {
        Some(inset(sel))
    } else {
        None
    }
}

/// What the overlay paints for a selection: `fill` in the see-through key
/// color, then a one-pixel ring along `frame` and, if any, along
/// `inner_frame`.
#[derive(Clone, Copy, Debug, PartialEq, Eq, Structural)]
pub struct SelectionPaint {
    pub fill: RectI,
    pub frame: RectI,
    pub inner_frame: Option<RectI>,
}

/// The painted border of a non-empty selection, two rings drawn with
/// `FrameRect`, is exactly its frame as the repaint regions see it
/// (`in_frame`); the fill is the selection itself. So the repaint law
/// `selection_delta_is_sufficient` speaks of what is painted.
pub proof fn painted_border_is_the_frame(sel: RectI, x: int, y: int)
    requires
        sel.sized(),
        !sel.empty(),
    ensures
        (ring(sel, x, y) || (inner_frame_of(sel) is Some && ring(inner_frame_of(sel)->0, x, y)))
            <==> in_frame(sel, x, y),
{
}

impl SelectionState {
    /// Painting computes only `i32` values.
    pub open spec fn paint_fits(self) -> bool {
        self.dragging ==> span_rect(self.anchor, self.current).sized()
    }

    /// What to paint over the dimmed desktop: nothing unless a non-empty
    /// selection is being dragged.
    pub fn paint_plan(&self) -> (plan: Option<SelectionPaint>)
        requires
            self.paint_fits(),
        ensures
            !self.dragging || span_rect(self.anchor, self.current).empty() ==> plan.is_none(),
            self.dragging && !span_rect(self.anchor, self.current).empty() ==> plan == Some(
                SelectionPaint {
                    fill: span_rect(self.anchor, self.current),
                    frame: span_rect(self.anchor, self.current),
                    inner_frame: inner_frame_of(span_rect(self.anchor, self.current)),
                },
            ),
    {
        if !self.dragging {
            return None;
        }
        let selection = self.selection();
        if selection.is_empty() {
            return None;
        }
        let inner = RectI {
            left: selection.left + 1,
            top: selection.top + 1,
            right: selection.right - 1,
            bottom: selection.bottom - 1,
        };
        let inner_frame = if inner.right > inner.left && inner.bottom > inner.top {
            Some(inner)
        } else {
            None
        };
        Some(SelectionPaint { fill: selection, frame: selection, inner_frame })
    }
}

} // verus!
