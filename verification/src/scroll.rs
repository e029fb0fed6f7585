//! The scrolling rule: how far the view shifts so that the cursor stays on
//! screen, a `threshold` of columns and rows away from the edges.

use vstd::prelude::*;

verus! {

/// The largest coordinate or view size that the scrolling arithmetic takes:
/// half of `isize::MAX`, so that differences of two of them, and their sums
/// with the threshold, stay within `isize`.
pub open spec fn max_extent() -> int {
    isize::MAX as int / 2
}

/// The first visible column after scrolling horizontally.
///
/// `cx` is the cursor's column, `left` the first visible column before,
/// `t` the threshold and `width` the view's width. When the cursor stands
/// fewer than `t` columns right of the left edge, the view shifts left until
/// it stands `t` columns in (or fully left); when it stands at or beyond
/// `width - t` columns, the view shifts right until it stands one column
/// before that; otherwise the view stays.
pub open spec fn spec_scroll_left(cx: int, left: int, t: int, width: int) -> int {
    let room = width - t;
    let off = cx - left;
    if off < t {
        if left - (t - off) > 0 {
            left - (t - off)
        } else {
            0
        }
    } else if off >= room {
        left + (off - room + 1)
    } else {
        left
    }
}

/// How many lines the first visible line moves: negative upwards, positive
/// downwards, zero for none.
///
/// `cy` is the cursor's row, `top` the row of the first visible line, `t` the
/// threshold and `height` the view's height with its status line. When the
/// cursor stands fewer than `t` rows below the top and the view is not at the
/// first line, the view moves up by what is missing; when it stands at or
/// beyond `height - 1 - t` rows, the view moves down until it stands one row
/// before that.
pub open spec fn spec_scroll_rows(cy: int, top: int, t: int, height: int) -> int {
    let room = height - 1 - t;
    let off = cy - top;
    if off < t && top > 0 {
        -(t - off)
    } else if off >= room {
        off - room + 1
    } else {
        0
    }
}

/// After scrolling horizontally, the cursor's column lies inside the visible
/// columns `[left, left + width)`, whenever the view is wider than its
/// threshold.
pub proof fn lemma_cursor_column_visible(cx: int, left: int, t: int, width: int)
    requires
        0 <= cx,
        0 <= left,
        0 <= t < width,
    ensures
        0 <= spec_scroll_left(cx, left, t, width) <= cx,
        cx < spec_scroll_left(cx, left, t, width) + width,
{
}

/// After scrolling horizontally, the cursor keeps at least `t` columns to its
/// left, unless the view is scrolled fully left, and at least `t` columns to
/// its right, whenever the view is wider than twice its threshold.
pub proof fn lemma_cursor_column_margin(cx: int, left: int, t: int, width: int)
    requires
        0 <= cx,
        0 <= left,
        0 <= t,
        2 * t < width,
    ensures
        spec_scroll_left(cx, left, t, width) == 0 || cx - spec_scroll_left(cx, left, t, width) >= t,
        cx - spec_scroll_left(cx, left, t, width) < width - t,
{
}

/// Horizontal scrolling settles in one step: with the cursor where it is,
/// scrolling again leaves the first visible column as it is, whenever the
/// view is wider than twice its threshold.
pub proof fn lemma_scroll_left_settles(cx: int, left: int, t: int, width: int)
    requires
        0 <= cx,
        0 <= left,
        0 <= t,
        2 * t < width,
    ensures
        spec_scroll_left(cx, spec_scroll_left(cx, left, t, width), t, width) == spec_scroll_left(
            cx,
            left,
            t,
            width,
        ),
{
}

/// When the buffer moves the first visible line by the requested number of
/// lines (upwards it stops at the first line), the cursor's row ends up on the
/// screen: below the first visible line and above the last `t` rows, wherever
/// the cursor stood before, above the first visible line included. This holds
/// whenever the view has more than twice its threshold rows of text.
pub proof fn lemma_cursor_row_visible(cy: int, top: int, t: int, height: int)
    requires
        0 <= top,
        0 <= cy,
        0 <= t,
        2 * t < height - 1,
    ensures
        ({
            let n = spec_scroll_rows(cy, top, t, height);
            let new_top = if top + n < 0 { 0 } else { top + n };
            0 <= cy - new_top < height - 1 - t
        }),
{
}

/// When the buffer moves the first visible line by exactly the requested
/// number of lines, the cursor lands `t` rows below the top after moving up,
/// and one row above the lower margin after moving down.
pub proof fn lemma_cursor_row_after_shift(cy: int, top: int, t: int, height: int)
    ensures
        spec_scroll_rows(cy, top, t, height) < 0 ==> cy - (top + spec_scroll_rows(
            cy,
            top,
            t,
            height,
        )) == t,
        spec_scroll_rows(cy, top, t, height) > 0 ==> cy - (top + spec_scroll_rows(
            cy,
            top,
            t,
            height,
        )) == height - 1 - t - 1,
{
}

} // verus!
