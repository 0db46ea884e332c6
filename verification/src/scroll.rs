//! The scroll view of Win32: the extent of its children, the size of its
//! content, the scroll ranges it sets, and how a scroll request or a wheel
//! turn moves the scroll position.

use vstd::prelude::*;
use crate::window::EdgeRect;

verus! {

/// `SB_LINEUP`.
pub const SB_LINEUP: u32 = 0;
/// `SB_LINEDOWN`.
pub const SB_LINEDOWN: u32 = 1;
/// `SB_PAGEUP`.
pub const SB_PAGEUP: u32 = 2;
/// `SB_PAGEDOWN`.
pub const SB_PAGEDOWN: u32 = 3;
/// `SB_THUMBTRACK`.
pub const SB_THUMBTRACK: u32 = 5;
/// `SB_TOP`.
pub const SB_TOP: u32 = 6;
/// `SB_BOTTOM`.
pub const SB_BOTTOM: u32 = 7;

/// `WM_HSCROLL`.
pub const WM_HSCROLL: u32 = 0x114;
/// `WM_VSCROLL`.
pub const WM_VSCROLL: u32 = 0x115;
/// `WM_MOUSEWHEEL`.
pub const WM_MOUSEWHEEL: u32 = 0x20A;
/// `WM_MOUSEHWHEEL`.
pub const WM_MOUSEHWHEEL: u32 = 0x20E;

/// The scroll a message asks a scroll view for: along which axis
/// (`horizontal` or not), and whether by a wheel turn.
#[derive(Debug, Clone, Copy, PartialEq, Eq, Structural)]
pub struct ScrollRequest {
    pub horizontal: bool,
    pub wheel: bool,
}

/// The scroll the message `msg` asks for; `None` for any other message.
pub fn scroll_request(msg: u32) -> (r: Option<ScrollRequest>)
    ensures
        r == (if msg == WM_VSCROLL {
            Some(ScrollRequest { horizontal: false, wheel: false })
        } else if msg == WM_HSCROLL {
            Some(ScrollRequest { horizontal: true, wheel: false })
        } else if msg == WM_MOUSEWHEEL {
            Some(ScrollRequest { horizontal: false, wheel: true })
        } else if msg == WM_MOUSEHWHEEL {
            Some(ScrollRequest { horizontal: true, wheel: true })
        } else {
            None
        }),
{
    if msg == WM_VSCROLL {
        Some(ScrollRequest { horizontal: false, wheel: false })
    } else if msg == WM_HSCROLL {
        Some(ScrollRequest { horizontal: true, wheel: false })
    } else if msg == WM_MOUSEWHEEL {
        Some(ScrollRequest { horizontal: false, wheel: true })
    } else if msg == WM_MOUSEHWHEEL {
        Some(ScrollRequest { horizontal: true, wheel: true })
    } else {
        None
    }
}

/// The scroll information of one scroll bar.
#[derive(Debug, Clone, Copy, PartialEq, Eq, Structural)]
pub struct ScrollInfo {
    pub min: i32,
    pub max: i32,
    pub page: u32,
    pub pos: i32,
    pub track_pos: i32,
}

/// The smallest rectangle that holds both `acc` and `r`.
pub open spec fn spec_union_rect(acc: EdgeRect, r: EdgeRect) -> EdgeRect {
    EdgeRect {
        left: if r.left < acc.left { r.left } else { acc.left },
        top: if r.top < acc.top { r.top } else { acc.top },
        right: if r.right > acc.right { r.right } else { acc.right },
        bottom: if r.bottom > acc.bottom { r.bottom } else { acc.bottom },
    }
}

/// The empty rectangle at the origin, where the extent of the children starts.
pub open spec fn origin_rect() -> EdgeRect {
    EdgeRect { left: 0, top: 0, right: 0, bottom: 0 }
}

/// The extent of the children with the rectangles `rects`: the origin and
/// every rectangle, taken in turn.
pub open spec fn spec_children_bounds(rects: Seq<EdgeRect>) -> EdgeRect
    decreases rects.len(),
{
    if rects.len() == 0 {
        origin_rect()
    } else {
        spec_union_rect(spec_children_bounds(rects.drop_last()), rects.last())
    }
}

/// Grows `acc` to hold `r`.
pub fn union_rect(acc: EdgeRect, r: EdgeRect) -> (u: EdgeRect)
    ensures
        u == spec_union_rect(acc, r),
{
    EdgeRect {
        left: if r.left < acc.left { r.left } else { acc.left },
        top: if r.top < acc.top { r.top } else { acc.top },
        right: if r.right > acc.right { r.right } else { acc.right },
        bottom: if r.bottom > acc.bottom { r.bottom } else { acc.bottom },
    }
}

/// The extent of the children with the rectangles `rects`, in the
/// coordinates of the view that holds them.
pub fn children_bounds(rects: &Vec<EdgeRect>) -> (b: EdgeRect)
    ensures
        b == spec_children_bounds(rects@),
{
    let mut acc = EdgeRect { left: 0, top: 0, right: 0, bottom: 0 };
    let mut i: usize = 0;
    while i < rects.len()
        invariant
            i <= rects.len(),
            acc == spec_children_bounds(rects@.take(i as int)),
        decreases rects.len() - i,
    {
        proof {
            assert(rects@.take(i as int + 1).drop_last() =~= rects@.take(i as int));
        }
        acc = union_rect(acc, rects[i]);
        i = i + 1;
    }
    proof {
        assert(rects@.take(i as int) =~= rects@);
    }
    acc
}

/// The extent of the children holds the origin and every child.
pub proof fn lemma_children_bounds_hold_children(rects: Seq<EdgeRect>)
    ensures
        ({
            let b = spec_children_bounds(rects);
            &&& b.left <= 0 <= b.right
            &&& b.top <= 0 <= b.bottom
            &&& forall|i: int|
                0 <= i < rects.len() ==> {
                    &&& b.left <= #[trigger] rects[i].left
                    &&& b.top <= rects[i].top
                    &&& rects[i].right <= b.right
                    &&& rects[i].bottom <= b.bottom
                }
        }),
    decreases rects.len(),
{
    if rects.len() > 0 {
        let init = rects.drop_last();
        lemma_children_bounds_hold_children(init);
        assert forall|i: int| 0 <= i < init.len() implies init[i] == rects[i] by {}
    }
}

/// The size of the content of a scroll view: the extent of its children,
/// and at least the size of the view less its two border pixels.
pub open spec fn spec_content_extent(bounds: EdgeRect, view_width: i32, view_height: i32) -> (
    int,
    int,
) {
    let w = bounds.right - bounds.left;
    let h = bounds.bottom - bounds.top;
    (
        if w > view_width - 2 { w } else { view_width - 2 },
        if h > view_height - 2 { h } else { view_height - 2 },
    )
}

/// The page and the range set on a scroll bar: from `min` up to `max`.
#[derive(Debug, Clone, Copy, PartialEq, Eq, Structural)]
pub struct ScrollRange {
    pub page: u32,
    pub min: i32,
    pub max: i32,
}

/// What a scroll view sets on resize: the size of its content, and for each
/// scroll bar that is shown, its page and its range, which starts at 0.
#[derive(Debug, Clone, Copy, PartialEq, Eq, Structural)]
pub struct ScrollLayout {
    pub content_width: i32,
    pub content_height: i32,
    pub horizontal: Option<ScrollRange>,
    pub vertical: Option<ScrollRange>,
}

/// The layout of a scroll view with the view size `(view_width,
/// view_height)` in device pixels, whose children span `bounds`.
pub fn scroll_layout(
    bounds: EdgeRect,
    view_width: i32,
    view_height: i32,
    hscroll: bool,
    vscroll: bool,
) -> (l: ScrollLayout)
    requires
        bounds.right - bounds.left <= i32::MAX,
        bounds.bottom - bounds.top <= i32::MAX,
        bounds.left <= bounds.right,
        bounds.top <= bounds.bottom,
        view_width >= i32::MIN + 2,
        view_height >= i32::MIN + 2,
    ensures
        (l.content_width as int, l.content_height as int) == spec_content_extent(
            bounds,
            view_width,
            view_height,
        ),
        l.horizontal == (if hscroll {
            Some(ScrollRange { page: view_width as u32, min: 0, max: l.content_width })
        } else {
            None
        }),
        l.vertical == (if vscroll {
            Some(ScrollRange { page: view_height as u32, min: 0, max: l.content_height })
        } else {
            None
        }),
{
    let w = bounds.right - bounds.left;
    let h = bounds.bottom - bounds.top;
    let cw = if w > view_width - 2 { w } else { view_width - 2 };
    let ch = if h > view_height - 2 { h } else { view_height - 2 };
    ScrollLayout {
        content_width: cw,
        content_height: ch,
        horizontal: if hscroll { Some(ScrollRange { page: view_width as u32, min: 0, max: cw }) } else { None },
        vertical: if vscroll { Some(ScrollRange { page: view_height as u32, min: 0, max: ch }) } else { None },
    }
}

/// The offset of the content inside a scroll view whose scroll bars stand at
/// `hpos` and `vpos` (a bar that is not shown leaves its axis at 0).
pub fn content_offset(hpos: Option<i32>, vpos: Option<i32>) -> (o: (i32, i32))
    requires
        hpos matches Some(p) ==> p > i32::MIN,
        vpos matches Some(p) ==> p > i32::MIN,
    ensures
        o.0 == (match hpos {
            Some(p) => -p,
            None => 0,
        }),
        o.1 == (match vpos {
            Some(p) => -p,
            None => 0,
        }),
{
    let x = match hpos {
        Some(p) => -p,
        None => 0,
    };
    let y = match vpos {
        Some(p) => -p,
        None => 0,
    };
    (x, y)
}

/// The request code of a scroll message: the low word of its `wparam`.
pub open spec fn request_code(wparam: usize) -> u32 {
    (wparam & 0xFFFF) as u32
}

/// The turn of a wheel message: the high word of its `wparam`, signed.
pub open spec fn wheel_delta(wparam: usize) -> int {
    (((wparam >> 16usize) & 0xFFFF) as u16) as i16 as int
}

/// The position asked for by the scroll request `code` on the bar `info`.
pub open spec fn spec_requested_pos(info: ScrollInfo, code: u32) -> int {
    if code == SB_TOP {
        info.min as int
    } else if code == SB_LINEDOWN {
        info.pos + 1
    } else if code == SB_LINEUP {
        info.pos - 1
    } else if code == SB_BOTTOM {
        info.max - (info.page as i32) + 1
    } else if code == SB_PAGEDOWN {
        info.pos + (info.page as i32)
    } else if code == SB_PAGEUP {
        info.pos - (info.page as i32)
    } else if code == SB_THUMBTRACK {
        info.track_pos as int
    } else {
        info.pos as int
    }
}

/// The position asked for by a scroll message or a wheel turn with `wparam`.
pub open spec fn spec_scroll_pos(info: ScrollInfo, wparam: usize, wheel: bool) -> int {
    if wheel {
        info.pos - wheel_delta(wparam)
    } else {
        spec_requested_pos(info, request_code(wparam))
    }
}

/// The position a scroll bar is asked to move to by a scroll message, or by
/// a wheel turn, with `wparam`; the system then keeps it within the range.
pub fn scroll_pos(info: ScrollInfo, wparam: usize, wheel: bool) -> (p: i32)
    requires
        i32::MIN <= spec_scroll_pos(info, wparam, wheel) <= i32::MAX,
        !wheel && request_code(wparam) == SB_BOTTOM ==> i32::MIN <= info.max - (info.page as i32),
    ensures
        p == spec_scroll_pos(info, wparam, wheel),
{
    if wheel {
        let raw: u16 = ((wparam >> 16usize) & 0xFFFF) as u16;
        let delta: i16 = raw as i16;
        info.pos - delta as i32
    } else {
        let code: u32 = (wparam & 0xFFFF) as u32;
        if code == SB_TOP {
            info.min
        } else if code == SB_LINEDOWN {
            info.pos + 1
        } else if code == SB_LINEUP {
            info.pos - 1
        } else if code == SB_BOTTOM {
            info.max - (info.page as i32) + 1
        } else if code == SB_PAGEDOWN {
            info.pos + (info.page as i32)
        } else if code == SB_PAGEUP {
            info.pos - (info.page as i32)
        } else if code == SB_THUMBTRACK {
            info.track_pos
        } else {
            info.pos
        }
    }
}

/// Whether the position asked for by a scroll message or a wheel turn with
/// `wparam` fits a scroll bar's position, the steps of its computation
/// included.
pub open spec fn scroll_pos_fits(info: ScrollInfo, wparam: usize, wheel: bool) -> bool {
    &&& i32::MIN <= spec_scroll_pos(info, wparam, wheel) <= i32::MAX
    &&& (!wheel && request_code(wparam) == SB_BOTTOM ==> i32::MIN <= info.max - (info.page as i32))
}

/// The position asked for by a scroll message or a wheel turn with `wparam`;
/// `None` when it does not fit a scroll bar's position, an overflow that the
/// control's arithmetic does not survive.
pub fn checked_scroll_pos(info: ScrollInfo, wparam: usize, wheel: bool) -> (p: Option<i32>)
    ensures
        p == (if scroll_pos_fits(info, wparam, wheel) {
            Some(spec_scroll_pos(info, wparam, wheel) as i32)
        } else {
            None
        }),
{
    let pos = info.pos as i64;
    let page = (info.page as i32) as i64;
    let mut step_fits = true;
    let wide: i64 = if wheel {
        let raw: u16 = ((wparam >> 16usize) & 0xFFFF) as u16;
        let delta: i16 = raw as i16;
        pos - delta as i64
    } else {
        let code: u32 = (wparam & 0xFFFF) as u32;
        if code == SB_TOP {
            info.min as i64
        } else if code == SB_LINEDOWN {
            pos + 1
        } else if code == SB_LINEUP {
            pos - 1
        } else if code == SB_BOTTOM {
            let head = info.max as i64 - page;
            step_fits = head >= i32::MIN as i64;
            head + 1
        } else if code == SB_PAGEDOWN {
            pos + page
        } else if code == SB_PAGEUP {
            pos - page
        } else if code == SB_THUMBTRACK {
            info.track_pos as i64
        } else {
            pos
        }
    };
    proof {
        assert(wide == spec_scroll_pos(info, wparam, wheel));
    }
    if step_fits && i32::MIN as i64 <= wide && wide <= i32::MAX as i64 {
        Some(scroll_pos(info, wparam, wheel))
    } else {
        None
    }
}

/// The offset of the content after a scroll of the bar in the direction
/// `horizontal` has left it at `pos`.
pub fn scrolled_offset(horizontal: bool, pos: i32) -> (o: (i32, i32))
    requires
        pos > i32::MIN,
    ensures
        o.0 == (if horizontal { -pos } else { 0 }),
        o.1 == (if horizontal { 0 } else { -pos }),
{
    if horizontal {
        (-pos, 0)
    } else {
        (0, -pos)
    }
}

/// A line down and a line up, or a page down and a page up, come back to
/// where they started, as long as the system did not have to clamp the
/// position in between.
pub proof fn lemma_line_and_page_steps_cancel(info: ScrollInfo, down: u32, up: u32)
    requires
        (down == SB_LINEDOWN && up == SB_LINEUP) || (down == SB_PAGEDOWN && up == SB_PAGEUP),
        i32::MIN <= spec_requested_pos(info, down) <= i32::MAX,
    ensures
        spec_requested_pos(
            ScrollInfo { pos: spec_requested_pos(info, down) as i32, ..info },
            up,
        ) == info.pos,
{
}

/// Scrolling to the top asks for the start of the range, and scrolling to
/// the bottom asks for the last position at which a whole page is shown.
pub proof fn lemma_top_and_bottom(info: ScrollInfo)
    ensures
        spec_requested_pos(info, SB_TOP) == info.min,
        spec_requested_pos(info, SB_BOTTOM) == info.max - (info.page as i32) + 1,
{
}

/// Where each scroll request asks the bar to go: a line up (0) one step
/// back and a line down (1) one step on, a page up (2) a page back and a
/// page down (3) a page on, a thumb drag (5) to where the thumb is, the top
/// (6) to the start of the range and the bottom (7) to the last position
/// that shows a whole page; any other request, the end of a scroll (8)
/// among them, leaves the position where it is.
pub proof fn lemma_scroll_request_targets(info: ScrollInfo, code: u32)
    ensures
        spec_requested_pos(info, 0) == info.pos - 1,
        spec_requested_pos(info, 1) == info.pos + 1,
        spec_requested_pos(info, 2) == info.pos - (info.page as i32),
        spec_requested_pos(info, 3) == info.pos + (info.page as i32),
        spec_requested_pos(info, 5) == info.track_pos,
        spec_requested_pos(info, 6) == info.min,
        spec_requested_pos(info, 7) == info.max - (info.page as i32) + 1,
        !(code <= 3 || (5 <= code <= 7)) ==> spec_requested_pos(info, code) == info.pos,
{
}

/// The request of a scroll message is the low word of its `wparam`; the
/// high word, the thumb position of a drag, does not change it.
pub proof fn lemma_request_code_is_low_word(code: u32, high: u32, wparam: usize)
    requires
        code <= 0xFFFF,
        high <= 0xFFFF,
        wparam == high * 0x10000 + code,
    ensures
        request_code(wparam) == code,
{
    let w = wparam;
    assert((w & 0xFFFFusize) as u32 == code) by (bit_vector)
        requires
            code <= 0xFFFFu32,
            high <= 0xFFFFu32,
            w == high * 0x10000u32 + code,
    ;
}

/// The extent of the children is no larger than it must be: each of its
/// edges is the origin's or the edge of some child.
pub proof fn lemma_children_bounds_are_tight(rects: Seq<EdgeRect>)
    ensures
        ({
            let b = spec_children_bounds(rects);
            &&& b.left == 0 || exists|i: int| 0 <= i < rects.len() && #[trigger] rects[i].left == b.left
            &&& b.top == 0 || exists|i: int| 0 <= i < rects.len() && #[trigger] rects[i].top == b.top
            &&& b.right == 0 || exists|i: int| 0 <= i < rects.len() && #[trigger] rects[i].right == b.right
            &&& b.bottom == 0 || exists|i: int| 0 <= i < rects.len() && #[trigger] rects[i].bottom
                == b.bottom
        }),
    decreases rects.len(),
{
    if rects.len() > 0 {
        let init = rects.drop_last();
        lemma_children_bounds_are_tight(init);
        let n = rects.len() - 1;
        assert(rects[n] == rects.last());
        assert forall|i: int| 0 <= i < init.len() implies init[i] == rects[i] by {}
    }
}

/// The content is as large as the children's extent and as the view less
/// its two border pixels, along each axis, and no larger than the larger of
/// the two.
pub proof fn lemma_content_extent_bounds(bounds: EdgeRect, view_width: i32, view_height: i32)
    ensures
        ({
            let (w, h) = spec_content_extent(bounds, view_width, view_height);
            &&& w >= bounds.right - bounds.left && w >= view_width - 2
            &&& (w == bounds.right - bounds.left || w == view_width - 2)
            &&& h >= bounds.bottom - bounds.top && h >= view_height - 2
            &&& (h == bounds.bottom - bounds.top || h == view_height - 2)
        }),
{
}

/// A wheel turn moves the position back by the turn, a signed count in the
/// high word of `wparam`: a turn away from the user (a positive count) moves
/// toward the start, a turn toward the user toward the end.
pub proof fn lemma_wheel_turn(info: ScrollInfo, d: int, low: usize, wparam: usize)
    requires
        -0x8000 <= d <= 0x7FFF,
        low <= 0xFFFF,
        wparam == (if d >= 0 { d } else { d + 0x10000 }) * 0x10000 + low,
    ensures
        wheel_delta(wparam) == d,
        spec_scroll_pos(info, wparam, true) == info.pos - d,
{
    let w = wparam;
    let hi: u16 = if d >= 0 { d as u16 } else { (d + 0x10000) as u16 };
    assert(((w >> 16usize) & 0xFFFFusize) as u16 == hi) by (bit_vector)
        requires
            low <= 0xFFFFusize,
            w == (hi as usize) * 0x10000usize + low,
    ;
    if d >= 0 {
        assert(hi as i16 == hi as int) by (bit_vector)
            requires
                hi <= 0x7FFFu16,
        ;
    } else {
        assert(hi as i16 == hi as int - 0x10000) by (bit_vector)
            requires
                hi >= 0x8000u16,
        ;
    }
}

} // verus!
