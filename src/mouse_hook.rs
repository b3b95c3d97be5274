//! Decisions of the mouse scroll forwarder's callback: hit-testing the
//! cursor against the target window and rebuilding the scroll message.
use vstd::prelude::*;

verus! {

/// Message code of a vertical scroll-wheel notification.
pub const WM_MOUSEWHEEL: usize = 0x020A;

/// A screen-space cursor position.
#[derive(Clone, Copy, Debug, PartialEq, Eq, Structural)]
pub struct Point {
    pub x: i32,
    pub y: i32,
}

/// A screen-space window rectangle; all four edges belong to it.
#[derive(Clone, Copy, Debug, PartialEq, Eq, Structural)]
pub struct Rect {
    pub left: i32,
    pub top: i32,
    pub right: i32,
    pub bottom: i32,
}

/// What the scroll callback does with one mouse event.
#[derive(Clone, Copy, Debug, PartialEq, Eq, Structural)]
pub enum ScrollAction {
    /// Post one scroll message with these parameters to `window` and
    /// consume the event (the callback returns nonzero).
    Forward { window: isize, w_param: usize, l_param: i32 },
    /// Hand the event on to the next hook in the chain, untouched.
    PassOn,
}

/// Inclusive hit-test on integer coordinates.
pub open spec fn point_in_rect(x: int, y: int, r: Rect) -> bool {
    r.left <= x <= r.right && r.top <= y <= r.bottom
}

/// Low 16 bits of a 32-bit word.
pub open spec fn low_word(v: u32) -> u32 {
    v & 0xFFFF
}

/// High 16 bits of a 32-bit word.
pub open spec fn high_word(v: u32) -> u32 {
    v >> 16
}

/// Scroll-message word parameter: the rotation delta (the high word of the
/// event's mouse data) in the high word, nothing in the low word.
pub open spec fn wheel_word(mouse_data: u32) -> int {
    (mouse_data as int / 0x10000) * 0x10000
}

/// The event is a scroll-wheel event the callback may act on, with a target
/// window stored.
pub open spec fn is_wheel_for(n_code: i32, w_param: usize, window: isize) -> bool {
    n_code >= 0 && w_param == WM_MOUSEWHEEL && window != 0
}

/// Whether `pt` lies in `rect`, edges included.
pub fn cursor_in_rect(pt: &Point, rect: &Rect) -> (r: bool)
    ensures
        r == point_in_rect(pt.x as int, pt.y as int, *rect),
{
    pt.x >= rect.left && pt.x <= rect.right && pt.y >= rect.top && pt.y <= rect.bottom
}

/// Word parameter of a forwarded scroll message, from the event's mouse
/// data: the rotation delta stays in the high word.
pub fn wheel_w_param(mouse_data: u32) -> (r: usize)
    ensures
        r as int == wheel_word(mouse_data),
        r as int / 0x10000 == mouse_data as int / 0x10000,
{
    let hi: u32 = mouse_data >> 16;
    assert(hi as int == mouse_data as int / 0x10000) by (bit_vector)
        requires hi == mouse_data >> 16;
    let w: u32 = hi * 0x10000;
    w as usize
}

/// Long parameter of a forwarded scroll message: the cursor's x in the low
/// word and its y in the high word, each cut to 16 bits.
pub fn point_l_param(pt: &Point) -> (r: i32)
    ensures
        low_word(r as u32) == low_word(pt.x as u32),
        high_word(r as u32) == low_word(pt.y as u32),
{
    let ux: u32 = pt.x as u32;
    let uy: u32 = pt.y as u32;
    let v: u32 = ((uy & 0xFFFF) << 16) | (ux & 0xFFFF);
    assert(v & 0xFFFF == ux & 0xFFFF && v >> 16 == uy & 0xFFFF) by (bit_vector)
        requires v == ((uy & 0xFFFF) << 16) | (ux & 0xFFFF);
    let r: i32 = v as i32;
    assert(r as u32 == v) by (bit_vector)
        requires r == v as i32;
    r
}

/// Whether the callback needs the target window's rectangle for this event.
pub fn wants_window_rect(n_code: i32, w_param: usize, window: isize) -> (r: bool)
    ensures
        r == is_wheel_for(n_code, w_param, window),
{
    n_code >= 0 && w_param == WM_MOUSEWHEEL && window != 0
}

/// Decides what the scroll callback does with an event. `window` is the
/// stored target window (0 when none), `rect` its rectangle if it could be
/// read. A scroll event whose cursor lies in the rectangle is forwarded
/// with its delta and position and consumed; anything else passes on.
pub fn scroll_action(
    n_code: i32,
    w_param: usize,
    window: isize,
    rect: Option<Rect>,
    cursor: Point,
    mouse_data: u32,
) -> (r: ScrollAction)
    ensures
        (r is Forward) <==> (is_wheel_for(n_code, w_param, window) && rect is Some
            && point_in_rect(cursor.x as int, cursor.y as int, rect->Some_0)),
        r is Forward ==> r->window == window,
        r is Forward ==> r->w_param as int == wheel_word(mouse_data),
        r is Forward ==> low_word(r->l_param as u32) == low_word(cursor.x as u32),
        r is Forward ==> high_word(r->l_param as u32) == low_word(cursor.y as u32),
{
    if !wants_window_rect(n_code, w_param, window) {
        return ScrollAction::PassOn;
    }
    match rect {
        Some(bounds) => {
            if cursor_in_rect(&cursor, &bounds) {
                ScrollAction::Forward {
                    window,
                    w_param: wheel_w_param(mouse_data),
                    l_param: point_l_param(&cursor),
                }
            } else {
                ScrollAction::PassOn
            }
        },
        None => ScrollAction::PassOn,
    }
}

/// Every point on the rectangle's four edges is inside it, and every point
/// one unit beyond an edge is outside.
pub proof fn lemma_hit_test_boundary(r: Rect, x: int, y: int)
    requires
        r.left <= r.right,
        r.top <= r.bottom,
    ensures
        r.top <= y <= r.bottom ==> point_in_rect(r.left as int, y, r) && point_in_rect(r.right as int, y, r),
        r.left <= x <= r.right ==> point_in_rect(x, r.top as int, r) && point_in_rect(x, r.bottom as int, r),
        !point_in_rect(r.left - 1, y, r),
        !point_in_rect(r.right + 1, y, r),
        !point_in_rect(x, r.top - 1, r),
        !point_in_rect(x, r.bottom + 1, r),
{
}

} // verus!
