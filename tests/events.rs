use screenprompt::keyboard_hook::{key_event_action, unlock_press, EMERGENCY_UNLOCK_EVENT, VK_ESCAPE, WM_KEYDOWN};
use screenprompt::mouse_hook::{
    cursor_in_rect, point_l_param, scroll_action, wants_window_rect, wheel_w_param, Point, Rect, ScrollAction,
    WM_MOUSEWHEEL,
};

const WM_KEYUP: usize = 0x0101;
const WM_MOUSEMOVE: usize = 0x0200;

fn rect(left: i32, top: i32, right: i32, bottom: i32) -> Rect {
    Rect { left, top, right, bottom }
}

#[test]
fn unlock_press_with_sink_emits_once() {
    let a = key_event_action(0, WM_KEYDOWN, VK_ESCAPE, true);
    assert!(a.emit_unlock);
    assert!(a.call_next);
    assert_eq!(EMERGENCY_UNLOCK_EVENT, "emergency-unlock");
}

#[test]
fn unlock_press_without_sink_emits_nothing() {
    let a = key_event_action(0, WM_KEYDOWN, VK_ESCAPE, false);
    assert!(!a.emit_unlock);
    assert!(a.call_next);
}

#[test]
fn other_keys_and_events_pass_silently() {
    for (code, w, vk) in [(0, WM_KEYUP, VK_ESCAPE), (0, WM_KEYDOWN, 0x41), (-1, WM_KEYDOWN, VK_ESCAPE)] {
        let a = key_event_action(code, w, vk, true);
        assert!(!a.emit_unlock);
        assert!(a.call_next);
    }
    assert_eq!(VK_ESCAPE, 0x1B);
    assert_eq!(WM_KEYDOWN, 0x0100);
}

#[test]
fn hit_test_edges_are_inside() {
    let r = rect(10, 20, 110, 220);
    for pt in [
        Point { x: 10, y: 100 },
        Point { x: 110, y: 100 },
        Point { x: 50, y: 20 },
        Point { x: 50, y: 220 },
        Point { x: 10, y: 20 },
        Point { x: 110, y: 220 },
    ] {
        assert!(cursor_in_rect(&pt, &r), "{:?}", pt);
    }
}

#[test]
fn hit_test_one_beyond_is_outside() {
    let r = rect(10, 20, 110, 220);
    for pt in [
        Point { x: 9, y: 100 },
        Point { x: 111, y: 100 },
        Point { x: 50, y: 19 },
        Point { x: 50, y: 221 },
    ] {
        assert!(!cursor_in_rect(&pt, &r), "{:?}", pt);
    }
}

#[test]
fn hit_test_negative_screen_coordinates() {
    let r = rect(-1920, -50, -1, 1030);
    assert!(cursor_in_rect(&Point { x: -1920, y: -50 }, &r));
    assert!(!cursor_in_rect(&Point { x: 0, y: 0 }, &r));
}

#[test]
fn scroll_inside_is_forwarded_with_delta_and_position() {
    let mouse_data: u32 = 120u32 << 16;
    let a = scroll_action(0, WM_MOUSEWHEEL, 0x5000, Some(rect(0, 0, 100, 100)), Point { x: 50, y: 50 }, mouse_data);
    match a {
        ScrollAction::Forward { window, w_param, l_param } => {
            assert_eq!(window, 0x5000);
            assert_eq!(w_param, 120usize << 16);
            assert_eq!(((w_param >> 16) as u16) as i16, 120);
            assert_eq!(l_param, (50 << 16) | 50);
            assert_eq!(l_param & 0xFFFF, 50);
            assert_eq!(l_param >> 16, 50);
        }
        ScrollAction::PassOn => panic!("expected forward"),
    }
}

#[test]
fn scroll_outside_passes_on() {
    let a = scroll_action(0, WM_MOUSEWHEEL, 0x5000, Some(rect(0, 0, 100, 100)), Point { x: 150, y: 50 }, 120u32 << 16);
    assert_eq!(a, ScrollAction::PassOn);
}

#[test]
fn scroll_without_window_or_rect_passes_on() {
    let inside = Point { x: 50, y: 50 };
    let r = Some(rect(0, 0, 100, 100));
    assert_eq!(scroll_action(0, WM_MOUSEWHEEL, 0, r, inside, 120u32 << 16), ScrollAction::PassOn);
    assert_eq!(scroll_action(0, WM_MOUSEWHEEL, 0x5000, None, inside, 120u32 << 16), ScrollAction::PassOn);
    assert_eq!(scroll_action(-1, WM_MOUSEWHEEL, 0x5000, r, inside, 120u32 << 16), ScrollAction::PassOn);
    assert_eq!(scroll_action(0, WM_MOUSEMOVE, 0x5000, r, inside, 0), ScrollAction::PassOn);
}

#[test]
fn wants_rect_only_for_wheel_with_window() {
    assert!(wants_window_rect(0, WM_MOUSEWHEEL, 7));
    assert!(!wants_window_rect(0, WM_MOUSEWHEEL, 0));
    assert!(!wants_window_rect(0, WM_MOUSEMOVE, 7));
    assert!(!wants_window_rect(-1, WM_MOUSEWHEEL, 7));
    assert_eq!(WM_MOUSEWHEEL, 0x020A);
}

#[test]
fn wheel_param_keeps_negative_delta_and_drops_low_word() {
    let down: u32 = ((-120i16 as u16 as u32) << 16) | 0x1234;
    let w = wheel_w_param(down);
    assert_eq!(w, 0xFF88_0000usize);
    assert_eq!(((w >> 16) as u16) as i16, -120);
}

#[test]
fn l_param_packs_negative_coordinates() {
    let l = point_l_param(&Point { x: -5, y: 300 });
    assert_eq!(l as u32 & 0xFFFF, 0xFFFB);
    assert_eq!((l as u32) >> 16, 300);
    let l2 = point_l_param(&Point { x: 7, y: -2 });
    assert_eq!(l2 as u32, 0xFFFE_0007);
    assert_eq!((l2 >> 16) as i16, -2);
}

#[test]
fn unlock_press_filter() {
    assert!(unlock_press(0, WM_KEYDOWN, VK_ESCAPE));
    assert!(!unlock_press(0, WM_KEYUP, VK_ESCAPE));
    assert!(!unlock_press(0, WM_KEYDOWN, 0x41));
    assert!(!unlock_press(-1, WM_KEYDOWN, VK_ESCAPE));
}
