//! Decisions of the keyboard escape watcher's callback.
use vstd::prelude::*;

verus! {

/// Message code of a key-down notification.
pub const WM_KEYDOWN: usize = 0x0100;

/// Virtual key code of the watched unlock key (Escape).
pub const VK_ESCAPE: u32 = 0x1B;

/// Name of the notification emitted to the application on an unlock press.
pub const EMERGENCY_UNLOCK_EVENT: &'static str = "emergency-unlock";

/// What the callback does with one keyboard event.
pub struct KeyAction {
    /// Emit one parameterless `emergency-unlock` notification.
    pub emit_unlock: bool,
    /// Hand the event on to the next hook in the chain.
    pub call_next: bool,
}

/// The event is a press of the watched unlock key that the callback may act on.
pub open spec fn is_unlock_press(n_code: i32, w_param: usize, vk_code: u32) -> bool {
    n_code >= 0 && w_param == WM_KEYDOWN && vk_code == VK_ESCAPE
}

/// Whether an event is a press of the watched unlock key. The callback
/// asks this first, so that only such a press touches the event sink.
pub fn unlock_press(n_code: i32, w_param: usize, vk_code: u32) -> (r: bool)
    ensures
        r == is_unlock_press(n_code, w_param, vk_code),
{
    n_code >= 0 && w_param == WM_KEYDOWN && vk_code == VK_ESCAPE
}

/// Decides what the keyboard callback does with an event, given whether an
/// event sink is currently stored. A notification goes out only for an
/// unlock press with a sink present; the event itself is never consumed.
pub fn key_event_action(n_code: i32, w_param: usize, vk_code: u32, sink_present: bool) -> (r: KeyAction)
    ensures
        r.emit_unlock == (is_unlock_press(n_code, w_param, vk_code) && sink_present),
        r.call_next,
{
    let press = unlock_press(n_code, w_param, vk_code);
    KeyAction { emit_unlock: press && sink_present, call_next: true }
}

} // verus!
