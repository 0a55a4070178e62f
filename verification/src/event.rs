use vstd::prelude::*;

verus! {

/// The event family number that the kernel input layer gives to key events.
pub const KEY_EVENT_TYPE: u16 = 1;

/// The key code whose press counts as a click: the volume-up key.
pub const CLICK_KEY_CODE: u16 = 115;

/// The event value that marks a key press (not a release or a repeat).
pub const PRESS_VALUE: i32 = 1;

/// One immutable record read from an input device: the event family, the
/// event code and the event value, plus the timestamp at which the kernel
/// produced it. The timestamp plays no part in click recognition.
#[derive(Clone, Copy, PartialEq, Eq, Structural, Debug)]
pub struct RawInputEvent {
    pub time_sec: i64,
    pub time_usec: i64,
    pub event_type: u16,
    pub code: u16,
    pub value: i32,
}

/// The fixed click signature: a press (value 1) of the volume-up key
/// (code 115) in the key event family.
pub open spec fn is_click(e: RawInputEvent) -> bool {
    e.event_type == KEY_EVENT_TYPE && e.code == CLICK_KEY_CODE && e.value == PRESS_VALUE
}

/// Decides whether one raw event is a press of the volume-up key.
pub fn is_pressed_volume_up(event: &RawInputEvent) -> (r: bool)
    ensures
        r == is_click(*event),
{
    event.event_type == KEY_EVENT_TYPE && event.code == CLICK_KEY_CODE
        && event.value == PRESS_VALUE
}

} // verus!
