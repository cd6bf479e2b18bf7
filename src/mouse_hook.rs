use vstd::prelude::*;

use crate::event_tracker::TrackerEventType;

verus! {

/// Distance in pixels, on each axis, that a drag must cover from the last
/// click before it is reported.
pub const DRAG_THRESHOLD: i64 = 10;

/// A low-level mouse message as the OS hook receives it.
#[derive(Debug, Clone, Copy, PartialEq, Eq, Structural)]
pub enum MouseMessage {
    Wheel,
    LeftDown,
    RightDown,
    LeftUp,
    RightUp,
    Move,
    Other,
}

/// The absolute difference of two coordinates.
pub open spec fn distance(a: i32, b: i32) -> int {
    if a >= b {
        a - b
    } else {
        b - a
    }
}

/// A drag is reported only after a click was recorded (neither coordinate of
/// the last click is 0) and the pointer has moved at least the threshold away
/// from it on both axes.
pub open spec fn drag_reported(x: i32, y: i32, last_click: (i32, i32)) -> bool {
    &&& last_click.0 != 0
    &&& last_click.1 != 0
    &&& distance(x, last_click.0) >= DRAG_THRESHOLD
    &&& distance(y, last_click.1) >= DRAG_THRESHOLD
}

fn abs_diff(a: i32, b: i32) -> (r: i64)
    ensures
        r == distance(a, b),
{
    if a >= b {
        a as i64 - b as i64
    } else {
        b as i64 - a as i64
    }
}

/// Classifies one mouse message while tracking is on, given which buttons are
/// held and where the pointer is, and keeps the last click location: a press
/// records it, a release clears it. Returns the event to report, if any.
pub fn classify_mouse_message(
    message: MouseMessage,
    left_held: bool,
    right_held: bool,
    x: i32,
    y: i32,
    last_click: &mut (i32, i32),
) -> (r: Option<TrackerEventType>)
    ensures
        message == MouseMessage::LeftDown ==> r == Some(TrackerEventType::LeftMouseDown)
            && *final(last_click) == (x, y),
        message == MouseMessage::RightDown ==> r == Some(TrackerEventType::RightMouseDown)
            && *final(last_click) == (x, y),
        message == MouseMessage::LeftUp || message == MouseMessage::RightUp ==> r is None
            && *final(last_click) == (0i32, 0i32),
        message == MouseMessage::Wheel ==> r == Some(TrackerEventType::ScrollWheel)
            && *final(last_click) == *old(last_click),
        message == MouseMessage::Other ==> r is None && *final(last_click) == *old(last_click),
        message == MouseMessage::Move ==> {
            &&& *final(last_click) == *old(last_click)
            &&& r == if !drag_reported(x, y, *old(last_click)) || !(left_held || right_held) {
                None
            } else if left_held {
                Some(TrackerEventType::LeftMouseDragged)
            } else {
                Some(TrackerEventType::RightMouseDragged)
            }
        },
{
    match message {
        MouseMessage::Wheel => Some(TrackerEventType::ScrollWheel),
        MouseMessage::LeftDown => {
            *last_click = (x, y);
            Some(TrackerEventType::LeftMouseDown)
        },
        MouseMessage::RightDown => {
            *last_click = (x, y);
            Some(TrackerEventType::RightMouseDown)
        },
        MouseMessage::LeftUp | MouseMessage::RightUp => {
            *last_click = (0, 0);
            None
        },
        MouseMessage::Move => {
            let kind = if left_held {
                TrackerEventType::LeftMouseDragged
            } else if right_held {
                TrackerEventType::RightMouseDragged
            } else {
                return None;
            };
            let (last_x, last_y) = *last_click;
            if last_x == 0 || last_y == 0 || abs_diff(x, last_x) < DRAG_THRESHOLD || abs_diff(y, last_y)
                < DRAG_THRESHOLD {
                None
            } else {
                Some(kind)
            }
        },
        MouseMessage::Other => None,
    }
}

} // verus!
