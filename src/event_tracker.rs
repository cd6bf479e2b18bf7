use vstd::prelude::*;

verus! {

/// Kind of pointer action reported by the input backend.
#[derive(Debug, Clone, Copy, PartialEq, Eq, Structural)]
pub enum TrackerEventType {
    ScrollWheel,
    LeftMouseDown,
    RightMouseDown,
    LeftMouseDragged,
    RightMouseDragged,
    LeftMouseUp,
    RightMouseUp,
    Disable,
}

/// A pointer action: the owning process, its kind and where it happened.
/// `L` is the backend's screen coordinate.
#[derive(Debug, Clone)]
pub struct TrackerEvent<L> {
    pub pid: i64,
    pub event_type: TrackerEventType,
    pub location: L,
}

impl TrackerEventType {
    /// A click that starts a new step.
    pub open spec fn is_step_click(self) -> bool {
        self == TrackerEventType::LeftMouseDown || self == TrackerEventType::RightMouseDown
    }

    /// True for a primary or secondary button press.
    pub fn is_click(&self) -> (r: bool)
        ensures
            r == self.is_step_click(),
    {
        match self {
            TrackerEventType::LeftMouseDown | TrackerEventType::RightMouseDown => true,
            _ => false,
        }
    }
}

} // verus!
