use vstd::prelude::*;

use crate::event_tracker::{TrackerEvent, TrackerEventType};

verus! {

/// Run status of a recording session.
#[derive(Debug, Clone, Copy, PartialEq, Eq, Structural)]
pub enum CaptureStatus {
    Recording,
    Paused,
    Stopped,
}

/// The state shared by the event listener and the frame router: the run
/// status, the step counter, and the location of every click that advanced it.
pub struct CaptureState<L> {
    pub status: CaptureStatus,
    pub step_num: u32,
    pub clicks: Vec<L>,
}

/// What the event listener does after handling one tracker event.
#[derive(Debug, Clone, Copy, PartialEq, Eq, Structural)]
pub enum ListenerAction {
    Continue,
    Terminate,
}

impl<L> CaptureState<L> {
    /// One click recorded per step: the counter is the number of clicks.
    pub open spec fn wf(&self) -> bool {
        self.clicks@.len() == self.step_num as nat
    }

    /// A stopped session at step 0 with no clicks.
    pub fn new() -> (r: Self)
        ensures
            r.wf(),
            r.status == CaptureStatus::Stopped,
            r.step_num == 0,
            r.clicks@ == Seq::<L>::empty(),
    {
        CaptureState { status: CaptureStatus::Stopped, step_num: 0, clicks: Vec::new() }
    }

    /// The current step counter.
    pub fn current_step(&self) -> (r: u32)
        ensures
            r == self.step_num,
    {
        self.step_num
    }

    /// Advances the step counter and appends the click location, as one update.
    pub fn record_click(&mut self, location: L)
        requires
            old(self).wf(),
            old(self).step_num < u32::MAX,
        ensures
            final(self).wf(),
            final(self).step_num == old(self).step_num + 1,
            final(self).clicks@ == old(self).clicks@.push(location),
            final(self).status == old(self).status,
    {
        self.clicks.push(location);
        self.step_num = self.step_num + 1;
    }
}

/// Replaces the run status.
pub fn set_capture_status<L>(state: &mut CaptureState<L>, status: CaptureStatus)
    ensures
        final(state).status == status,
        final(state).step_num == old(state).step_num,
        final(state).clicks@ == old(state).clicks@,
{
    state.status = status;
}

/// True only while the session is paused.
pub fn if_paused_capture<L>(state: &CaptureState<L>) -> (r: bool)
    ensures
        r == (state.status == CaptureStatus::Paused),
{
    match state.status {
        CaptureStatus::Paused => true,
        _ => false,
    }
}

/// True unless the session is recording: a paused session is not consuming frames.
pub fn if_stop_capture<L>(state: &CaptureState<L>) -> (r: bool)
    ensures
        r == (state.status != CaptureStatus::Recording),
{
    match state.status {
        CaptureStatus::Recording => false,
        _ => true,
    }
}

/// The event listener's rule for one tracker event: a button press records a
/// click and advances the step; `Disable` ends the listener; anything else is
/// ignored.
pub fn handle_tracker_event<L>(state: &mut CaptureState<L>, event: TrackerEvent<L>) -> (r:
    ListenerAction)
    requires
        old(state).wf(),
        event.event_type.is_step_click() ==> old(state).step_num < u32::MAX,
    ensures
        final(state).wf(),
        final(state).status == old(state).status,
        event.event_type.is_step_click() ==> {
            &&& final(state).step_num == old(state).step_num + 1
            &&& final(state).clicks@ == old(state).clicks@.push(event.location)
            &&& r == ListenerAction::Continue
        },
        !event.event_type.is_step_click() ==> {
            &&& final(state).step_num == old(state).step_num
            &&& final(state).clicks@ == old(state).clicks@
        },
        event.event_type == TrackerEventType::Disable ==> r == ListenerAction::Terminate,
        !event.event_type.is_step_click() && event.event_type != TrackerEventType::Disable
            ==> r == ListenerAction::Continue,
{
    if event.event_type.is_click() {
        state.record_click(event.location);
        ListenerAction::Continue
    } else {
        match event.event_type {
            TrackerEventType::Disable => ListenerAction::Terminate,
            _ => ListenerAction::Continue,
        }
    }
}

} // verus!
