use vstd::prelude::*;

use crate::capture::{if_paused_capture, if_stop_capture, CaptureState, CaptureStatus};
use crate::frame::{EncodeFrameMessage, RawFrame};

verus! {

/// What the router's loop does with one captured frame.
#[derive(Debug)]
pub enum RouteAction {
    /// The session is no longer recording: leave the frame loop.
    Exit,
    /// Drop the frame.
    Discard,
    /// Start worker `worker` for the message's step with the given frame size,
    /// send `Finish` to `finish_previous` if there is one, then send `message`
    /// to the new worker.
    StartStep {
        worker: usize,
        width: u32,
        height: u32,
        finish_previous: Option<usize>,
        message: EncodeFrameMessage,
    },
    /// Send `message` to worker `worker`.
    Forward { worker: usize, message: EncodeFrameMessage },
}

/// The frame router: which step each captured frame belongs to, and which
/// worker encodes that step.
///
/// Workers are numbered in the order they were started; the registry holds
/// the step of each. Alongside, ghost logs keep the step counter as read for
/// every frame that counted (a valid frame that arrived while recording), and
/// for each worker the positions in that record of the frames sent to it.
pub struct FrameRouter {
    prev_step: u32,
    step_frame_counter: u32,
    steps: Vec<u32>,
    forwarded: Ghost<Seq<Seq<nat>>>,
    observed: Ghost<Seq<u32>>,
    owner: Ghost<Seq<nat>>,
    slot: Ghost<Seq<nat>>,
}

/// Each value is at most the next.
pub open spec fn non_decreasing(s: Seq<u32>) -> bool {
    forall|i: int, j: int| 0 <= i < j < s.len() ==> s[i] <= s[j]
}

/// Each value is below the next.
pub open spec fn strictly_increasing(s: Seq<u32>) -> bool {
    forall|i: int, j: int| 0 <= i < j < s.len() ==> s[i] < s[j]
}

impl FrameRouter {
    /// The step of the newest worker, or 0 before any.
    pub closed spec fn prev_step(&self) -> u32 {
        self.prev_step
    }

    /// Number of frames sent to the newest worker.
    pub closed spec fn frames_in_step(&self) -> nat {
        self.step_frame_counter as nat
    }

    /// The step of each worker started so far, in the order they were started.
    pub closed spec fn worker_steps(&self) -> Seq<u32> {
        self.steps@
    }

    /// For each worker, the positions in `observed` of the frames sent to it,
    /// in send order.
    pub closed spec fn forwarded(&self) -> Seq<Seq<nat>> {
        self.forwarded@
    }

    /// The step counter as read for each valid frame that arrived while
    /// recording, in arrival order.
    pub closed spec fn observed(&self) -> Seq<u32> {
        self.observed@
    }

    /// For each counted frame, the worker it was sent to.
    pub closed spec fn owner(&self) -> Seq<nat> {
        self.owner@
    }

    /// For each counted frame, its place in its worker's queue (counting from 0).
    pub closed spec fn slot(&self) -> Seq<nat> {
        self.slot@
    }

    pub open spec fn wf(&self) -> bool {
        &&& self.owner().len() == self.observed().len()
        &&& self.slot().len() == self.observed().len()
        &&& forall|w: int, i: int|
            0 <= w < self.forwarded().len() && 0 <= i < self.forwarded()[w].len() ==> {
                let c = #[trigger] self.forwarded()[w][i];
                &&& c < self.observed().len()
                &&& self.observed()[c as int] == self.worker_steps()[w]
                &&& self.owner()[c as int] == w
                &&& self.slot()[c as int] == i
            }
        &&& forall|c: int|
            0 <= c < self.observed().len() && #[trigger] self.observed()[c] != 0 ==> {
                &&& self.owner()[c] < self.forwarded().len()
                &&& self.slot()[c] < self.forwarded()[self.owner()[c] as int].len()
                &&& self.forwarded()[self.owner()[c] as int][self.slot()[c] as int] == c
            }
        &&& self.observed().len() == 0 ==> self.prev_step() == 0 && self.worker_steps().len() == 0
        &&& self.observed().len() > 0 ==> self.prev_step() == self.observed().last()
        &&& non_decreasing(self.observed()) ==> {
            &&& strictly_increasing(self.worker_steps())
            &&& forall|s: u32|
                #![trigger self.worker_steps().contains(s)]
                #![trigger self.observed().contains(s)]
                self.worker_steps().contains(s) <==> (s != 0 && self.observed().contains(s))
        }
        &&& self.forwarded().len() == self.worker_steps().len()
        &&& self.worker_steps().len() == 0 ==> self.prev_step() == 0 && self.frames_in_step() == 0
        &&& self.worker_steps().len() > 0 ==> {
            &&& self.prev_step() == self.worker_steps().last()
            &&& self.frames_in_step() == self.forwarded().last().len()
        }
        &&& forall|w: int, i: int, j: int|
            0 <= w < self.forwarded().len() && 0 <= i < j < self.forwarded()[w].len()
                ==> #[trigger] self.forwarded()[w][i] < #[trigger] self.forwarded()[w][j]
        &&& forall|w: int| 0 <= w < self.forwarded().len() ==> #[trigger] self.forwarded()[w].len() > 0
    }

    /// A router that has started no worker.
    pub fn new() -> (r: Self)
        ensures
            r.wf(),
            r.worker_steps() == Seq::<u32>::empty(),
            r.prev_step() == 0,
            r.observed() == Seq::<u32>::empty(),
    {
        FrameRouter {
            prev_step: 0,
            step_frame_counter: 0,
            steps: Vec::new(),
            forwarded: Ghost(Seq::empty()),
            observed: Ghost(Seq::empty()),
            owner: Ghost(Seq::empty()),
            slot: Ghost(Seq::empty()),
        }
    }

    /// Number of frames sent to the newest worker so far.
    pub fn frame_count(&self) -> (r: u32)
        ensures
            r as nat == self.frames_in_step(),
    {
        self.step_frame_counter
    }

    /// Number of workers started so far.
    pub fn worker_count(&self) -> (r: usize)
        ensures
            r == self.worker_steps().len(),
    {
        self.steps.len()
    }

    /// Decides what becomes of one captured frame, given the shared state at the
    /// moment it arrived.
    pub fn route_frame<L>(&mut self, state: &CaptureState<L>, frame: RawFrame) -> (r: RouteAction)
        requires
            old(self).wf(),
            old(self).frames_in_step() < u32::MAX,
        ensures
            final(self).wf(),
            final(self).observed() == if state.status == CaptureStatus::Recording && frame.valid() {
                old(self).observed().push(state.step_num)
            } else {
                old(self).observed()
            },
            state.status != CaptureStatus::Recording || !frame.valid() ==> *final(self) == *old(self),
            state.status != CaptureStatus::Recording ==> final(self).worker_steps() == old(self).worker_steps()
                && final(self).forwarded() == old(self).forwarded()
                && final(self).prev_step() == old(self).prev_step()
                && final(self).frames_in_step() == old(self).frames_in_step(),
            state.status == CaptureStatus::Paused ==> r is Discard,
            state.status == CaptureStatus::Stopped ==> r is Exit,
            state.status == CaptureStatus::Recording && !frame.valid() ==> {
                &&& r is Discard
                &&& final(self).worker_steps() == old(self).worker_steps()
                &&& final(self).forwarded() == old(self).forwarded()
                &&& final(self).prev_step() == old(self).prev_step()
                &&& final(self).frames_in_step() == old(self).frames_in_step()
            },
            state.status == CaptureStatus::Recording && frame.valid() && state.step_num
                == old(self).prev_step() && old(self).worker_steps().len() == 0 ==> {
                &&& r is Discard
                &&& final(self).worker_steps() == old(self).worker_steps()
                &&& final(self).forwarded() == old(self).forwarded()
                &&& final(self).prev_step() == old(self).prev_step()
                &&& final(self).frames_in_step() == old(self).frames_in_step()
            },
            state.status == CaptureStatus::Recording && frame.valid() && state.step_num
                == old(self).prev_step() && old(self).worker_steps().len() > 0 ==> {
                let w = old(self).worker_steps().len() - 1;
                &&& r == (RouteAction::Forward {
                    worker: w as usize,
                    message: EncodeFrameMessage {
                        frame,
                        step_num: state.step_num,
                        index: (old(self).frames_in_step() + 1) as u32,
                    },
                })
                &&& final(self).worker_steps() == old(self).worker_steps()
                &&& final(self).frames_in_step() == old(self).frames_in_step() + 1
                &&& final(self).owner() == old(self).owner().push(w as nat)
                &&& final(self).slot() == old(self).slot().push(old(self).frames_in_step())
                &&& final(self).forwarded() == old(self).forwarded().update(
                    w,
                    old(self).forwarded()[w].push(old(self).observed().len()),
                )
                &&& final(self).prev_step() == old(self).prev_step()
            },
            state.status == CaptureStatus::Recording && frame.valid() && state.step_num
                != old(self).prev_step() ==> {
                let n = old(self).worker_steps().len();
                &&& r == (RouteAction::StartStep {
                    worker: n as usize,
                    width: frame.width,
                    height: frame.height,
                    finish_previous: if n == 0 { None } else { Some((n - 1) as usize) },
                    message: EncodeFrameMessage { frame, step_num: state.step_num, index: 1 },
                })
                &&& final(self).worker_steps() == old(self).worker_steps().push(state.step_num)
                &&& final(self).owner() == old(self).owner().push(n)
                &&& final(self).slot() == old(self).slot().push(0)
                &&& final(self).forwarded() == old(self).forwarded().push(
                    seq![old(self).observed().len()],
                )
                &&& final(self).prev_step() == state.step_num
                &&& final(self).frames_in_step() == 1
            },
    {
        if if_paused_capture(state) {
            return RouteAction::Discard;
        }
        if if_stop_capture(state) {
            return RouteAction::Exit;
        }
        if !frame.is_valid() {
            return RouteAction::Discard;
        }
        let step = state.step_num;
        let ghost old_observed = self.observed@;
        let ghost old_steps = self.steps@;
        let ghost old_forwarded = self.forwarded@;
        let ghost old_owner = self.owner@;
        let ghost old_slot = self.slot@;
        let ghost arrival = old_observed.len();
        self.observed = Ghost(old_observed.push(step));
        proof {
            broadcast use vstd::seq_lib::lemma_seq_contains_after_push;

            if non_decreasing(old_observed.push(step)) {
                assert(non_decreasing(old_observed)) by {
                    assert forall|i: int, j: int| 0 <= i < j < old_observed.len() implies old_observed[i]
                        <= old_observed[j] by {
                        assert(old_observed.push(step)[i] == old_observed[i]);
                        assert(old_observed.push(step)[j] == old_observed[j]);
                    }
                }
                if old_observed.len() > 0 {
                    assert(old_observed.push(step)[old_observed.len() - 1] == old_observed.last());
                    assert(old_observed.push(step)[old_observed.len() as int] == step);
                    assert(self.prev_step <= step);
                }
                if old_steps.len() > 0 {
                    assert(old_steps.contains(old_steps.last()));
                    assert(old_observed.contains(old_steps.last()));
                }
            }
        }
        if step != self.prev_step {
            let n = self.steps.len();
            let finish_previous = if n == 0 { None } else { Some(n - 1) };
            let width = frame.width;
            let height = frame.height;
            self.steps.push(step);
            self.forwarded = Ghost(self.forwarded@.push(seq![arrival]));
            self.owner = Ghost(old_owner.push(n as nat));
            self.slot = Ghost(old_slot.push(0));
            self.prev_step = step;
            self.step_frame_counter = 1;
            proof {
                broadcast use vstd::seq_lib::lemma_seq_contains_after_push;

                if non_decreasing(self.observed@) {
                    assert forall|i: int, j: int| 0 <= i < j < self.steps@.len() implies self.steps@[i]
                        < self.steps@[j] by {
                        if j == old_steps.len() {
                            assert(old_steps[i] <= old_steps.last());
                        }
                    }
                }
            }
            RouteAction::StartStep {
                worker: n,
                width,
                height,
                finish_previous,
                message: EncodeFrameMessage { frame, step_num: step, index: 1 },
            }
        } else if self.steps.len() == 0 {
            self.owner = Ghost(old_owner.push(0));
            self.slot = Ghost(old_slot.push(0));
            RouteAction::Discard
        } else {
            let w = self.steps.len() - 1;
            self.step_frame_counter = self.step_frame_counter + 1;
            self.forwarded = Ghost(old_forwarded.update(w as int, old_forwarded[w as int].push(arrival)));
            self.owner = Ghost(old_owner.push(w as nat));
            self.slot = Ghost(old_slot.push(old_forwarded[w as int].len()));
            RouteAction::Forward {
                worker: w,
                message: EncodeFrameMessage { frame, step_num: step, index: self.step_frame_counter },
            }
        }
    }

    /// The workers to send `Finish` to when the session ends: every worker ever
    /// started, not only the newest.
    pub fn workers_to_finish(&self) -> (r: Vec<usize>)
        ensures
            r@.len() == self.worker_steps().len(),
            forall|i: int| 0 <= i < r@.len() ==> r@[i] == i,
    {
        let n = self.steps.len();
        let mut r: Vec<usize> = Vec::new();
        let mut i: usize = 0;
        while i < n
            invariant
                i <= n,
                n == self.worker_steps().len(),
                r@.len() == i,
                forall|k: int| 0 <= k < r@.len() ==> r@[k] == k,
            decreases n - i,
        {
            r.push(i);
            i = i + 1;
        }
        r
    }
}

} // verus!
