use vstd::prelude::*;

use crate::frame::EncoderMessage;

verus! {

/// The encode timestamp of a frame: its display time less the step's baseline,
/// never below zero.
pub open spec fn encode_timestamp(baseline: u64, display_time: u64) -> u64 {
    if display_time >= baseline {
        (display_time - baseline) as u64
    } else {
        0
    }
}

/// What a worker's loop does with one message from its queue.
#[derive(Debug, Clone, Copy, PartialEq, Eq, Structural)]
pub enum WorkerAction {
    /// Hand the frame's pixels to the encoder at `timestamp`, opening the
    /// encoder first when `open_encoder` is set.
    Encode { open_encoder: bool, timestamp: u64 },
    /// Ignore the message.
    Skip,
    /// `Finish` was received: drain what is queued, then stop.
    Drain,
}

/// One step's encoder worker: its fixed frame size, the display time of its
/// first frame, and where it stands in its lifecycle.
pub struct EncoderWorker {
    step: u32,
    width: u32,
    height: u32,
    baseline: Option<u64>,
    encoder_open: bool,
    finish_requested: bool,
    stopped: bool,
    failed: bool,
    finalized: bool,
    has_video: bool,
    dispatched: Ghost<nat>,
    reported: Ghost<nat>,
    written: Ghost<nat>,
}

impl EncoderWorker {
    pub closed spec fn step(&self) -> u32 {
        self.step
    }

    pub closed spec fn width(&self) -> u32 {
        self.width
    }

    pub closed spec fn height(&self) -> u32 {
        self.height
    }

    /// Display time of the first frame handed to the encoder, once there is one.
    pub closed spec fn baseline(&self) -> Option<u64> {
        self.baseline
    }

    /// The encoder has been asked to open.
    pub closed spec fn encoder_open(&self) -> bool {
        self.encoder_open
    }

    /// Number of frames handed to the encoder.
    pub closed spec fn dispatched(&self) -> nat {
        self.dispatched@
    }

    /// Number of handed frames whose outcome the encoder has reported.
    pub closed spec fn reported(&self) -> nat {
        self.reported@
    }

    /// Number of frames the encoder accepted: the frames ingested.
    pub closed spec fn written(&self) -> nat {
        self.written@
    }

    /// The record of whether any frame was accepted agrees with the count.
    pub closed spec fn video_flag_agrees(&self) -> bool {
        self.has_video == (self.written@ > 0)
    }

    /// `Finish` has been received.
    pub closed spec fn finish_requested(&self) -> bool {
        self.finish_requested
    }

    /// The message loop has ended.
    pub closed spec fn stopped(&self) -> bool {
        self.stopped
    }

    /// The encoder could not be opened.
    pub closed spec fn failed(&self) -> bool {
        self.failed
    }

    /// The output file has been finalized.
    pub closed spec fn finalized(&self) -> bool {
        self.finalized
    }

    /// The loop has ended, the encoder accepted a frame, and the output file
    /// has not been finalized yet: finalizing is owed.
    pub open spec fn output_due(&self) -> bool {
        self.stopped() && self.written() > 0 && !self.finalized()
    }

    pub open spec fn wf(&self) -> bool {
        &&& self.video_flag_agrees()
        &&& self.written() <= self.reported() <= self.dispatched()
        &&& self.baseline() is Some <==> self.dispatched() > 0
        &&& self.encoder_open() <==> (self.dispatched() > 0 || self.failed())
        &&& self.failed() ==> self.stopped() && self.dispatched() == 0
        &&& self.finalized() ==> self.stopped() && self.written() > 0
    }

    /// A worker for `step` whose frames are `width` by `height`.
    pub fn new(step: u32, width: u32, height: u32) -> (r: Self)
        ensures
            r.wf(),
            r.step() == step,
            r.width() == width,
            r.height() == height,
            r.dispatched() == 0,
            r.reported() == 0,
            r.written() == 0,
            !r.encoder_open(),
            !r.finish_requested(),
            !r.stopped(),
            !r.failed(),
            !r.finalized(),
    {
        EncoderWorker {
            step,
            width,
            height,
            baseline: None,
            encoder_open: false,
            finish_requested: false,
            stopped: false,
            failed: false,
            finalized: false,
            has_video: false,
            dispatched: Ghost(0),
            reported: Ghost(0),
            written: Ghost(0),
        }
    }

    pub fn step_num(&self) -> (r: u32)
        ensures
            r == self.step(),
    {
        self.step
    }

    pub fn frame_width(&self) -> (r: u32)
        ensures
            r == self.width(),
    {
        self.width
    }

    pub fn frame_height(&self) -> (r: u32)
        ensures
            r == self.height(),
    {
        self.height
    }

    /// Called before each receive: whether to wait for another message. The
    /// loop ends once the worker has stopped, or once `Finish` was received and
    /// the queue is empty.
    pub fn keep_receiving(&mut self, queue_empty: bool) -> (r: bool)
        requires
            old(self).wf(),
        ensures
            final(self).wf(),
            r == !(old(self).stopped() || (old(self).finish_requested() && queue_empty)),
            final(self).stopped() == !r,
            final(self).dispatched() == old(self).dispatched(),
            final(self).reported() == old(self).reported(),
            final(self).written() == old(self).written(),
            final(self).baseline() == old(self).baseline(),
            final(self).encoder_open() == old(self).encoder_open(),
            final(self).finish_requested() == old(self).finish_requested(),
            final(self).failed() == old(self).failed(),
            final(self).finalized() == old(self).finalized(),
            final(self).step() == old(self).step(),
            final(self).width() == old(self).width(),
            final(self).height() == old(self).height(),
    {
        if self.stopped || (self.finish_requested && queue_empty) {
            self.stopped = true;
            false
        } else {
            true
        }
    }

    /// The queue is closed and empty: the same as a `Finish` with nothing left.
    pub fn on_disconnected(&mut self)
        requires
            old(self).wf(),
        ensures
            final(self).wf(),
            final(self).stopped(),
            final(self).dispatched() == old(self).dispatched(),
            final(self).reported() == old(self).reported(),
            final(self).written() == old(self).written(),
            final(self).baseline() == old(self).baseline(),
            final(self).encoder_open() == old(self).encoder_open(),
            final(self).finish_requested() == old(self).finish_requested(),
            final(self).failed() == old(self).failed(),
            final(self).finalized() == old(self).finalized(),
            final(self).step() == old(self).step(),
            final(self).width() == old(self).width(),
            final(self).height() == old(self).height(),
    {
        self.stopped = true;
    }

    /// Handles one message. A frame of nonzero size with pixels is handed to
    /// the encoder: the first one sets the baseline and opens the encoder, and
    /// each gets the timestamp `display_time - baseline`. A frame with a zero
    /// dimension or no pixels is skipped. `Finish` switches the worker to
    /// draining, and a second one changes nothing.
    pub fn on_message(&mut self, message: &EncoderMessage) -> (r: WorkerAction)
        requires
            old(self).wf(),
            !old(self).stopped(),
        ensures
            final(self).wf(),
            !final(self).stopped(),
            final(self).failed() == old(self).failed(),
            final(self).finalized() == old(self).finalized(),
            final(self).reported() == old(self).reported(),
            final(self).written() == old(self).written(),
            final(self).step() == old(self).step(),
            final(self).width() == old(self).width(),
            final(self).height() == old(self).height(),
            match message {
                EncoderMessage::Finish => {
                    &&& r == WorkerAction::Drain
                    &&& final(self).finish_requested()
                    &&& old(self).finish_requested() ==> *final(self) == *old(self)
                    &&& final(self).dispatched() == old(self).dispatched()
                    &&& final(self).baseline() == old(self).baseline()
                    &&& final(self).encoder_open() == old(self).encoder_open()
                },
                EncoderMessage::EncodeFrame(m) => {
                    &&& final(self).finish_requested() == old(self).finish_requested()
                    &&& !(m.frame.valid() && m.frame.data@.len() > 0) ==> {
                        &&& r == WorkerAction::Skip
                        &&& final(self).dispatched() == old(self).dispatched()
                        &&& final(self).baseline() == old(self).baseline()
                        &&& final(self).encoder_open() == old(self).encoder_open()
                    }
                    &&& m.frame.valid() && m.frame.data@.len() > 0 ==> {
                        let b = match old(self).baseline() {
                            Some(b) => b,
                            None => m.frame.display_time,
                        };
                        &&& r == (WorkerAction::Encode {
                            open_encoder: !old(self).encoder_open(),
                            timestamp: encode_timestamp(b, m.frame.display_time),
                        })
                        &&& final(self).baseline() == Some(b)
                        &&& final(self).dispatched() == old(self).dispatched() + 1
                        &&& final(self).encoder_open()
                    }
                },
            },
    {
        match message {
            EncoderMessage::Finish => {
                self.finish_requested = true;
                WorkerAction::Drain
            },
            EncoderMessage::EncodeFrame(m) => {
                if !m.frame.is_valid() || m.frame.data.len() == 0 {
                    return WorkerAction::Skip;
                }
                let display_time = m.frame.display_time;
                let baseline = match self.baseline {
                    Some(b) => b,
                    None => display_time,
                };
                let timestamp = if display_time >= baseline {
                    display_time - baseline
                } else {
                    0
                };
                let open_encoder = !self.encoder_open;
                self.baseline = Some(baseline);
                self.encoder_open = true;
                self.dispatched = Ghost(self.dispatched@ + 1);
                WorkerAction::Encode { open_encoder, timestamp }
            },
        }
    }

    /// Records whether the encoder accepted the frame last handed to it. A
    /// rejected frame is lost and the worker goes on.
    pub fn record_write(&mut self, accepted: bool)
        requires
            old(self).wf(),
            !old(self).stopped(),
            old(self).reported() < old(self).dispatched(),
        ensures
            final(self).wf(),
            final(self).reported() == old(self).reported() + 1,
            final(self).written() == old(self).written() + if accepted { 1nat } else { 0nat },
            final(self).dispatched() == old(self).dispatched(),
            final(self).stopped() == old(self).stopped(),
            final(self).baseline() == old(self).baseline(),
            final(self).encoder_open() == old(self).encoder_open(),
            final(self).finish_requested() == old(self).finish_requested(),
            final(self).failed() == old(self).failed(),
            final(self).finalized() == old(self).finalized(),
            final(self).step() == old(self).step(),
            final(self).width() == old(self).width(),
            final(self).height() == old(self).height(),
    {
        self.reported = Ghost(self.reported@ + 1);
        if accepted {
            self.has_video = true;
            self.written = Ghost(self.written@ + 1);
        }
    }

    /// The encoder could not be opened for the first frame: the worker ends
    /// and its step is lost.
    pub fn encoder_failed(&mut self)
        requires
            old(self).wf(),
            old(self).dispatched() == 1,
            old(self).reported() == 0,
            !old(self).stopped(),
        ensures
            final(self).wf(),
            final(self).failed(),
            final(self).stopped(),
            final(self).dispatched() == 0,
            final(self).reported() == 0,
            final(self).written() == 0,
            !final(self).finalized(),
            final(self).baseline() is None,
            final(self).encoder_open(),
            final(self).finish_requested() == old(self).finish_requested(),
            final(self).step() == old(self).step(),
            final(self).width() == old(self).width(),
            final(self).height() == old(self).height(),
    {
        self.failed = true;
        self.stopped = true;
        self.baseline = None;
        self.dispatched = Ghost(0);
    }

    /// Whether to finalize the output file now, after the loop has ended: yes
    /// exactly when the encoder accepted at least one frame and it has not
    /// been done yet. A yes is given once.
    pub fn finalize(&mut self) -> (r: bool)
        requires
            old(self).wf(),
        ensures
            final(self).wf(),
            r == old(self).output_due(),
            final(self).finalized() == (old(self).finalized() || r),
            final(self).stopped() == old(self).stopped(),
            final(self).dispatched() == old(self).dispatched(),
            final(self).reported() == old(self).reported(),
            final(self).written() == old(self).written(),
            final(self).baseline() == old(self).baseline(),
            final(self).encoder_open() == old(self).encoder_open(),
            final(self).finish_requested() == old(self).finish_requested(),
            final(self).failed() == old(self).failed(),
            final(self).step() == old(self).step(),
            final(self).width() == old(self).width(),
            final(self).height() == old(self).height(),
    {
        if self.stopped && self.has_video && !self.finalized {
            self.finalized = true;
            true
        } else {
            false
        }
    }
}

} // verus!
