use vstd::prelude::*;

verus! {

/// A captured BGRA frame: its size, its pixels and its display time on the
/// capture clock, in nanoseconds.
#[derive(Debug, Clone)]
pub struct RawFrame {
    pub width: u32,
    pub height: u32,
    pub display_time: u64,
    pub data: Vec<u8>,
}

impl RawFrame {
    /// A frame with a zero dimension is a placeholder and carries no image.
    pub open spec fn valid(&self) -> bool {
        self.width != 0 && self.height != 0
    }

    pub fn is_valid(&self) -> (r: bool)
        ensures
            r == self.valid(),
    {
        self.width != 0 && self.height != 0
    }
}

/// A frame handed to a step's worker, with the step and its position in the
/// step (counting from 1).
#[derive(Debug, Clone)]
pub struct EncodeFrameMessage {
    pub frame: RawFrame,
    pub step_num: u32,
    pub index: u32,
}

/// What a step's worker receives on its queue.
#[derive(Debug, Clone)]
pub enum EncoderMessage {
    EncodeFrame(EncodeFrameMessage),
    Finish,
}

} // verus!
