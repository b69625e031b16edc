use vstd::prelude::*;

verus! {

/// One decoded unit of audio: interleaved signed 16-bit samples, with the
/// sample rate and channel count they were decoded at.
pub struct Frame {
    pub sample_rate: u32,
    pub num_channels: u8,
    pub samples: Vec<i16>,
}

/// The mathematical value of a [`Frame`].
pub struct FrameView {
    pub sample_rate: u32,
    pub num_channels: u8,
    pub samples: Seq<i16>,
}

impl View for Frame {
    type V = FrameView;

    open spec fn view(&self) -> FrameView {
        FrameView {
            sample_rate: self.sample_rate,
            num_channels: self.num_channels,
            samples: self.samples@,
        }
    }
}

impl FrameView {
    /// Mono or stereo, and a whole number of samples per channel.
    pub open spec fn wf(self) -> bool {
        &&& (self.num_channels == 1 || self.num_channels == 2)
        &&& (self.samples.len() as int) % (self.num_channels as int) == 0
    }
}

} // verus!
