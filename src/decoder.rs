use vstd::prelude::*;
use crate::frame::Frame;
use crate::mp3::Mp3Decoder;
use crate::pcm::PcmDecoder;

verus! {

/// A source of decoded frames, pulled one at a time until it returns `None`.
pub trait FrameDecoder {
    /// The next frame, or `None` once the stream is exhausted or a decoding
    /// error occurred.
    fn next_frame(&mut self) -> (r: Option<Frame>)
        ensures
            r matches Some(f) ==> f@.wf(),
    ;
}

/// A decoder over a random-access buffer, which can go back to its start.
pub trait SeekableDecoder: FrameDecoder {
    /// Goes back to the start: the next frame is the first one again.
    fn reset(&mut self);

    /// Goes to sample frame `frame`. By default this resets and then skips
    /// `frame` results of `next_frame`, stopping early at the end of the
    /// stream: exact where each frame is one sample tick, but for a decoder
    /// that yields whole MPEG frames (as [`crate::mp3::Mp3Decoder`] does) it
    /// skips `frame` MPEG frames, not `frame` ticks. `PcmDecoder` replaces it
    /// with an exact byte offset.
    fn seek_to_sample_frame(&mut self, frame: u32) {
        self.reset();
        let mut i: u32 = 0;
        while i < frame
            decreases frame - i,
        {
            if self.next_frame().is_none() {
                break;
            }
            i = i + 1;
        }
    }
}

impl FrameDecoder for PcmDecoder {
    fn next_frame(&mut self) -> (r: Option<Frame>) {
        self.next()
    }
}

impl SeekableDecoder for PcmDecoder {
    fn reset(&mut self) {
        PcmDecoder::reset(self)
    }

    fn seek_to_sample_frame(&mut self, frame: u32) {
        PcmDecoder::seek_to_sample_frame(self, frame)
    }
}

impl FrameDecoder for Mp3Decoder {
    fn next_frame(&mut self) -> (r: Option<Frame>) {
        self.next()
    }
}

impl SeekableDecoder for Mp3Decoder {
    fn reset(&mut self) {
        Mp3Decoder::reset(self)
    }
}

} // verus!
