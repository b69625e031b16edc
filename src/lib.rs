//! Decoding of audio streams into uniform frames of signed 16-bit samples.
//!
//! Raw PCM (8-bit unsigned or 16-bit signed, mono or stereo) is decoded by
//! [`pcm::PcmDecoder`]; MP3 audio by [`mp3::Mp3Decoder`] (frame-at-a-time) and
//! by [`mp3::SampleCursor`], the decisions of the per-sample backend.

pub mod decoder;
pub mod frame;
pub mod pcm;
pub mod mp3;
