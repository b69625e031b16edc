use vstd::prelude::*;
use crate::frame::{Frame, FrameView};
use std::io::Cursor;

verus! {

#[verifier::external_type_specification]
#[verifier::external_body]
#[verifier::reject_recursive_types(T)]
pub struct ExCursor<T>(std::io::Cursor<T>);

#[verifier::external_type_specification]
#[verifier::external_body]
#[verifier::reject_recursive_types(R)]
pub struct ExMp3Decoder<R>(minimp3::Decoder<R>);

#[verifier::external_type_specification]
#[verifier::external_body]
pub struct ExMp3Error(minimp3::Error);

/// What the `k`-th call (counting from 0) of `minimp3::Decoder::next_frame`
/// returns on a decoder freshly built over an in-memory reader of `data`: the
/// interleaved samples, sample rate and channel count on success, `None` on
/// an error. The decoder reads nothing but those bytes, so this depends on
/// `data` and `k` alone.
pub uninterp spec fn mp3_result(data: Seq<u8>, k: nat) -> Option<(Seq<i16>, i32, usize)>;

/// The state of an [`Mp3Decoder`]: the bytes it decodes, and how many frames
/// it has been asked for since it was built over them.
pub struct Mp3View {
    pub data: Seq<u8>,
    pub calls: nat,
}

impl Mp3View {
    /// A decoder just built over `data`.
    pub open spec fn fresh(data: Seq<u8>) -> Mp3View {
        Mp3View { data, calls: 0 }
    }

    /// What the `k`-th call of `next` from this state returns.
    pub open spec fn upcoming(self, k: nat) -> Option<FrameView> {
        match mp3_result(self.data, self.calls + k) {
            Some((samples, sample_rate, channels)) => Some(frame_of(samples, sample_rate, channels)),
            None => None,
        }
    }
}

/// Decoder of MP3 audio held in memory, one native MPEG frame per call.
pub struct Mp3Decoder {
    decoder: minimp3::Decoder<Cursor<Vec<u8>>>,
    data: Ghost<Seq<u8>>,
    calls: Ghost<nat>,
}

impl View for Mp3Decoder {
    type V = Mp3View;

    closed spec fn view(&self) -> Mp3View {
        Mp3View { data: self.data@, calls: self.calls@ }
    }
}

/// Relies on std::io::Cursor::new and minimp3::Decoder::new: a decoder with
/// empty buffers over a reader of `data` at offset 0.
#[verifier::external_body]
fn open(data: Vec<u8>) -> (r: Mp3Decoder)
    ensures
        r@ == Mp3View::fresh(data@),
{
    Mp3Decoder {
        data: Ghost(data@),
        calls: Ghost(0),
        decoder: minimp3::Decoder::new(Cursor::new(data)),
    }
}

/// Relies on minimp3::Decoder::into_inner and std::io::Cursor::into_inner:
/// the bytes the decoder was built over, which reading leaves as they were.
#[verifier::external_body]
fn into_data(d: Mp3Decoder) -> (r: Vec<u8>)
    ensures
        r@ == d@.data,
{
    d.decoder.into_inner().into_inner()
}

/// Relies on minimp3::Decoder::next_frame: decodes the next MPEG frame and
/// hands out its interleaved samples, sample rate and channel count. On
/// success the C decoder has read a frame header, which sets one channel for
/// mono and two otherwise and a rate from its table of positive rates, and
/// the sample buffer holds `samples * channels` values.
#[verifier::external_body]
fn decode_frame(d: &mut Mp3Decoder) -> (r: Result<(Vec<i16>, i32, usize), minimp3::Error>)
    ensures
        final(d)@ == (Mp3View { calls: old(d)@.calls + 1, ..old(d)@ }),
        match r {
            Ok((data, sample_rate, channels)) => mp3_result(old(d)@.data, old(d)@.calls)
                == Some((data@, sample_rate, channels)),
            Err(_) => mp3_result(old(d)@.data, old(d)@.calls) is None,
        },
        r matches Ok((data, sample_rate, channels)) ==> {
            &&& channels == 1 || channels == 2
            &&& data@.len() % (channels as nat) == 0
            &&& sample_rate > 0
        },
{
    d.decoder.next_frame().map(|f| (f.data, f.sample_rate, f.channels))
}

/// The frame that a decoded MPEG frame becomes: the rate and channel count
/// narrowed to the frame's integer types, the samples kept as they are.
pub open spec fn frame_of(data: Seq<i16>, sample_rate: i32, channels: usize) -> FrameView {
    FrameView { sample_rate: sample_rate as u32, num_channels: channels as u8, samples: data }
}

/// Builds a frame from what the MPEG decoder returned for one native frame.
pub fn frame_from_decoded(data: Vec<i16>, sample_rate: i32, channels: usize) -> (r: Frame)
    ensures
        r@ == frame_of(data@, sample_rate, channels),
        (channels == 1 || channels == 2) && data@.len() % (channels as nat) == 0 ==> r@.wf(),
{
    Frame { sample_rate: sample_rate as u32, num_channels: channels as u8, samples: data }
}

impl Mp3Decoder {
    /// A decoder at the start of `data`.
    pub fn new(data: Vec<u8>) -> (r: Self)
        ensures
            r@ == Mp3View::fresh(data@),
    {
        open(data)
    }

    /// The next decoded frame; `None` once the stream is exhausted or cannot
    /// be decoded.
    pub fn next(&mut self) -> (r: Option<Frame>)
        ensures
            final(self)@ == (Mp3View { calls: old(self)@.calls + 1, ..old(self)@ }),
            r matches Some(f) ==> Some(f@) == old(self)@.upcoming(0),
            r is None <==> old(self)@.upcoming(0) is None,
            r matches Some(f) ==> f@.wf() && f.sample_rate > 0,
    {
        match decode_frame(self) {
            Ok((data, sample_rate, channels)) => {
                let frame = frame_from_decoded(data, sample_rate, channels);
                assert(sample_rate as u32 > 0) by (bit_vector)
                    requires sample_rate > 0i32;
                Some(frame)
            },
            Err(_) => None,
        }
    }

    /// Goes back to the start: takes the bytes out of the decoder and builds
    /// a new one over them, dropping whatever the old one had buffered.
    pub fn reset(&mut self)
        ensures
            final(self)@ == Mp3View::fresh(old(self)@.data),
    {
        let mut previous = Mp3Decoder::new(Vec::new());
        std::mem::swap(self, &mut previous);
        *self = Mp3Decoder::new(into_data(previous));
    }
}

/// A decoder built over `data` and then read in any way still holds `data`
/// (`next` only counts calls); so after `reset` it yields, call by call, what
/// it yielded when it was built.
pub proof fn lemma_mp3_reset_replays(data: Seq<u8>, m: Mp3View, k: nat)
    requires
        m.data == data,
    ensures
        Mp3View::fresh(m.data).upcoming(k) == Mp3View::fresh(data).upcoming(k),
        (Mp3View { calls: m.calls + 1, ..m }).upcoming(k) == m.upcoming(k + 1),
{
    assert(m.calls + 1 + k == m.calls + (k + 1));
}

/// The state of a [`SampleCursor`]: the channel count and rate it was built
/// with, both channels of the current native frame, and the next sample index.
pub struct SampleCursorView {
    pub num_channels: u16,
    pub sample_rate: u32,
    pub left: Seq<i16>,
    pub right: Seq<i16>,
    pub cur_sample: int,
}

impl SampleCursorView {
    pub open spec fn wf(self) -> bool {
        &&& self.left.len() == self.right.len()
        &&& 0 <= self.cur_sample <= self.left.len()
    }

    /// Every sample of the current native frame has been handed out.
    pub open spec fn exhausted(self) -> bool {
        self.cur_sample >= self.left.len()
    }

    /// The stereo pair at index `i`; a mono source is copied to both sides.
    pub open spec fn pair_at(self, i: int) -> FrameView {
        FrameView {
            sample_rate: self.sample_rate,
            num_channels: 2,
            samples: seq![
                self.left[i],
                if self.num_channels == 1 { self.left[i] } else { self.right[i] },
            ],
        }
    }
}

/// The decisions of the per-sample MP3 backend. The caller decodes a native
/// frame whenever `needs_frame` says so, converts both channels to 16-bit
/// samples and hands them over with `load_frame` (or `None` when decoding
/// failed); `next` then yields the frame's samples one stereo pair at a time.
pub struct SampleCursor {
    num_channels: u16,
    sample_rate: u32,
    left: Vec<i16>,
    right: Vec<i16>,
    cur_sample: usize,
}

impl View for SampleCursor {
    type V = SampleCursorView;

    closed spec fn view(&self) -> SampleCursorView {
        SampleCursorView {
            num_channels: self.num_channels,
            sample_rate: self.sample_rate,
            left: self.left@,
            right: self.right@,
            cur_sample: self.cur_sample as int,
        }
    }
}

/// The state of a cursor built with `num_channels` and `sample_rate`: no
/// native frame yet.
pub open spec fn fresh_cursor(num_channels: u16, sample_rate: u32) -> SampleCursorView {
    SampleCursorView { num_channels, sample_rate, left: seq![], right: seq![], cur_sample: 0 }
}

impl SampleCursor {
    /// Both channels have the same length, and the next index is within them.
    #[verifier::type_invariant]
    spec fn inv(self) -> bool {
        self@.wf()
    }

    /// A cursor for a source of `num_channels` channels at `sample_rate`.
    pub fn new(num_channels: u16, sample_rate: u32) -> (r: Self)
        ensures
            r@ == fresh_cursor(num_channels, sample_rate),
    {
        SampleCursor { num_channels, sample_rate, left: Vec::new(), right: Vec::new(), cur_sample: 0 }
    }

    pub fn num_channels(&self) -> (r: u16)
        ensures
            r == self@.num_channels,
    {
        self.num_channels
    }

    pub fn sample_rate(&self) -> (r: u32)
        ensures
            r == self@.sample_rate,
    {
        self.sample_rate
    }

    /// Whether the next native frame must be decoded before `next`.
    pub fn needs_frame(&self) -> (r: bool)
        ensures
            r == self@.exhausted(),
    {
        self.cur_sample >= self.left.len()
    }

    /// Starts on a newly decoded native frame, given as its two channels; on
    /// `None` (decoding failed) the frame is empty, so `next` yields nothing.
    pub fn load_frame(&mut self, channels: Option<(Vec<i16>, Vec<i16>)>)
        requires
            channels matches Some((l, r)) ==> l@.len() == r@.len(),
        ensures
            final(self)@ == (match channels {
                Some((l, r)) => SampleCursorView {
                    left: l@,
                    right: r@,
                    cur_sample: 0,
                    ..old(self)@
                },
                None => SampleCursorView {
                    left: seq![],
                    right: seq![],
                    cur_sample: 0,
                    ..old(self)@
                },
            }),
            final(self)@.wf(),
    {
        let (left, right) = match channels {
            Some((l, r)) => (l, r),
            None => (Vec::new(), Vec::new()),
        };
        *self = SampleCursor {
            num_channels: self.num_channels,
            sample_rate: self.sample_rate,
            left,
            right,
            cur_sample: 0,
        };
    }

    /// The next stereo pair of the current native frame, as a frame of two
    /// samples at the construction-time rate; `None` once the frame is
    /// exhausted. For a mono source both samples are equal.
    pub fn next(&mut self) -> (r: Option<Frame>)
        ensures
            final(self)@.wf(),
            r is None <==> old(self)@.exhausted(),
            r is None ==> final(self)@ == old(self)@,
            r matches Some(f) ==> f@ == old(self)@.pair_at(old(self)@.cur_sample) && f@.wf(),
            r is Some ==> final(self)@ == (SampleCursorView {
                cur_sample: old(self)@.cur_sample + 1,
                ..old(self)@
            }),
            old(self)@.num_channels == 1 ==> (r matches Some(f) ==> f@.samples[0] == f@.samples[1]),
    {
        proof {
            use_type_invariant(&*self);
        }
        if self.cur_sample >= self.left.len() {
            return None;
        }
        let i = self.cur_sample;
        let left = self.left[i];
        let right = if self.num_channels == 1 {
            self.left[i]
        } else {
            self.right[i]
        };
        self.cur_sample = i + 1;
        let mut samples: Vec<i16> = Vec::new();
        samples.push(left);
        samples.push(right);
        let frame = Frame { sample_rate: self.sample_rate, num_channels: 2, samples };
        assert(frame@.samples =~= old(self)@.pair_at(i as int).samples);
        assert(frame@ == old(self)@.pair_at(old(self)@.cur_sample));
        assert(frame@.wf());
        Some(frame)
    }

    /// Forgets the current native frame, as a cursor freshly built with the
    /// same channel count and rate.
    pub fn restart(&mut self)
        ensures
            final(self)@ == fresh_cursor(old(self)@.num_channels, old(self)@.sample_rate),
    {
        *self = SampleCursor::new(self.num_channels, self.sample_rate);
    }
}

} // verus!
