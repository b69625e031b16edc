use vstd::prelude::*;
use crate::frame::{Frame, FrameView};

verus! {

/// Number of channels of a mono (`false`) or stereo (`true`) stream.
pub open spec fn channel_count(is_stereo: bool) -> nat {
    if is_stereo { 2 } else { 1 }
}

/// Bytes that one sample tick occupies in the stream.
pub open spec fn bytes_per_frame(is_stereo: bool, is_16_bit: bool) -> nat {
    channel_count(is_stereo) * (if is_16_bit { 2nat } else { 1nat })
}

/// An unsigned 8-bit sample, centred on 127 and scaled by 128.
pub open spec fn centred_u8(b: u8) -> int {
    (b as int - 127) * 128
}

/// A signed 16-bit sample stored little-endian as `lo`, `hi`.
pub open spec fn le_i16(lo: u8, hi: u8) -> int {
    let u = lo as int + 256 * hi as int;
    if u >= 32768 { u - 65536 } else { u }
}

/// Sample `i` of a tick whose bytes start at offset `at` of `data`.
pub open spec fn sample_at(data: Seq<u8>, at: int, i: int, is_16_bit: bool) -> i16 {
    if is_16_bit {
        le_i16(data[at + 2 * i], data[at + 2 * i + 1]) as i16
    } else {
        centred_u8(data[at + i]) as i16
    }
}

/// Byte offset that `seek_to_sample_frame(frame)` moves to: two bytes per
/// sample, whatever the bit depth.
pub open spec fn seek_offset(frame: int, is_stereo: bool) -> int {
    frame * channel_count(is_stereo) * 2
}

/// The state of a [`PcmDecoder`]: the whole buffer, the byte cursor, and the
/// format it was built with.
pub struct PcmView {
    pub data: Seq<u8>,
    pub position: int,
    pub sample_rate: u32,
    pub is_stereo: bool,
    pub is_16_bit: bool,
}

impl PcmView {
    pub open spec fn frame_bytes(self) -> nat {
        bytes_per_frame(self.is_stereo, self.is_16_bit)
    }

    pub open spec fn num_channels(self) -> u8 {
        if self.is_stereo { 2u8 } else { 1u8 }
    }

    /// The same decoder with its cursor moved to byte `position`.
    pub open spec fn at(self, position: int) -> PcmView {
        PcmView { position, ..self }
    }

    /// Whole ticks left between the cursor and the end of the buffer.
    pub open spec fn frames_left(self) -> nat {
        if self.position <= self.data.len() {
            ((self.data.len() - self.position) / (self.frame_bytes() as int)) as nat
        } else {
            0
        }
    }

    /// The frame decoded from the tick that starts at byte `at`.
    pub open spec fn frame_at(self, at: int) -> FrameView {
        FrameView {
            sample_rate: self.sample_rate,
            num_channels: self.num_channels(),
            samples: Seq::new(
                channel_count(self.is_stereo),
                |i: int| sample_at(self.data, at, i, self.is_16_bit),
            ),
        }
    }

    /// Every frame that the decoder yields from its cursor on, in order;
    /// trailing bytes that make no whole tick are dropped.
    pub open spec fn remaining(self) -> Seq<FrameView> {
        Seq::new(
            self.frames_left(),
            |k: int| self.frame_at(self.position + k * self.frame_bytes()),
        )
    }
}

/// Decoder of raw interleaved PCM held in memory: 8-bit unsigned or 16-bit
/// signed little-endian, mono or stereo. Each call of `next` yields one
/// sample tick as a frame.
pub struct PcmDecoder {
    data: Vec<u8>,
    position: u64,
    sample_rate: u32,
    is_stereo: bool,
    is_16_bit: bool,
}

impl View for PcmDecoder {
    type V = PcmView;

    closed spec fn view(&self) -> PcmView {
        PcmView {
            data: self.data@,
            position: self.position as int,
            sample_rate: self.sample_rate,
            is_stereo: self.is_stereo,
            is_16_bit: self.is_16_bit,
        }
    }
}

/// Decodes an unsigned 8-bit sample: `(b - 127) * 128`.
pub fn sample_from_u8(b: u8) -> (r: i16)
    ensures
        r as int == centred_u8(b),
{
    ((b as i16) - 127) * 128
}

/// Decodes a signed 16-bit little-endian sample.
pub fn sample_from_le_bytes(lo: u8, hi: u8) -> (r: i16)
    ensures
        r as int == le_i16(lo, hi),
{
    let u: i32 = lo as i32 + (hi as i32) * 256;
    if u >= 32768 {
        (u - 65536) as i16
    } else {
        u as i16
    }
}

impl PcmDecoder {
    /// A decoder at the start of `data`.
    pub fn new(data: Vec<u8>, is_stereo: bool, sample_rate: u32, is_16_bit: bool) -> (r: Self)
        ensures
            r@ == (PcmView { data: data@, position: 0, sample_rate, is_stereo, is_16_bit }),
    {
        PcmDecoder { data, position: 0, sample_rate, is_stereo, is_16_bit }
    }

    /// Decodes the tick under the cursor and moves past it; `None`, with the
    /// decoder unchanged, when fewer bytes than one tick are left.
    pub fn next(&mut self) -> (r: Option<Frame>)
        ensures
            r is None <==> old(self)@.remaining().len() == 0,
            r is None ==> final(self)@ == old(self)@,
            r matches Some(f) ==> {
                &&& f@ == old(self)@.remaining()[0]
                &&& f@.wf()
                &&& final(self)@ == old(self)@.at(
                    old(self)@.position + old(self)@.frame_bytes(),
                )
                &&& final(self)@.remaining() == old(self)@.remaining().drop_first()
            },
    {
        let step: u64 = if self.is_stereo {
            if self.is_16_bit { 4 } else { 2 }
        } else {
            if self.is_16_bit { 2 } else { 1 }
        };
        let len = self.data.len() as u64;
        let ghost m = self@;
        let ghost b = m.frame_bytes() as int;
        assert(step as int == b);
        if self.position > len || len - self.position < step {
            proof {
                if m.position <= m.data.len() {
                    let x = m.data.len() - m.position;
                    assert(0 <= x < b);
                    assert(x / b == 0) by (nonlinear_arith)
                        requires 0 <= x < b;
                }
            }
            return None;
        }
        let p = self.position as usize;
        let mut samples: Vec<i16> = Vec::new();
        if self.is_16_bit {
            samples.push(sample_from_le_bytes(self.data[p], self.data[p + 1]));
            if self.is_stereo {
                samples.push(sample_from_le_bytes(self.data[p + 2], self.data[p + 3]));
            }
        } else {
            samples.push(sample_from_u8(self.data[p]));
            if self.is_stereo {
                samples.push(sample_from_u8(self.data[p + 1]));
            }
        }
        self.position = self.position + step;
        let frame = Frame {
            sample_rate: self.sample_rate,
            num_channels: if self.is_stereo { 2 } else { 1 },
            samples,
        };
        proof {
            let x = m.data.len() - m.position;
            assert(x >= b && b > 0);
            assert(x / b >= 1 && (x - b) / b == x / b - 1) by (nonlinear_arith)
                requires x >= b, b > 0;
            let n = self@;
            assert(frame@.samples =~= m.frame_at(m.position).samples);
            assert(m.remaining()[0] == m.frame_at(m.position + 0 * b));
            assert(n.remaining() =~= m.remaining().drop_first()) by {
                assert forall|k: int| 0 <= k < n.remaining().len() implies
                    n.remaining()[k] == m.remaining().drop_first()[k] by {
                    assert(n.position + k * b == m.position + (k + 1) * b) by (nonlinear_arith)
                        requires n.position == m.position + b;
                }
            }
        }
        Some(frame)
    }

    /// Moves the cursor back to the start of the buffer.
    pub fn reset(&mut self)
        ensures
            final(self)@ == old(self)@.at(0),
    {
        self.position = 0;
    }

    /// Moves the cursor to byte `frame * channels * 2`. The offset counts two
    /// bytes per sample whatever the bit depth, so on 8-bit data it lands at
    /// tick `2 * frame`.
    pub fn seek_to_sample_frame(&mut self, frame: u32)
        ensures
            final(self)@ == old(self)@.at(seek_offset(frame as int, old(self)@.is_stereo)),
    {
        let num_channels: u64 = if self.is_stereo { 2 } else { 1 };
        self.position = (frame as u64) * num_channels * 2;
    }
}

/// The state of a decoder freshly built over `data`.
pub open spec fn fresh(data: Seq<u8>, is_stereo: bool, sample_rate: u32, is_16_bit: bool) -> PcmView {
    PcmView { data, position: 0, sample_rate, is_stereo, is_16_bit }
}

/// Low byte of the little-endian encoding of `v`.
pub open spec fn le_low(v: i16) -> u8 {
    ((if v < 0 { v as int + 65536 } else { v as int }) % 256) as u8
}

/// High byte of the little-endian encoding of `v`.
pub open spec fn le_high(v: i16) -> u8 {
    ((if v < 0 { v as int + 65536 } else { v as int }) / 256) as u8
}

/// A fresh decoder over `k` bytes yields `k / bytes_per_frame` frames (any
/// trailing partial tick is dropped), each with the rate and channel count it
/// was built with, and each well formed.
pub proof fn lemma_frame_count(data: Seq<u8>, is_stereo: bool, sample_rate: u32, is_16_bit: bool)
    ensures
        ({
            let frames = fresh(data, is_stereo, sample_rate, is_16_bit).remaining();
            &&& frames.len() == data.len() / bytes_per_frame(is_stereo, is_16_bit)
            &&& data.len() % bytes_per_frame(is_stereo, is_16_bit) == 0 ==> frames.len()
                * bytes_per_frame(is_stereo, is_16_bit) == data.len()
            &&& forall|k: int|
                0 <= k < frames.len() ==> {
                    &&& (#[trigger] frames[k]).sample_rate == sample_rate
                    &&& frames[k].num_channels as nat == channel_count(is_stereo)
                    &&& frames[k].wf()
                }
        }),
{
    let b = bytes_per_frame(is_stereo, is_16_bit) as int;
    let n = data.len() as int;
    if n % b == 0 {
        assert((n / b) * b == n) by (nonlinear_arith)
            requires n % b == 0, b > 0;
    }
}

/// With 8-bit samples, the byte 127 is silence: over a buffer of nothing but
/// 127, mono or stereo, every sample of every frame is 0.
pub proof fn lemma_centre_is_silence(data: Seq<u8>, is_stereo: bool, sample_rate: u32)
    requires
        forall|i: int| 0 <= i < data.len() ==> data[i] == 127,
    ensures
        ({
            let frames = fresh(data, is_stereo, sample_rate, false).remaining();
            forall|k: int, i: int|
                0 <= k < frames.len() && 0 <= i < frames[k].samples.len()
                    ==> #[trigger] frames[k].samples[i] == 0
        }),
{
    let m = fresh(data, is_stereo, sample_rate, false);
    let b = m.frame_bytes() as int;
    assert forall|k: int, i: int|
        0 <= k < m.remaining().len() && 0 <= i < m.remaining()[k].samples.len()
        implies #[trigger] m.remaining()[k].samples[i] == 0 by {
        let n = data.len() as int;
        assert(k * b + b <= n) by (nonlinear_arith)
            requires 0 <= k < n / b, b > 0;
        assert(0 <= k * b) by (nonlinear_arith)
            requires 0 <= k, b > 0;
        assert(data[0 + k * b + i] == 127);
    }
}

/// Encoding any `i16` as two little-endian bytes and decoding them gives the
/// value back.
pub proof fn lemma_le_round_trip(v: i16)
    ensures
        le_i16(le_low(v), le_high(v)) == v as int,
{
    let u = if v < 0 { v as int + 65536 } else { v as int };
    assert(0 <= u < 65536);
    assert(u % 256 + 256 * (u / 256) == u) by (nonlinear_arith)
        requires 0 <= u;
    assert(0 <= u / 256 < 256) by (nonlinear_arith)
        requires 0 <= u < 65536;
}

/// After `reset`, whatever was read before, the decoder yields exactly the
/// frames that it yielded when it was built.
pub proof fn lemma_reset_replays(m: PcmView)
    ensures
        m.at(0).remaining() == fresh(m.data, m.is_stereo, m.sample_rate, m.is_16_bit).remaining(),
{
    assert(m.at(0) == fresh(m.data, m.is_stereo, m.sample_rate, m.is_16_bit));
}

/// Seeking to sample frame 0 leaves the decoder in the state that `reset`
/// leaves it in.
pub proof fn lemma_seek_to_zero_is_reset(m: PcmView)
    ensures
        m.at(seek_offset(0, m.is_stereo)) == m.at(0),
{
}

} // verus!
