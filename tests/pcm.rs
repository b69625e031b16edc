use audio_decoders::decoder::{FrameDecoder, SeekableDecoder};
use audio_decoders::frame::Frame;
use audio_decoders::pcm::{sample_from_le_bytes, sample_from_u8, PcmDecoder};

fn drain(d: &mut PcmDecoder) -> Vec<Frame> {
    let mut out = Vec::new();
    while let Some(f) = d.next() {
        out.push(f);
    }
    out
}

fn same(a: &[Frame], b: &[Frame]) -> bool {
    a.len() == b.len()
        && a.iter().zip(b).all(|(x, y)| {
            x.sample_rate == y.sample_rate
                && x.num_channels == y.num_channels
                && x.samples == y.samples
        })
}

#[test]
fn stereo_16_bit_example() {
    let mut d = PcmDecoder::new(vec![0x00, 0x00, 0xFF, 0x7F], true, 44100, true);
    let f = d.next().unwrap();
    assert_eq!(f.sample_rate, 44100);
    assert_eq!(f.num_channels, 2);
    assert_eq!(f.samples, vec![0, 32767]);
    assert!(d.next().is_none());
    assert!(d.next().is_none());
}

#[test]
fn mono_8_bit_example() {
    let mut d = PcmDecoder::new(vec![127], false, 22050, false);
    let f = d.next().unwrap();
    assert_eq!(f.sample_rate, 22050);
    assert_eq!(f.num_channels, 1);
    assert_eq!(f.samples, vec![0]);
    assert!(d.next().is_none());
}

#[test]
fn frame_count_for_each_format() {
    for &(stereo, wide, per) in &[(false, false, 1), (true, false, 2), (false, true, 2), (true, true, 4)] {
        for k in 0..13usize {
            let mut d = PcmDecoder::new(vec![0x55; k], stereo, 11025, wide);
            let frames = drain(&mut d);
            assert_eq!(frames.len(), k / per);
            for f in &frames {
                assert_eq!(f.sample_rate, 11025);
                assert_eq!(f.num_channels, if stereo { 2 } else { 1 });
                assert_eq!(f.samples.len(), if stereo { 2 } else { 1 });
            }
        }
    }
}

#[test]
fn trailing_partial_tick_is_dropped() {
    let mut d = PcmDecoder::new(vec![1, 0, 2, 0, 3], true, 8000, true);
    let f = d.next().unwrap();
    assert_eq!(f.samples, vec![1, 2]);
    assert!(d.next().is_none());
}

#[test]
fn byte_127_is_silence_in_both_layouts() {
    let mut mono = PcmDecoder::new(vec![127; 3], false, 8000, false);
    let mut stereo = PcmDecoder::new(vec![127; 4], true, 8000, false);
    for f in drain(&mut mono).iter().chain(drain(&mut stereo).iter()) {
        assert!(f.samples.iter().all(|&s| s == 0));
    }
    assert_eq!(sample_from_u8(127), 0);
}

#[test]
fn eight_bit_scaling() {
    assert_eq!(sample_from_u8(0), -16256);
    assert_eq!(sample_from_u8(128), 128);
    assert_eq!(sample_from_u8(255), 16384);
    let mut d = PcmDecoder::new(vec![0, 255], true, 8000, false);
    assert_eq!(d.next().unwrap().samples, vec![-16256, 16384]);
}

#[test]
fn sixteen_bit_round_trip() {
    for &v in &[0i16, 1, -1, 255, 256, -256, 12345, -12345, i16::MAX, i16::MIN] {
        let b = v.to_le_bytes();
        assert_eq!(sample_from_le_bytes(b[0], b[1]), v);
        let mut d = PcmDecoder::new(b.to_vec(), false, 8000, true);
        assert_eq!(d.next().unwrap().samples, vec![v]);
    }
    assert_eq!(sample_from_le_bytes(0x00, 0x80), -32768);
    assert_eq!(sample_from_le_bytes(0x34, 0x12), 0x1234);
}

#[test]
fn reset_replays_the_stream() {
    let data: Vec<u8> = (0u8..40).collect();
    let mut d = PcmDecoder::new(data, true, 48000, true);
    let first = drain(&mut d);
    assert_eq!(first.len(), 10);
    d.reset();
    let second = drain(&mut d);
    assert!(same(&first, &second));
    d.next();
    d.reset();
    d.next();
    d.next();
    d.reset();
    assert!(same(&first, &drain(&mut d)));
}

#[test]
fn seek_to_zero_matches_reset() {
    let data: Vec<u8> = (0u8..12).collect();
    let mut a = PcmDecoder::new(data.clone(), false, 8000, true);
    let mut b = PcmDecoder::new(data, false, 8000, true);
    a.next();
    a.next();
    b.next();
    a.seek_to_sample_frame(0);
    b.reset();
    assert!(same(&drain(&mut a), &drain(&mut b)));
}

#[test]
fn seek_16_bit_lands_on_the_tick() {
    let data: Vec<u8> = vec![1, 0, 2, 0, 3, 0, 4, 0, 5, 0, 6, 0];
    let mut d = PcmDecoder::new(data, true, 8000, true);
    d.seek_to_sample_frame(1);
    assert_eq!(d.next().unwrap().samples, vec![3, 4]);
    d.seek_to_sample_frame(5);
    assert!(d.next().is_none());
}

#[test]
fn seek_8_bit_counts_two_bytes_per_sample() {
    let data: Vec<u8> = vec![127, 128, 129, 130, 131];
    let mut d = PcmDecoder::new(data, false, 8000, false);
    d.seek_to_sample_frame(1);
    // Offset 2, not 1: the third byte.
    assert_eq!(d.next().unwrap().samples, vec![2 * 128]);
}

#[test]
fn traits_dispatch_to_pcm() {
    fn first<D: SeekableDecoder>(d: &mut D) -> Option<Frame> {
        d.reset();
        d.next_frame()
    }
    let mut d = PcmDecoder::new(vec![10, 0, 20, 0], false, 8000, true);
    d.next();
    d.next();
    assert_eq!(first(&mut d).unwrap().samples, vec![10]);
    SeekableDecoder::seek_to_sample_frame(&mut d, 1);
    assert_eq!(d.next_frame().unwrap().samples, vec![20]);
}
