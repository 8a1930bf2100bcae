use stick_s3::audio::{amp_enable_regs, Audio};
use stick_s3::mic::{peak_level, Mic};
use stick_s3::speaker::{square_wave_chunks, Speaker};

fn sample(v: i16) -> [u8; 2] {
    v.to_le_bytes()
}

#[test]
fn mic_level_from_peak() {
    let mut buf = vec![];
    for v in [100i16, -16384, 2000, 5] {
        buf.extend_from_slice(&sample(v));
    }
    // 16384 * 100 / 32768 = 50
    assert_eq!(Mic::read_volume(&buf), 50);
}

#[test]
fn mic_level_extremes() {
    assert_eq!(Mic::read_volume(&[]), 0);
    assert_eq!(Mic::read_volume(&[0xFF, 0x7F, 0x00]), 0); // fewer than 4 bytes
    let mut buf = sample(i16::MIN).to_vec();
    buf.extend_from_slice(&sample(0));
    assert_eq!(Mic::read_volume(&buf), 100);
    let mut buf = sample(i16::MAX).to_vec();
    buf.extend_from_slice(&sample(0));
    assert_eq!(Mic::read_volume(&buf), 99);
}

#[test]
fn mic_odd_trailing_byte_ignored() {
    let mut buf = sample(327).to_vec();
    buf.extend_from_slice(&sample(0));
    buf.push(0x80);
    assert_eq!(peak_level(&buf), 0); // 327 * 100 / 32768 = 0
    let mut audio = Audio::new();
    let mut buf2 = sample(-3277).to_vec();
    buf2.extend_from_slice(&sample(1));
    assert_eq!(audio.read_mic_peak(&buf2), 10);
}

fn flatten(chunks: &[Vec<u8>]) -> Vec<u8> {
    chunks.iter().flat_map(|c| c.iter().copied()).collect()
}

#[test]
fn beep_is_50ms_1khz_square() {
    let chunks = Speaker::beep();
    let bytes = flatten(&chunks);
    assert_eq!(bytes.len(), 2205 * 4);
    assert_eq!(chunks.len(), 35);
    assert!(chunks[..34].iter().all(|c| c.len() == 256));
    assert_eq!(chunks[34].len(), 8820 - 34 * 256);
    for f in 0..2205usize {
        let v = i16::from_le_bytes([bytes[4 * f], bytes[4 * f + 1]]);
        let r = i16::from_le_bytes([bytes[4 * f + 2], bytes[4 * f + 3]]);
        let expect = if f % 44 < 22 { 12000 } else { -12000 };
        assert_eq!(v, expect, "frame {}", f);
        assert_eq!(r, v);
    }
}

#[test]
fn tone_samples() {
    let mut audio = Audio::new();
    let chunks = audio.play_tone(440, 200);
    let bytes = flatten(&chunks);
    assert_eq!(bytes.len(), 4800 * 4);
    let cycle = 24000 / 440; // 54
    for f in [0usize, 26, 27, 53, 54, 100] {
        let v = i16::from_le_bytes([bytes[4 * f], bytes[4 * f + 1]]);
        assert_eq!(v, if f % cycle < cycle / 2 { 8000 } else { -8000 });
    }
    assert!(audio.play_tone(440, 0).is_empty());
}

#[test]
fn empty_wave_has_no_chunks() {
    assert!(square_wave_chunks(0, 0, 100).is_empty());
    let c = square_wave_chunks(64, 2, 1);
    assert_eq!(c.len(), 1);
    assert_eq!(c[0][..8], [1, 0, 1, 0, 0xFF, 0xFF, 0xFF, 0xFF]);
}

#[test]
fn speaker_enable_tracking() {
    let mut a = Audio::new();
    assert!(a.speaker_level());
    a.disable_speaker();
    assert!(!a.speaker_level());
    a.enable_speaker();
    assert!(a.speaker_level());
}

#[test]
fn amp_enable_sequence() {
    assert_eq!(amp_enable_regs(), vec![(0x00, 0x00), (0x01, 0x1F), (0x02, 0x01)]);
}
