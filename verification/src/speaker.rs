//! Speaker output (ES8311 DAC and NS4168 amplifier through I2S0, 16-bit
//! stereo at 44.1 kHz).
//!
//! Tones are square waves: each frame holds the same 16-bit sample for the
//! left and the right channel, little-endian. The samples are handed to the
//! I2S transmitter in chunks of at most 256 bytes; the hardware layer owns
//! the transmitter and writes the chunks in order.
//!
//! I2S0 shares BCK, WS and MCK with the microphone's I2S1: both must use the
//! same sample rate when active together.

use vstd::prelude::*;

verus! {

/// Speaker sample rate.
pub const SPEAKER_SAMPLE_RATE: u32 = 44100;

/// Largest chunk handed to the I2S transmitter at once.
pub const CHUNK_LEN: usize = 256;

/// Amplitude of the beep.
pub const BEEP_AMPLITUDE: i16 = 12000;

/// Sample of frame `frame` of a square wave of period `cycle` frames: the
/// first half of each period is `+amp`, the second half `-amp`.
pub open spec fn square_sample(frame: int, cycle: int, amp: int) -> int {
    if frame % cycle < cycle / 2 {
        amp
    } else {
        -amp
    }
}

/// The 16-bit two's complement pattern of a sample.
pub open spec fn u16_pattern(v: int) -> int {
    if v < 0 {
        v + 65536
    } else {
        v
    }
}

/// Byte `k` of a stereo square wave: frame `k / 4`, left then right
/// channel, each little-endian.
pub open spec fn wave_byte(k: int, cycle: int, amp: int) -> u8 {
    let p = u16_pattern(square_sample(k / 4, cycle, amp));
    if k % 2 == 0 {
        (p % 256) as u8
    } else {
        (p / 256) as u8
    }
}

/// The bytes of `frames` frames of a stereo square wave.
pub open spec fn square_wave(frames: int, cycle: int, amp: int) -> Seq<u8> {
    Seq::new((frames * 4) as nat, |k: int| wave_byte(k, cycle, amp))
}

/// The chunks written one after the other.
pub open spec fn concat(chunks: Seq<Seq<u8>>) -> Seq<u8>
    decreases chunks.len(),
{
    if chunks.len() == 0 {
        Seq::<u8>::empty()
    } else {
        concat(chunks.drop_last()) + chunks.last()
    }
}

/// Every chunk is non-empty and at most `CHUNK_LEN` bytes, and all but the
/// last are exactly `CHUNK_LEN` bytes.
pub open spec fn well_chunked(chunks: Seq<Seq<u8>>) -> bool {
    forall|i: int|
        0 <= i < chunks.len() ==> 0 < #[trigger] chunks[i].len() <= CHUNK_LEN && (i + 1
            < chunks.len() ==> chunks[i].len() == CHUNK_LEN)
}

/// The chunks as mathematical sequences.
pub open spec fn chunk_views(chunks: Seq<Vec<u8>>) -> Seq<Seq<u8>> {
    chunks.map_values(|c: Vec<u8>| c@)
}

/// Appends one stereo frame holding sample `v` on both channels.
fn push_frame(out: &mut Vec<u8>, v: i16)
    ensures
        final(out)@ == old(out)@ + seq![
            (u16_pattern(v as int) % 256) as u8,
            (u16_pattern(v as int) / 256) as u8,
            (u16_pattern(v as int) % 256) as u8,
            (u16_pattern(v as int) / 256) as u8,
        ],
{
    let p: u32 = if v < 0 {
        (v as i32 + 65536) as u32
    } else {
        v as u32
    };
    let lo = (p % 256) as u8;
    let hi = (p / 256) as u8;
    let ghost before = out@;
    out.push(lo);
    out.push(hi);
    out.push(lo);
    out.push(hi);
    assert(out@ =~= before + seq![lo, hi, lo, hi]);
}

/// The bytes `w .. w + n` of a square wave, `n` a multiple of 4.
fn wave_chunk(w: usize, n: usize, cycle: usize, amp: i16) -> (c: Vec<u8>)
    requires
        w % 4 == 0,
        n % 4 == 0,
        w + n <= usize::MAX,
        cycle > 0,
        amp > i16::MIN,
    ensures
        c@ == Seq::new(n as nat, |k: int| wave_byte(w + k, cycle as int, amp as int)),
{
    let mut c: Vec<u8> = Vec::new();
    let mut j: usize = 0;
    let frames = n / 4;
    while j < frames
        invariant
            w % 4 == 0,
            n % 4 == 0,
            w + n <= usize::MAX,
            frames == n / 4,
            j <= frames,
            cycle > 0,
            amp > i16::MIN,
            c@ == Seq::new((4 * j) as nat, |k: int| wave_byte(w + k, cycle as int, amp as int)),
        decreases frames - j,
    {
        let frame = w / 4 + j;
        let v: i16 = if frame % cycle < cycle / 2 {
            amp
        } else {
            -amp
        };
        push_frame(&mut c, v);
        proof {
            assert((w + 4 * j) / 4 == frame && (w + 4 * j + 1) / 4 == frame);
            assert((w + 4 * j + 2) / 4 == frame && (w + 4 * j + 3) / 4 == frame);
            assert((w + 4 * j) % 2 == 0 && (w + 4 * j + 1) % 2 == 1);
            assert((w + 4 * j + 2) % 2 == 0 && (w + 4 * j + 3) % 2 == 1);
            assert(v as int == square_sample(frame as int, cycle as int, amp as int));
            assert(c@ =~= Seq::new(
                (4 * (j + 1)) as nat,
                |k: int| wave_byte(w + k, cycle as int, amp as int),
            ));
        }
        j = j + 1;
    }
    c
}

/// A square wave of `frames` stereo frames, period `cycle` frames and
/// amplitude `amp`, cut into chunks of `CHUNK_LEN` bytes (the last one may
/// be shorter). No frames give no chunks.
pub fn square_wave_chunks(frames: usize, cycle: usize, amp: i16) -> (chunks: Vec<Vec<u8>>)
    requires
        frames * 4 <= usize::MAX,
        cycle > 0 || frames == 0,
        amp > i16::MIN,
    ensures
        concat(chunk_views(chunks@)) == square_wave(frames as int, cycle as int, amp as int),
        well_chunked(chunk_views(chunks@)),
{
    let total = frames * 4;
    let mut chunks: Vec<Vec<u8>> = Vec::new();
    let mut w: usize = 0;
    let ghost wave = square_wave(frames as int, cycle as int, amp as int);
    while w < total
        invariant
            total == frames * 4,
            total <= usize::MAX,
            cycle > 0 || frames == 0,
            amp > i16::MIN,
            w <= total,
            w % 4 == 0,
            wave == square_wave(frames as int, cycle as int, amp as int),
            concat(chunk_views(chunks@)) == wave.subrange(0, w as int),
            forall|i: int|
                0 <= i < chunks@.len() ==> 0 < #[trigger] chunk_views(chunks@)[i].len()
                    <= CHUNK_LEN && (chunk_views(chunks@)[i].len() == CHUNK_LEN || (i + 1
                    == chunks@.len() && w == total)),
        decreases total - w,
    {
        let rest = total - w;
        let n = if rest < CHUNK_LEN {
            rest
        } else {
            CHUNK_LEN
        };
        let c = wave_chunk(w, n, cycle, amp);
        let ghost old_views = chunk_views(chunks@);
        let ghost cv = c@;
        chunks.push(c);
        proof {
            assert(chunk_views(chunks@) =~= old_views.push(cv));
            assert(chunk_views(chunks@).drop_last() =~= old_views);
            assert(cv =~= wave.subrange(w as int, (w + n) as int));
            assert(wave.subrange(0, (w + n) as int) =~= wave.subrange(0, w as int) + wave.subrange(
                w as int,
                (w + n) as int,
            ));
        }
        w = w + n;
    }
    proof {
        assert(wave.subrange(0, total as int) =~= wave);
    }
    chunks
}

/// Speaker front end; the I2S transmitter itself belongs to the hardware
/// layer.
pub struct Speaker;

impl Speaker {
    /// The chunks of a 50 ms, 1 kHz beep at amplitude 12000: 2205 frames
    /// with a period of 44 frames.
    pub fn beep() -> (chunks: Vec<Vec<u8>>)
        ensures
            concat(chunk_views(chunks@)) == square_wave(2205, 44, 12000),
            well_chunked(chunk_views(chunks@)),
    {
        let total = (SPEAKER_SAMPLE_RATE * 50 / 1000) as usize;
        let cycle = (SPEAKER_SAMPLE_RATE / 1000) as usize;
        square_wave_chunks(total, cycle, BEEP_AMPLITUDE)
    }
}

/// The two channels of every frame carry the same sample, and every sample
/// is `+amp` or `-amp`.
pub proof fn lemma_wave_stereo(frames: int, cycle: int, amp: int, f: int)
    requires
        0 <= f < frames,
        cycle > 0,
        0 <= amp < 32768,
    ensures
        square_wave(frames, cycle, amp)[4 * f] == square_wave(frames, cycle, amp)[4 * f + 2],
        square_wave(frames, cycle, amp)[4 * f + 1] == square_wave(frames, cycle, amp)[4 * f + 3],
        square_sample(f, cycle, amp) == amp || square_sample(f, cycle, amp) == -amp,
{
    assert((4 * f) / 4 == f && (4 * f + 2) / 4 == f && (4 * f + 1) / 4 == f && (4 * f + 3) / 4
        == f);
}

} // verus!
