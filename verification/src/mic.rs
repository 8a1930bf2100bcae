//! Microphone level (ES8311 ADC through I2S1, 16-bit mono at 16 kHz).
//!
//! The level is the largest absolute sample value of one read, scaled to
//! 0..=100 against the full 16-bit range. The I2S read itself is done by
//! the hardware layer, which passes the bytes it received.
//!
//! I2S1 shares BCK, WS and MCK with the speaker's I2S0: both must use the
//! same sample rate when active together.

use vstd::prelude::*;
use crate::imu::le_i16;

verus! {

/// Microphone sample rate.
pub const MIC_SAMPLE_RATE: u32 = 16000;

/// Size of the receive buffer of one level reading.
pub const MIC_READ_LEN: usize = 128;

/// Sample number `k` (little-endian 16-bit) of a received buffer.
pub open spec fn sample_at(buf: Seq<u8>, k: int) -> i16 {
    le_i16(buf[2 * k], buf[2 * k + 1])
}

/// Absolute value of a sample; the most negative sample gives 32768.
pub open spec fn abs_sample(v: i16) -> int {
    if v < 0 {
        -(v as int)
    } else {
        v as int
    }
}

/// Largest absolute value among the first `n` samples (0 when `n` is 0).
pub open spec fn peak_abs(buf: Seq<u8>, n: int) -> int
    decreases n,
{
    if n <= 0 {
        0
    } else {
        let p = peak_abs(buf, n - 1);
        let a = abs_sample(sample_at(buf, n - 1));
        if a > p {
            a
        } else {
            p
        }
    }
}

/// Level of a received buffer in percent: fewer than 4 bytes read give 0;
/// otherwise the peak over the whole 16-bit samples (a trailing odd byte is
/// ignored) times 100, divided by 32768.
pub open spec fn level_of(buf: Seq<u8>) -> int {
    if buf.len() < 4 {
        0
    } else {
        peak_abs(buf, (buf.len() / 2) as int) * 100 / 32768
    }
}

proof fn lemma_peak_bounds(buf: Seq<u8>, n: int)
    requires
        0 <= n,
    ensures
        0 <= peak_abs(buf, n) <= 32768,
    decreases n,
{
    if n > 0 {
        lemma_peak_bounds(buf, n - 1);
    }
}

/// Level in percent of the bytes received in one read.
pub fn peak_level(samples: &[u8]) -> (level: u8)
    ensures
        level as int == level_of(samples@),
        level <= 100,
{
    let n = samples.len();
    if n < 4 {
        return 0;
    }
    let pairs = n / 2;
    let mut max_abs: u16 = 0;
    let mut k: usize = 0;
    while k < pairs
        invariant
            n == samples@.len(),
            pairs == n / 2,
            k <= pairs,
            max_abs as int == peak_abs(samples@, k as int),
        decreases pairs - k,
    {
        let lo = samples[2 * k];
        let hi = samples[2 * k + 1];
        let u: u32 = (hi as u32) * 256 + lo as u32;
        // unsigned absolute value of the signed sample
        let a: u16 = if u < 32768 {
            u as u16
        } else {
            (65536 - u) as u16
        };
        assert(a as int == abs_sample(sample_at(samples@, k as int)));
        if a > max_abs {
            max_abs = a;
        }
        k = k + 1;
    }
    proof {
        lemma_peak_bounds(samples@, pairs as int);
    }
    let level = (max_abs as u32 * 100 / 32768) as u8;
    level
}

/// Microphone front end; the I2S receiver itself belongs to the hardware
/// layer.
pub struct Mic;

impl Mic {
    /// Level 0..=100 of the bytes received in one read (up to
    /// `MIC_READ_LEN`).
    pub fn read_volume(samples: &[u8]) -> (level: u8)
        ensures
            level as int == level_of(samples@),
            level <= 100,
    {
        peak_level(samples)
    }
}

/// The peak over the first `n` samples is at least the absolute value of
/// each of them, and equals one of them when there is one.
proof fn lemma_peak_is_max(buf: Seq<u8>, n: int)
    requires
        0 <= n,
    ensures
        forall|k: int| 0 <= k < n ==> abs_sample(#[trigger] sample_at(buf, k)) <= peak_abs(buf, n),
        n > 0 ==> exists|k: int| 0 <= k < n && peak_abs(buf, n) == abs_sample(#[trigger] sample_at(buf, k)),
    decreases n,
{
    if n > 0 {
        lemma_peak_is_max(buf, n - 1);
        let a = abs_sample(sample_at(buf, n - 1));
        let p = peak_abs(buf, n - 1);
        assert(a >= 0);
        if a > p {
            assert(peak_abs(buf, n) == a);
        } else if n > 1 {
            let k = choose|k: int| 0 <= k < n - 1 && p == abs_sample(#[trigger] sample_at(buf, k));
            assert(0 <= k < n && peak_abs(buf, n) == abs_sample(sample_at(buf, k)));
        } else {
            assert(p == 0);
            assert(peak_abs(buf, n) == a);
        }
    }
}

/// The level of a read with at least two whole samples is the loudest
/// sample scaled to percent: it is at least the scaled absolute value of
/// every 16-bit sample in the buffer (first to last), and equal to that of
/// one of them. Shorter reads give 0.
pub proof fn lemma_level_is_loudest_sample(buf: Seq<u8>)
    ensures
        buf.len() < 4 ==> level_of(buf) == 0,
        buf.len() >= 4 ==> forall|k: int|
            0 <= k < buf.len() / 2 ==> level_of(buf) >= abs_sample(#[trigger] sample_at(buf, k))
                * 100 / 32768,
        buf.len() >= 4 ==> exists|k: int|
            0 <= k < buf.len() / 2 && level_of(buf) == abs_sample(#[trigger] sample_at(buf, k))
                * 100 / 32768,
{
    if buf.len() >= 4 {
        let n = (buf.len() / 2) as int;
        lemma_peak_is_max(buf, n);
        assert forall|k: int| 0 <= k < buf.len() / 2 implies level_of(buf) >= abs_sample(
            #[trigger] sample_at(buf, k),
        ) * 100 / 32768 by {
            vstd::arithmetic::div_mod::lemma_div_is_ordered(
                abs_sample(sample_at(buf, k)) * 100,
                peak_abs(buf, n) * 100,
                32768,
            );
        }
    }
}

} // verus!
