//! Combined speaker and microphone front end of the first board revision:
//! an NS4168 class-D amplifier (optional I2C configuration at 0x58, enable
//! pin) fed by I2S at 24 kHz, and a PDM microphone.
//!
//! The I2S drivers and the enable pin belong to the hardware layer; this
//! module decides the amplifier register writes, the tone samples and the
//! microphone level, and tracks the level of the enable pin.

use vstd::prelude::*;
use crate::i2c_bus::{table_op, write_reg, BusRequest, RegisterWrites};
use crate::mic::{level_of, peak_level};
use crate::speaker::{chunk_views, concat, square_wave, square_wave_chunks, well_chunked};

verus! {

/// Speaker sample rate of this front end.
pub const SAMPLE_RATE: u32 = 24_000;

/// I2C address of the NS4168.
pub const NS4168_ADDR: u8 = 0x58;

/// Amplitude of the tones.
pub const TONE_AMPLITUDE: i16 = 8000;

/// Size of the microphone receive buffer of one reading.
pub const MIC_PEAK_READ_LEN: usize = 64;

/// The NS4168 register table for a requested volume: the volume is limited
/// to 0x1F.
pub open spec fn ns4168_table(volume: u8) -> Seq<(u8, u8)> {
    seq![
        (0x00u8, 0x00u8),
        (0x01u8, if volume < 0x1F { volume } else { 0x1Fu8 }),
        (0x02u8, 0x01u8),
        (0x03u8, 0x00u8),
    ]
}

/// The amplifier enable writes of the board bring-up: reset register 0,
/// full volume 0x1F, enable; the first failed write ends the sequence.
pub open spec fn amp_enable_table() -> Seq<(u8, u8)> {
    seq![(0x00u8, 0x00u8), (0x01u8, 0x1Fu8), (0x02u8, 0x01u8)]
}

/// The amplifier enable table as a vector.
pub fn amp_enable_regs() -> (v: Vec<(u8, u8)>)
    ensures
        v@ == amp_enable_table(),
{
    let v: Vec<(u8, u8)> = vec![(0x00, 0x00), (0x01, 0x1F), (0x02, 0x01)];
    assert(v@ =~= amp_enable_table());
    v
}

/// Number of frames of a tone lasting `dur_ms` milliseconds.
pub open spec fn tone_frames(dur_ms: int) -> int {
    SAMPLE_RATE * dur_ms / 1000
}

/// Period in frames of a tone of `freq` Hz.
pub open spec fn tone_cycle(freq: int) -> int {
    SAMPLE_RATE as int / freq
}

/// State of the speaker enable pin.
pub struct Audio {
    spk_en: bool,
}

impl Audio {
    /// Level of the speaker enable pin (`true` = amplifier on).
    pub closed spec fn speaker_on(&self) -> bool {
        self.spk_en
    }

    /// A front end with the amplifier enabled, as after power-up.
    pub fn new() -> (a: Self)
        ensures
            a.speaker_on(),
    {
        Audio { spk_en: true }
    }

    /// The level the enable pin must be driven to.
    pub fn speaker_level(&self) -> (on: bool)
        ensures
            on == self.speaker_on(),
    {
        self.spk_en
    }

    /// Starts the amplifier configuration for `volume` (limited to 0x1F);
    /// the first failed write ends it with the bus error.
    pub fn init_ns4168(&self, volume: u8) -> (res: (RegisterWrites, BusRequest))
        ensures
            res.0.wf(),
            res.0.addr() == NS4168_ADDR,
            res.0.regs() == ns4168_table(volume),
            res.0.stop_on_error(),
            res.0.idx() == 0,
            res.1@ == table_op(NS4168_ADDR, ns4168_table(volume), 0),
    {
        let vol = if volume < 0x1F {
            volume
        } else {
            0x1F
        };
        let regs: Vec<(u8, u8)> = vec![(0x00, 0x00), (0x01, vol), (0x02, 0x01), (0x03, 0x00)];
        assert(regs@ =~= ns4168_table(volume));
        let first = write_reg(NS4168_ADDR, 0x00, 0x00);
        let (w, _) = RegisterWrites::start::<()>(NS4168_ADDR, regs, true);
        (w, first)
    }

    /// The sample chunks of a tone of `freq` Hz lasting `dur_ms` ms.
    pub fn play_tone(&mut self, freq: u32, dur_ms: u32) -> (chunks: Vec<Vec<u8>>)
        requires
            SAMPLE_RATE * dur_ms <= u32::MAX,
            freq > 0,
            tone_cycle(freq as int) > 0 || tone_frames(dur_ms as int) == 0,
        ensures
            final(self).speaker_on() == old(self).speaker_on(),
            concat(chunk_views(chunks@)) == square_wave(
                tone_frames(dur_ms as int),
                tone_cycle(freq as int),
                TONE_AMPLITUDE as int,
            ),
            well_chunked(chunk_views(chunks@)),
    {
        let total = (SAMPLE_RATE * dur_ms / 1000) as usize;
        let cycle = (SAMPLE_RATE / freq) as usize;
        assert(total * 4 <= usize::MAX);
        square_wave_chunks(total, cycle, TONE_AMPLITUDE)
    }

    /// Microphone level 0..=100 of the bytes received in one read (up to
    /// `MIC_PEAK_READ_LEN`).
    pub fn read_mic_peak(&mut self, samples: &[u8]) -> (level: u8)
        ensures
            final(self).speaker_on() == old(self).speaker_on(),
            level as int == level_of(samples@),
            level <= 100,
    {
        peak_level(samples)
    }

    /// Turns the amplifier off (the transmitter is stopped too).
    pub fn disable_speaker(&mut self)
        ensures
            !final(self).speaker_on(),
    {
        self.spk_en = false;
    }

    /// Turns the amplifier on.
    pub fn enable_speaker(&mut self)
        ensures
            final(self).speaker_on(),
    {
        self.spk_en = true;
    }
}

/// The amplifier volume register never exceeds 0x1F, and requested volumes
/// up to 0x1F are kept as they are.
pub proof fn lemma_volume_limited(volume: u8)
    ensures
        ns4168_table(volume)[1].1 <= 0x1F,
        volume <= 0x1F ==> ns4168_table(volume)[1].1 == volume,
{
}

} // verus!
