//! ES8311 audio codec set-up (I2C address 0x18).
//!
//! One table configures both the DAC (speaker) and the ADC (microphone)
//! paths. The codec reset (register 0x00 = 0x80) appears once, first:
//! resetting again for the second path would wipe the first one. Register
//! 0x01 uses the microphone clock setting 0xBA (the speaker alone would use
//! 0xB5).

use vstd::prelude::*;
use crate::i2c_bus::{
    table_op, write_reg, writes_next, BusReply, BusRequest, RegisterWrites, WriteOut, WriteStep,
};

verus! {

/// I2C address of the ES8311.
pub const ES8311_ADDR: u8 = 0x18;

/// The register table, in the order it is written.
pub open spec fn es8311_table() -> Seq<(u8, u8)> {
    seq![
        (0x00u8, 0x80u8),  // reset, CSM power on
        (0x01u8, 0xBAu8),  // clock manager: MCLK from BCLK (microphone setting)
        (0x02u8, 0x18u8),  // clock manager: pre-multiplier 3
        (0x0Du8, 0x01u8),  // system: power up analog circuitry
        (0x12u8, 0x00u8),  // system: power up DAC
        (0x13u8, 0x10u8),  // system: enable output to HP drive
        (0x32u8, 0xBFu8),  // DAC volume 0 dB
        (0x37u8, 0x08u8),  // bypass DAC equalizer
        (0x0Eu8, 0x02u8),  // enable analog PGA and ADC modulator
        (0x14u8, 0x10u8),  // select Mic1p-Mic1n, minimum PGA gain
        (0x17u8, 0xFFu8),  // ADC volume, maximum gain
        (0x1Cu8, 0x6Au8),  // ADC equalizer bypass, cancel DC offset
    ]
}

/// The register table as a vector.
pub fn es8311_regs() -> (v: Vec<(u8, u8)>)
    ensures
        v@ == es8311_table(),
{
    let v: Vec<(u8, u8)> = vec![
        (0x00, 0x80),
        (0x01, 0xBA),
        (0x02, 0x18),
        (0x0D, 0x01),
        (0x12, 0x00),
        (0x13, 0x10),
        (0x32, 0xBF),
        (0x37, 0x08),
        (0x0E, 0x02),
        (0x14, 0x10),
        (0x17, 0xFF),
        (0x1C, 0x6A),
    ];
    assert(v@ =~= es8311_table());
    v
}

/// The outcome of the set-up as the caller sees it: any bus error becomes
/// the message "ES8311 I2C".
pub open spec fn es8311_out<E>(out: WriteOut<E>) -> WriteOut<&'static str> {
    match out {
        WriteOut::Request(r) => WriteOut::Request(r),
        WriteOut::Done(Ok(())) => WriteOut::Done(Ok(())),
        WriteOut::Done(Err(_)) => WriteOut::Done(Err("ES8311 I2C")),
    }
}

/// Set-up of the ES8311: the table is written in order and the first failed
/// write ends it.
pub struct Es8311Init {
    writes: RegisterWrites,
}

impl Es8311Init {
    /// Index of the write whose reply is awaited (12 once done).
    pub closed spec fn idx(&self) -> int {
        self.writes.idx()
    }

    pub closed spec fn wf(&self) -> bool {
        &&& self.writes.wf()
        &&& self.writes.addr() == ES8311_ADDR
        &&& self.writes.regs() == es8311_table()
        &&& self.writes.stop_on_error()
    }

    /// Takes the reply to the pending write and returns the next write or
    /// the outcome.
    pub fn step<E>(&mut self, reply: BusReply<E>) -> (out: WriteStep<&'static str>)
        requires
            old(self).wf(),
            old(self).idx() < es8311_table().len(),
        ensures
            final(self).wf(),
            (final(self).idx(), out@) == ({
                let (i, o) = writes_next(ES8311_ADDR, es8311_table(), true, old(self).idx(), reply@);
                (i, es8311_out(o))
            }),
    {
        match self.writes.step(reply) {
            WriteStep::Request(r) => WriteStep::Request(r),
            WriteStep::Done(Ok(())) => WriteStep::Done(Ok(())),
            WriteStep::Done(Err(_)) => WriteStep::Done(Err("ES8311 I2C")),
        }
    }
}

/// Starts the ES8311 set-up; the first output is the reset write.
pub fn init_es8311() -> (res: (Es8311Init, BusRequest))
    ensures
        res.0.wf(),
        res.0.idx() == 0,
        res.1@ == table_op(ES8311_ADDR, es8311_table(), 0),
{
    let regs = es8311_regs();
    let first = write_reg(ES8311_ADDR, 0x00, 0x80);
    let (writes, _) = RegisterWrites::start::<()>(ES8311_ADDR, regs, true);
    (Es8311Init { writes }, first)
}

/// The codec is reset exactly once, by the first write of the table.
pub proof fn lemma_es8311_single_reset()
    ensures
        es8311_table()[0] == (0x00u8, 0x80u8),
        forall|i: int| 1 <= i < es8311_table().len() ==> es8311_table()[i].0 != 0x00,
{
}

/// The clock register is written once, with the microphone setting 0xBA.
pub proof fn lemma_es8311_mic_clock()
    ensures
        forall|i: int|
            0 <= i < es8311_table().len() && es8311_table()[i].0 == 0x01 ==> i == 1
                && es8311_table()[i].1 == 0xBA,
{
}

/// DAC volume of a register 0x32 value, in half decibels: 0x00 is
/// -95.5 dB, each step adds 0.5 dB, 0xBF is 0 dB and 0xFF is +32 dB.
pub open spec fn dac_volume_half_db(v: u8) -> int {
    v as int - 191
}

/// The speaker path is left at unity gain: the DAC volume register 0x32 is
/// written exactly once, with 0 dB.
pub proof fn lemma_es8311_dac_unity_gain()
    ensures
        exists|i: int|
            0 <= i < es8311_table().len() && #[trigger] es8311_table()[i].0 == 0x32
                && dac_volume_half_db(es8311_table()[i].1) == 0,
        forall|i: int, j: int|
            0 <= i < es8311_table().len() && 0 <= j < es8311_table().len()
                && #[trigger] es8311_table()[i].0 == 0x32 && #[trigger] es8311_table()[j].0 == 0x32
                ==> i == j,
        forall|i: int|
            0 <= i < es8311_table().len() && #[trigger] es8311_table()[i].0 == 0x32
                ==> dac_volume_half_db(es8311_table()[i].1) == 0,
{
    assert(es8311_table()[6].0 == 0x32u8);
}

} // verus!
