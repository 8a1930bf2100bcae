//! M5PM1 power manager set-up (I2C address 0x6E).
//!
//! The display backlight is powered from PMIC GPIO2, which must be driven
//! high. The PMIC sits on pins 47/48, but the I2C controller to use is not
//! known in advance: controller 0 is tried first and controller 1 only when
//! controller 0 cannot be opened or does not answer the id read.
//!
//! Notes kept from the hardware bring-up:
//! - GPIO_OUT (0x11) is read, modified and written back: overwriting the
//!   whole byte would switch off other outputs, so bit 2 (GPIO2, backlight)
//!   is set and every other bit keeps the value read;
//! - I2C_CFG (0x09) must be 0x00, otherwise the PMIC stops answering after
//!   half an hour of bus idleness;
//! - the GPIOs default to open drain: 0x13 must be set to 0x00 (push-pull)
//!   before the output levels are written;
//! - an id of 0xFF is normal for this custom firmware.

use vstd::prelude::*;
use crate::i2c_bus::{reg_write, write_reg, BusOp, BusReply, BusRequest, Reply};
use crate::imu::reply_byte;

verus! {

/// I2C address of the M5PM1.
pub const PMIC_ADDR: u8 = 0x6E;

/// GPIO output level register.
pub const GPIO_OUT: u8 = 0x11;

/// GPIO direction register: a set bit makes that GPIO an output.
pub const GPIO_DIR: u8 = 0x10;

/// The bit of PMIC GPIO2, which powers the display backlight.
pub const GPIO2_BIT: u8 = 0x04;

/// The register table applied once the PMIC answered, in order. Each entry
/// is written as given, except GPIO_OUT: its entry gives the bits to set,
/// which are or-ed into the value read back from the register.
pub open spec fn pmic_table() -> Seq<(u8, u8)> {
    seq![
        (0x07u8, 0x05u8),  // HOLD_CFG: hold GPIO0 and GPIO2 (NeoPixel, backlight)
        (0x06u8, 0x17u8),  // keep charger, DCDC, LDO and LED defaults
        (0x09u8, 0x00u8),  // I2C_CFG: no idle sleep
        (0x16u8, 0x00u8),  // GPIO0..3 in GPIO function
        (0x10u8, 0x04u8),  // GPIO0/1 inputs, GPIO2 output, GPIO3 input
        (0x13u8, 0x00u8),  // push-pull outputs
        (0x11u8, 0x04u8),  // set GPIO2 high (backlight on), keep the other outputs
        (0x43u8, 0x1Fu8),  // mask all IRQs
        (0x45u8, 0x07u8),
    ]
}

/// The writes that power the audio amplifier (PMIC GPIO3) in addition to
/// the backlight, performed before the codec is set up.
pub open spec fn audio_power_table() -> Seq<(u8, u8)> {
    seq![(0x16u8, 0x00u8), (0x10u8, 0x0Cu8), (0x13u8, 0x00u8), (0x11u8, 0x0Cu8)]
}

/// The audio power table as a vector.
pub fn audio_power_regs() -> (v: Vec<(u8, u8)>)
    ensures
        v@ == audio_power_table(),
{
    let v: Vec<(u8, u8)> = vec![(0x16, 0x00), (0x10, 0x0C), (0x13, 0x00), (0x11, 0x0C)];
    assert(v@ =~= audio_power_table());
    v
}

fn pmic_reg(i: usize) -> (r: (u8, u8))
    requires
        i < 9,
    ensures
        r == pmic_table()[i as int],
{
    let t: [(u8, u8); 9] = [
        (0x07, 0x05),
        (0x06, 0x17),
        (0x09, 0x00),
        (0x16, 0x00),
        (0x10, 0x04),
        (0x13, 0x00),
        (0x11, 0x04),
        (0x43, 0x1F),
        (0x45, 0x07),
    ];
    t[i]
}

/// Where the PMIC set-up stands.
#[derive(Clone, Copy, PartialEq, Eq, Structural)]
pub enum PmicPhase {
    /// Waiting for I2C controller `bus` to be opened on pins 47/48.
    Open(u8),
    /// Waiting for the id read on controller `bus`.
    ReadId(u8),
    /// Waiting for table write number `i` on controller `bus`.
    Configure(u8, usize),
    /// Waiting for the read of GPIO_OUT before table entry `i` on
    /// controller `bus`.
    ReadOut(u8, usize),
    /// Done.
    Finished,
}

/// What the hardware layer reports back.
#[derive(Debug, PartialEq, Eq)]
pub enum PmicEvent<E> {
    /// Whether the requested I2C controller could be opened.
    Opened(bool),
    /// Reply to a bus request.
    Bus(BusReply<E>),
}

/// A [`PmicEvent`] as a mathematical value.
pub enum PmicEv<E> {
    Opened(bool),
    Bus(Reply<E>),
}

impl<E> View for PmicEvent<E> {
    type V = PmicEv<E>;

    open spec fn view(&self) -> PmicEv<E> {
        match self {
            PmicEvent::Opened(b) => PmicEv::Opened(*b),
            PmicEvent::Bus(r) => PmicEv::Bus(r@),
        }
    }
}

/// What the hardware layer is asked to do next.
#[derive(Debug, PartialEq, Eq)]
pub enum PmicAction {
    /// Open I2C controller `bus` (dropping any controller opened before).
    OpenBus(u8),
    /// Perform a request on the controller opened last.
    Bus(BusRequest),
    /// Finished: the controller on which the PMIC answered, if any; it stays
    /// open for the other devices on the bus.
    Done(Option<u8>),
}

/// A [`PmicAction`] as a mathematical value.
pub enum PmicOut {
    OpenBus(u8),
    Bus(BusOp),
    Done(Option<u8>),
}

impl View for PmicAction {
    type V = PmicOut;

    open spec fn view(&self) -> PmicOut {
        match self {
            PmicAction::OpenBus(b) => PmicOut::OpenBus(*b),
            PmicAction::Bus(r) => PmicOut::Bus(r@),
            PmicAction::Done(d) => PmicOut::Done(*d),
        }
    }
}

/// The id read (register 0x00).
pub open spec fn id_read_op() -> BusOp {
    BusOp::WriteRead { addr: PMIC_ADDR, reg: 0x00, len: 1 }
}

/// Controller `bus` did not work out: try controller 1 after controller 0,
/// give up after controller 1.
pub open spec fn next_bus(bus: u8) -> (PmicPhase, PmicOut) {
    if bus == 0 {
        (PmicPhase::Open(1), PmicOut::OpenBus(1))
    } else {
        (PmicPhase::Finished, PmicOut::Done(None))
    }
}

/// The byte carried by a read reply (0 when the read failed).
pub open spec fn ev_byte<E>(ev: PmicEv<E>) -> u8 {
    match ev {
        PmicEv::Bus(r) => reply_byte(r, 0),
        _ => 0,
    }
}

/// Start table entry `j` on controller `bus`: a plain write, or for
/// GPIO_OUT a read of its current value; after the last entry the set-up is
/// done on `bus`.
pub open spec fn entry_start(bus: u8, j: int) -> (PmicPhase, PmicOut) {
    if j >= pmic_table().len() {
        (PmicPhase::Finished, PmicOut::Done(Some(bus)))
    } else if pmic_table()[j].0 == GPIO_OUT {
        (
            PmicPhase::ReadOut(bus, j as usize),
            PmicOut::Bus(BusOp::WriteRead { addr: PMIC_ADDR, reg: GPIO_OUT, len: 1 }),
        )
    } else {
        (
            PmicPhase::Configure(bus, j as usize),
            PmicOut::Bus(reg_write(PMIC_ADDR, pmic_table()[j].0, pmic_table()[j].1)),
        )
    }
}

/// One set-up step. The table entries are all attempted, whatever the bus
/// answers to each; GPIO_OUT gets the value read or-ed with the entry's
/// bits (a failed read counts as 0).
pub open spec fn pmic_next<E>(phase: PmicPhase, ev: PmicEv<E>) -> (PmicPhase, PmicOut) {
    match phase {
        PmicPhase::Open(bus) => {
            if ev == PmicEv::<E>::Opened(true) {
                (PmicPhase::ReadId(bus), PmicOut::Bus(id_read_op()))
            } else {
                next_bus(bus)
            }
        },
        PmicPhase::ReadId(bus) => {
            if (ev matches PmicEv::Bus(Reply::Read(Ok(_)))) {
                entry_start(bus, 0)
            } else {
                next_bus(bus)
            }
        },
        PmicPhase::ReadOut(bus, j) => (
            PmicPhase::Configure(bus, j),
            PmicOut::Bus(reg_write(PMIC_ADDR, GPIO_OUT, ev_byte(ev) | pmic_table()[j as int].1)),
        ),
        PmicPhase::Configure(bus, i) => entry_start(bus, i + 1),
        PmicPhase::Finished => (PmicPhase::Finished, PmicOut::Done(None)),
    }
}

/// Indices stay in range.
pub open spec fn pmic_phase_ok(phase: PmicPhase) -> bool {
    match phase {
        PmicPhase::Open(b) => b < 2,
        PmicPhase::ReadId(b) => b < 2,
        PmicPhase::Configure(b, i) => b < 2 && i < 9,
        PmicPhase::ReadOut(b, i) => b < 2 && i < 9 && pmic_table()[i as int].0 == GPIO_OUT,
        PmicPhase::Finished => true,
    }
}

/// Set-up state of the power manager.
pub struct PmicInit {
    phase: PmicPhase,
}

impl PmicInit {
    pub closed spec fn phase(&self) -> PmicPhase {
        self.phase
    }

    /// Takes what the hardware layer reports and returns what to do next.
    pub fn step<E>(&mut self, ev: PmicEvent<E>) -> (out: PmicAction)
        requires
            pmic_phase_ok(old(self).phase()),
        ensures
            pmic_phase_ok(final(self).phase()),
            (final(self).phase(), out@) == pmic_next(old(self).phase(), ev@),
    {
        match self.phase {
            PmicPhase::Open(bus) => {
                let opened = match ev {
                    PmicEvent::Opened(true) => true,
                    _ => false,
                };
                if opened {
                    self.phase = PmicPhase::ReadId(bus);
                    PmicAction::Bus(BusRequest::WriteRead { addr: PMIC_ADDR, reg: 0x00, len: 1 })
                } else {
                    self.fail(bus)
                }
            },
            PmicPhase::ReadId(bus) => {
                let answered = match ev {
                    PmicEvent::Bus(BusReply::Read(Ok(_))) => true,
                    _ => false,
                };
                if answered {
                    self.start_entry(bus, 0)
                } else {
                    self.fail(bus)
                }
            },
            PmicPhase::ReadOut(bus, j) => {
                let old_value: u8 = match &ev {
                    PmicEvent::Bus(BusReply::Read(Ok(v))) => if v.len() > 0 {
                        v[0]
                    } else {
                        0
                    },
                    _ => 0,
                };
                let (r, bits) = pmic_reg(j);
                self.phase = PmicPhase::Configure(bus, j);
                PmicAction::Bus(write_reg(PMIC_ADDR, r, old_value | bits))
            },
            PmicPhase::Configure(bus, i) => self.start_entry(bus, i + 1),
            PmicPhase::Finished => PmicAction::Done(None),
        }
    }

    fn start_entry(&mut self, bus: u8, j: usize) -> (out: PmicAction)
        requires
            bus < 2,
            j <= 9,
        ensures
            pmic_phase_ok(final(self).phase()),
            (final(self).phase(), out@) == entry_start(bus, j as int),
    {
        if j >= 9 {
            self.phase = PmicPhase::Finished;
            PmicAction::Done(Some(bus))
        } else {
            let (r, v) = pmic_reg(j);
            if r == GPIO_OUT {
                self.phase = PmicPhase::ReadOut(bus, j);
                PmicAction::Bus(BusRequest::WriteRead { addr: PMIC_ADDR, reg: GPIO_OUT, len: 1 })
            } else {
                self.phase = PmicPhase::Configure(bus, j);
                PmicAction::Bus(write_reg(PMIC_ADDR, r, v))
            }
        }
    }

    fn fail(&mut self, bus: u8) -> (out: PmicAction)
        requires
            bus < 2,
        ensures
            (final(self).phase(), out@) == next_bus(bus),
    {
        if bus == 0 {
            self.phase = PmicPhase::Open(1);
            PmicAction::OpenBus(1)
        } else {
            self.phase = PmicPhase::Finished;
            PmicAction::Done(None)
        }
    }
}

/// Starts the PMIC set-up: the first action opens I2C controller 0.
pub fn init_pmic() -> (res: (PmicInit, PmicAction))
    ensures
        res.0.phase() == PmicPhase::Open(0),
        res.1@ == PmicOut::OpenBus(0),
{
    (PmicInit { phase: PmicPhase::Open(0) }, PmicAction::OpenBus(0))
}

/// The backlight stays powered without disturbing the other outputs:
/// GPIO_OUT is only written right after it was read, with the value read
/// or-ed with 0x04, so bit 2 (GPIO2) is set and every other bit keeps its
/// value; push-pull mode (0x13 = 0) is set before GPIO_OUT is touched, and
/// I2C idle sleep is disabled (0x09 = 0). The audio power table also keeps
/// bit 2 and raises bit 3 (GPIO3).
pub proof fn lemma_backlight_kept_on<E>(phase: PmicPhase, ev: PmicEv<E>)
    requires
        pmic_phase_ok(phase),
    ensures
        pmic_next(phase, ev).1 matches PmicOut::Bus(BusOp::Write { bytes, .. }) ==> (bytes[0]
            == GPIO_OUT ==> (phase is ReadOut && bytes == seq![GPIO_OUT, ev_byte(ev) | 0x04u8]
            && (ev_byte(ev) | 0x04u8) & 0x04u8 != 0 && (ev_byte(ev) | 0x04u8) & 0xFBu8 == ev_byte(
            ev,
        ) & 0xFBu8)),
        forall|i: int|
            0 <= i < pmic_table().len() && pmic_table()[i].0 == GPIO_OUT ==> pmic_table()[i].1
                == 0x04 && (exists|j: int| 0 <= j < i && pmic_table()[j] == (0x13u8, 0x00u8)),
        exists|i: int| 0 <= i < pmic_table().len() && pmic_table()[i] == (0x09u8, 0x00u8),
        forall|i: int|
            0 <= i < audio_power_table().len() && audio_power_table()[i].0 == 0x11
                ==> audio_power_table()[i].1 & 0x04 != 0 && audio_power_table()[i].1 & 0x08 != 0
                && (exists|j: int| 0 <= j < i && audio_power_table()[j] == (0x13u8, 0x00u8)),
{
    let x = ev_byte(ev);
    assert((x | 0x04u8) & 0x04u8 != 0 && (x | 0x04u8) & 0xFBu8 == x & 0xFBu8) by (bit_vector);
    assert(0x0Cu8 & 0x04u8 != 0) by (bit_vector);
    assert(0x0Cu8 & 0x08u8 != 0) by (bit_vector);
    assert(pmic_table()[5] == (0x13u8, 0x00u8));
    assert(pmic_table()[2] == (0x09u8, 0x00u8));
    assert(audio_power_table()[2] == (0x13u8, 0x00u8));
}

/// Controller 1 is only tried after controller 0 failed (could not be
/// opened or did not answer); any id value counts as an answer (this
/// firmware reports 0xFF); and once the PMIC answered, every table entry is
/// attempted in order whatever the bus replies.
pub proof fn lemma_pmic_bus_order<E>(phase: PmicPhase, ev: PmicEv<E>)
    requires
        pmic_phase_ok(phase),
    ensures
        pmic_next(phase, ev).1 == PmicOut::OpenBus(1) ==> (phase == PmicPhase::Open(0) || phase
            == PmicPhase::ReadId(0)),
        phase matches PmicPhase::Configure(b, i) ==> (i + 1 < 9 ==> pmic_next(phase, ev)
            == entry_start(b, i + 1)),
        phase matches PmicPhase::ReadOut(b, j) ==> pmic_next(phase, ev).0 == PmicPhase::Configure(
            b,
            j,
        ),
        phase matches PmicPhase::ReadId(b) ==> (ev matches PmicEv::Bus(Reply::Read(Ok(_)))
            ==> pmic_next(phase, ev) == entry_start(b, 0)),
{
}

/// The backlight level reaches the pin: in the set-up table every write of
/// GPIO_OUT comes after a write of the direction register that makes GPIO2
/// an output, and no direction write before it makes GPIO2 an input. The
/// audio power table does the same for GPIO2 and also makes GPIO3 (the
/// amplifier supply) an output.
pub proof fn lemma_backlight_pin_is_output()
    ensures
        forall|i: int|
            0 <= i < pmic_table().len() && #[trigger] pmic_table()[i].0 == GPIO_OUT ==> (exists|j: int|
                0 <= j < i && #[trigger] pmic_table()[j].0 == GPIO_DIR && pmic_table()[j].1
                    & GPIO2_BIT != 0) && (forall|j: int|
                0 <= j < i && #[trigger] pmic_table()[j].0 == GPIO_DIR ==> pmic_table()[j].1
                    & GPIO2_BIT != 0),
        forall|i: int|
            0 <= i < audio_power_table().len() && #[trigger] audio_power_table()[i].0 == GPIO_OUT
                ==> (exists|j: int|
                0 <= j < i && #[trigger] audio_power_table()[j].0 == GPIO_DIR
                    && audio_power_table()[j].1 & GPIO2_BIT != 0 && audio_power_table()[j].1 & 0x08
                    != 0) && (forall|j: int|
                0 <= j < i && #[trigger] audio_power_table()[j].0 == GPIO_DIR
                    ==> audio_power_table()[j].1 & GPIO2_BIT != 0),
{
    assert(0x04u8 & 0x04u8 != 0) by (bit_vector);
    assert(0x0Cu8 & 0x04u8 != 0 && 0x0Cu8 & 0x08u8 != 0) by (bit_vector);
    assert(pmic_table()[4].0 == GPIO_DIR);
    assert(audio_power_table()[1].0 == GPIO_DIR);
}

} // verus!
