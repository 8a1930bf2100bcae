//! BMI270 six-axis IMU over I2C (address 0x68 or 0x69, chip id 0x24).
//!
//! Bringing the chip up alternates bus transfers, pauses and decisions, so it
//! is written as a step function: [`Imu::new`] returns an [`ImuInit`] and the
//! first request; [`ImuInit::step`] takes the reply to the previous request
//! and returns the next one, until it returns the finished [`Imu`] or an
//! [`Error`]. Reading a sample works the same way through [`ReadAll`].
//!
//! Notes kept from the hardware bring-up:
//! - the configuration blob is loaded through INIT_ADDR (0x5B/0x5C) and
//!   INIT_DATA (0x5E), never through 0x50 (FEATURES_PAGE);
//! - the data registers may only be used after INTERNAL_STATUS (0x21)
//!   reports 0x01 (init ok);
//! - GYR_CONF must not use output data rate 0x04 (reserved, no gyro data);
//! - the temperature register reads 0x8000 until its first update;
//! - with ACC_RANGE = 3 (+-16 g) the scale is 2048 LSB/g.

use vstd::prelude::*;
use crate::i2c_bus::{reg_write, write_reg, BusOp, BusReply, BusRequest, Reply};

verus! {

/// Chip id of the BMI270 (register 0x00).
pub const BMI270_CHIP_ID: u8 = 0x24;

/// Number of 32-byte pages of the configuration blob.
pub const CONFIG_PAGES: usize = 256;

/// Bytes per configuration page.
pub const PAGE_LEN: usize = 32;

/// Size of the configuration blob.
pub const CONFIG_LEN: usize = 8192;

/// How many times INTERNAL_STATUS is polled (1 ms apart) before giving up.
pub const INIT_POLLS: u32 = 100;

/// How many times STATUS is polled for data-ready before the trial read.
pub const READY_POLLS: u32 = 10;

/// Accelerometer scale at +-16 g, in LSB per g.
pub const ACC_LSB_PER_G: u32 = 2048;

/// Temperature register value meaning "not updated yet".
pub const TEMP_INVALID: i16 = -32768;

/// IMU driver error.
#[derive(Debug, PartialEq, Eq)]
pub enum Error<E> {
    /// The bus reported an error.
    I2c(E),
    /// The chip did not behave as expected.
    Custom(&'static str),
}

/// An initialised BMI270 at a known bus address.
#[derive(Debug, Clone, Copy, PartialEq, Eq, Structural)]
pub struct Imu {
    pub addr: u8,
}

/// Where the bring-up sequence stands: which request is awaiting its reply.
#[derive(Clone, Copy, PartialEq, Eq, Structural)]
pub enum InitPhase {
    /// Chip-id read at probe address number `i` (0: 0x68, 1: 0x69).
    Probe(usize),
    /// Step `s` of the reset and load-mode preparation.
    Setup(usize),
    /// Part `part` (0: INIT_ADDR_0, 1: INIT_ADDR_1, 2: INIT_DATA) of page `page`.
    Upload { page: usize, part: usize },
    /// The INIT_CTRL write that starts the chip's initialisation.
    Trigger,
    /// The 1 ms pause before status poll number `a`.
    PollWait(u32),
    /// INTERNAL_STATUS read number `a`.
    PollRead(u32),
    /// The last INTERNAL_STATUS read after all polls failed.
    FailRead,
    /// Step `s` of the sensor enable and configuration.
    Enable(usize),
    /// STATUS read number `i` while waiting for data-ready.
    ReadyRead(u32),
    /// The 10 ms pause after STATUS read number `i`.
    ReadyWait(u32),
    /// The trial read of the data registers.
    TrialRead,
    /// The sequence has ended; a further step answers with the error
    /// "finished".
    Finished,
}

/// Output of one bring-up step.
#[derive(Debug, PartialEq, Eq)]
pub enum InitStep<E> {
    /// Perform this request and pass its reply to the next step.
    Request(BusRequest),
    /// The sequence ended.
    Done(Result<Imu, Error<E>>),
}

/// An [`InitStep`] as a mathematical value.
pub enum InitOut<E> {
    Request(BusOp),
    Done(Result<Imu, Error<E>>),
}

impl<E> View for InitStep<E> {
    type V = InitOut<E>;

    open spec fn view(&self) -> InitOut<E> {
        match self {
            InitStep::Request(r) => InitOut::Request(r@),
            InitStep::Done(d) => InitOut::Done(*d),
        }
    }
}

/// Byte `i` of a read reply; bytes that were not read count as zero, as in
/// a zero-initialised receive buffer.
pub open spec fn reply_byte<E>(reply: Reply<E>, i: int) -> u8 {
    match reply {
        Reply::Read(Ok(b)) => if 0 <= i < b.len() {
            b[i]
        } else {
            0
        },
        _ => 0,
    }
}

/// The bus error carried by a failed write reply.
pub open spec fn write_error<E>(reply: Reply<E>) -> Option<E> {
    match reply {
        Reply::Written(Err(e)) => Some(e),
        _ => None,
    }
}

/// The bus error carried by a failed read reply.
pub open spec fn read_error<E>(reply: Reply<E>) -> Option<E> {
    match reply {
        Reply::Read(Err(e)) => Some(e),
        _ => None,
    }
}

/// Probe address number `i`.
pub open spec fn probe_addr(i: int) -> u8 {
    if i == 0 {
        0x68
    } else {
        0x69
    }
}

/// The chip-id read at probe address number `i`.
pub open spec fn probe_op(i: int) -> BusOp {
    BusOp::WriteRead { addr: probe_addr(i), reg: 0x00, len: 1 }
}

/// Soft reset, 100 ms, advanced power save off, 5 ms, load mode, 5 ms.
pub open spec fn setup_op(addr: u8, s: int) -> BusOp {
    if s == 0 {
        reg_write(addr, 0x7E, 0xB6)
    } else if s == 1 {
        BusOp::DelayMs(100)
    } else if s == 2 {
        reg_write(addr, 0x7C, 0x00)
    } else if s == 3 {
        BusOp::DelayMs(5)
    } else if s == 4 {
        reg_write(addr, 0x59, 0x00)
    } else {
        BusOp::DelayMs(5)
    }
}

/// Number of preparation steps.
pub open spec fn setup_len() -> int {
    6
}

/// Page `page` of the configuration blob.
pub open spec fn config_page(config: Seq<u8>, page: int) -> Seq<u8> {
    config.subrange(page * 32, page * 32 + 32)
}

/// Part `part` of the upload of page `page`: INIT_ADDR_0 = 0, INIT_ADDR_1 =
/// page number, then INIT_DATA followed by the 32 page bytes.
pub open spec fn upload_op(addr: u8, config: Seq<u8>, page: int, part: int) -> BusOp {
    if part == 0 {
        reg_write(addr, 0x5B, 0x00)
    } else if part == 1 {
        reg_write(addr, 0x5C, page as u8)
    } else {
        BusOp::Write { addr, bytes: seq![0x5Eu8] + config_page(config, page) }
    }
}

/// Power save off, 5 ms, enable acc+gyr+temp, 50 ms, ACC_CONF = 0xA8
/// (100 Hz, performance), ACC_RANGE = 3 (+-16 g), GYR_CONF = 0xA9 (200 Hz,
/// performance), GYR_RANGE = 0 (+-2000 dps), 50 ms.
pub open spec fn enable_op(addr: u8, s: int) -> BusOp {
    if s == 0 {
        reg_write(addr, 0x7C, 0x00)
    } else if s == 1 {
        BusOp::DelayMs(5)
    } else if s == 2 {
        reg_write(addr, 0x7D, 0x0E)
    } else if s == 3 {
        BusOp::DelayMs(50)
    } else if s == 4 {
        reg_write(addr, 0x40, 0xA8)
    } else if s == 5 {
        reg_write(addr, 0x41, 0x03)
    } else if s == 6 {
        reg_write(addr, 0x42, 0xA9)
    } else if s == 7 {
        reg_write(addr, 0x43, 0x00)
    } else {
        BusOp::DelayMs(50)
    }
}

/// Number of enable steps.
pub open spec fn enable_len() -> int {
    9
}

/// One bring-up step: from the phase, the address found so far, the
/// configuration blob and the reply to the pending request, the next phase,
/// address and output.
pub open spec fn init_next<E>(phase: InitPhase, addr: u8, config: Seq<u8>, reply: Reply<E>) -> (
    InitPhase,
    u8,
    InitOut<E>,
) {
    match phase {
        InitPhase::Probe(i) => {
            if (reply matches Reply::Read(Ok(b)) && b.len() > 0 && b[0] == BMI270_CHIP_ID) {
                (InitPhase::Setup(0), probe_addr(i as int), InitOut::Request(setup_op(probe_addr(i as int), 0)))
            } else if i == 0 {
                (InitPhase::Probe(1), addr, InitOut::Request(probe_op(1)))
            } else {
                (InitPhase::Finished, addr, InitOut::Done(Err(Error::Custom("BMI270 not found"))))
            }
        },
        InitPhase::Setup(s) => {
            if write_error(reply) is Some {
                (InitPhase::Finished, addr, InitOut::Done(Err(Error::I2c(write_error(reply)->0))))
            } else if s + 1 < setup_len() {
                (InitPhase::Setup((s + 1) as usize), addr, InitOut::Request(setup_op(addr, s + 1)))
            } else {
                (InitPhase::Upload { page: 0, part: 0 }, addr, InitOut::Request(upload_op(addr, config, 0, 0)))
            }
        },
        InitPhase::Upload { page, part } => {
            if write_error(reply) is Some {
                (InitPhase::Finished, addr, InitOut::Done(Err(Error::I2c(write_error(reply)->0))))
            } else if part < 2 {
                (
                    InitPhase::Upload { page, part: (part + 1) as usize },
                    addr,
                    InitOut::Request(upload_op(addr, config, page as int, part + 1)),
                )
            } else if page + 1 < CONFIG_PAGES {
                (
                    InitPhase::Upload { page: (page + 1) as usize, part: 0 },
                    addr,
                    InitOut::Request(upload_op(addr, config, page + 1, 0)),
                )
            } else {
                (InitPhase::Trigger, addr, InitOut::Request(reg_write(addr, 0x59, 0x01)))
            }
        },
        InitPhase::Trigger => {
            if write_error(reply) is Some {
                (InitPhase::Finished, addr, InitOut::Done(Err(Error::I2c(write_error(reply)->0))))
            } else {
                (InitPhase::PollWait(0), addr, InitOut::Request(BusOp::DelayMs(1)))
            }
        },
        InitPhase::PollWait(a) => (
            InitPhase::PollRead(a),
            addr,
            InitOut::Request(BusOp::WriteRead { addr, reg: 0x21, len: 1 }),
        ),
        InitPhase::PollRead(a) => {
            if reply_byte(reply, 0) & 0x0F == 0x01 {
                (InitPhase::Enable(0), addr, InitOut::Request(enable_op(addr, 0)))
            } else if a + 1 < INIT_POLLS {
                (InitPhase::PollWait((a + 1) as u32), addr, InitOut::Request(BusOp::DelayMs(1)))
            } else {
                (InitPhase::FailRead, addr, InitOut::Request(BusOp::WriteRead { addr, reg: 0x21, len: 1 }))
            }
        },
        InitPhase::FailRead => (
            InitPhase::Finished,
            addr,
            InitOut::Done(Err(Error::Custom("BMI270 init failed"))),
        ),
        InitPhase::Enable(s) => {
            if write_error(reply) is Some {
                (InitPhase::Finished, addr, InitOut::Done(Err(Error::I2c(write_error(reply)->0))))
            } else if s + 1 < enable_len() {
                (InitPhase::Enable((s + 1) as usize), addr, InitOut::Request(enable_op(addr, s + 1)))
            } else {
                (InitPhase::ReadyRead(0), addr, InitOut::Request(BusOp::WriteRead { addr, reg: 0x03, len: 1 }))
            }
        },
        InitPhase::ReadyRead(i) => {
            if reply_byte(reply, 0) & 0xC0 != 0 {
                (InitPhase::TrialRead, addr, InitOut::Request(BusOp::WriteRead { addr, reg: 0x0C, len: 12 }))
            } else {
                (InitPhase::ReadyWait(i), addr, InitOut::Request(BusOp::DelayMs(10)))
            }
        },
        InitPhase::ReadyWait(i) => {
            if i + 1 < READY_POLLS {
                (InitPhase::ReadyRead((i + 1) as u32), addr, InitOut::Request(BusOp::WriteRead { addr, reg: 0x03, len: 1 }))
            } else {
                (InitPhase::TrialRead, addr, InitOut::Request(BusOp::WriteRead { addr, reg: 0x0C, len: 12 }))
            }
        },
        InitPhase::TrialRead => {
            if read_error(reply) is Some {
                (InitPhase::Finished, addr, InitOut::Done(Err(Error::I2c(read_error(reply)->0))))
            } else {
                (InitPhase::Finished, addr, InitOut::Done(Ok(Imu { addr })))
            }
        },
        InitPhase::Finished => (InitPhase::Finished, addr, InitOut::Done(Err(Error::Custom("finished")))),
    }
}

/// Indices stay within the ranges of their phase.
pub open spec fn phase_in_range(phase: InitPhase) -> bool {
    match phase {
        InitPhase::Probe(i) => i < 2,
        InitPhase::Setup(s) => s < 6,
        InitPhase::Upload { page, part } => page < CONFIG_PAGES && part < 3,
        InitPhase::PollWait(a) => a < INIT_POLLS,
        InitPhase::PollRead(a) => a < INIT_POLLS,
        InitPhase::Enable(s) => s < 9,
        InitPhase::ReadyRead(i) => i < READY_POLLS,
        InitPhase::ReadyWait(i) => i < READY_POLLS,
        _ => true,
    }
}

/// Bring-up state of the BMI270.
pub struct ImuInit {
    phase: InitPhase,
    addr: u8,
    config: Vec<u8>,
}

impl ImuInit {
    pub closed spec fn phase(&self) -> InitPhase {
        self.phase
    }

    pub closed spec fn addr(&self) -> u8 {
        self.addr
    }

    pub closed spec fn config(&self) -> Seq<u8> {
        self.config@
    }

    pub closed spec fn wf(&self) -> bool {
        self.config@.len() >= CONFIG_LEN && phase_in_range(self.phase)
    }

    /// Whether the sequence has ended.
    pub fn is_finished(&self) -> (b: bool)
        ensures
            b == (self.phase() == InitPhase::Finished),
    {
        match self.phase {
            InitPhase::Finished => true,
            _ => false,
        }
    }

    /// Takes the reply to the pending request and returns the next request,
    /// or the end of the sequence.
    pub fn step<E>(&mut self, reply: BusReply<E>) -> (out: InitStep<E>)
        requires
            old(self).wf(),
        ensures
            final(self).wf(),
            final(self).config() == old(self).config(),
            (final(self).phase(), final(self).addr(), out@) == init_next(
                old(self).phase(),
                old(self).addr(),
                old(self).config(),
                reply@,
            ),
    {
        let addr = self.addr;
        match self.phase {
            InitPhase::Probe(i) => {
                let found = match &reply {
                    BusReply::Read(Ok(b)) => b.len() > 0 && b[0] == BMI270_CHIP_ID,
                    _ => false,
                };
                if found {
                    let a = if i == 0 { 0x68u8 } else { 0x69u8 };
                    self.addr = a;
                    self.phase = InitPhase::Setup(0);
                    InitStep::Request(setup_request(a, 0))
                } else if i == 0 {
                    self.phase = InitPhase::Probe(1);
                    InitStep::Request(BusRequest::WriteRead { addr: 0x69, reg: 0x00, len: 1 })
                } else {
                    self.phase = InitPhase::Finished;
                    InitStep::Done(Err(Error::Custom("BMI270 not found")))
                }
            },
            InitPhase::Setup(s) => {
                match reply {
                    BusReply::Written(Err(e)) => {
                        self.phase = InitPhase::Finished;
                        InitStep::Done(Err(Error::I2c(e)))
                    },
                    _ => {
                        if s + 1 < 6 {
                            self.phase = InitPhase::Setup(s + 1);
                            InitStep::Request(setup_request(addr, s + 1))
                        } else {
                            self.phase = InitPhase::Upload { page: 0, part: 0 };
                            InitStep::Request(write_reg(addr, 0x5B, 0x00))
                        }
                    },
                }
            },
            InitPhase::Upload { page, part } => {
                match reply {
                    BusReply::Written(Err(e)) => {
                        self.phase = InitPhase::Finished;
                        InitStep::Done(Err(Error::I2c(e)))
                    },
                    _ => {
                        if part < 2 {
                            self.phase = InitPhase::Upload { page, part: part + 1 };
                            InitStep::Request(self.upload_request(page, part + 1))
                        } else if page + 1 < CONFIG_PAGES {
                            self.phase = InitPhase::Upload { page: page + 1, part: 0 };
                            InitStep::Request(self.upload_request(page + 1, 0))
                        } else {
                            self.phase = InitPhase::Trigger;
                            InitStep::Request(write_reg(addr, 0x59, 0x01))
                        }
                    },
                }
            },
            InitPhase::Trigger => {
                match reply {
                    BusReply::Written(Err(e)) => {
                        self.phase = InitPhase::Finished;
                        InitStep::Done(Err(Error::I2c(e)))
                    },
                    _ => {
                        self.phase = InitPhase::PollWait(0);
                        InitStep::Request(BusRequest::DelayMs(1))
                    },
                }
            },
            InitPhase::PollWait(a) => {
                self.phase = InitPhase::PollRead(a);
                InitStep::Request(BusRequest::WriteRead { addr, reg: 0x21, len: 1 })
            },
            InitPhase::PollRead(a) => {
                let st = first_byte(&reply);
                if st & 0x0F == 0x01 {
                    self.phase = InitPhase::Enable(0);
                    InitStep::Request(enable_request(addr, 0))
                } else if a + 1 < INIT_POLLS {
                    self.phase = InitPhase::PollWait(a + 1);
                    InitStep::Request(BusRequest::DelayMs(1))
                } else {
                    self.phase = InitPhase::FailRead;
                    InitStep::Request(BusRequest::WriteRead { addr, reg: 0x21, len: 1 })
                }
            },
            InitPhase::FailRead => {
                self.phase = InitPhase::Finished;
                InitStep::Done(Err(Error::Custom("BMI270 init failed")))
            },
            InitPhase::Enable(s) => {
                match reply {
                    BusReply::Written(Err(e)) => {
                        self.phase = InitPhase::Finished;
                        InitStep::Done(Err(Error::I2c(e)))
                    },
                    _ => {
                        if s + 1 < 9 {
                            self.phase = InitPhase::Enable(s + 1);
                            InitStep::Request(enable_request(addr, s + 1))
                        } else {
                            self.phase = InitPhase::ReadyRead(0);
                            InitStep::Request(BusRequest::WriteRead { addr, reg: 0x03, len: 1 })
                        }
                    },
                }
            },
            InitPhase::ReadyRead(i) => {
                let st = first_byte(&reply);
                if st & 0xC0 != 0 {
                    self.phase = InitPhase::TrialRead;
                    InitStep::Request(BusRequest::WriteRead { addr, reg: 0x0C, len: 12 })
                } else {
                    self.phase = InitPhase::ReadyWait(i);
                    InitStep::Request(BusRequest::DelayMs(10))
                }
            },
            InitPhase::ReadyWait(i) => {
                if i + 1 < READY_POLLS {
                    self.phase = InitPhase::ReadyRead(i + 1);
                    InitStep::Request(BusRequest::WriteRead { addr, reg: 0x03, len: 1 })
                } else {
                    self.phase = InitPhase::TrialRead;
                    InitStep::Request(BusRequest::WriteRead { addr, reg: 0x0C, len: 12 })
                }
            },
            InitPhase::TrialRead => {
                self.phase = InitPhase::Finished;
                match reply {
                    BusReply::Read(Err(e)) => InitStep::Done(Err(Error::I2c(e))),
                    _ => InitStep::Done(Ok(Imu { addr })),
                }
            },
            InitPhase::Finished => InitStep::Done(Err(Error::Custom("finished"))),
        }
    }

    fn upload_request(&self, page: usize, part: usize) -> (r: BusRequest)
        requires
            self.config@.len() >= CONFIG_LEN,
            page < CONFIG_PAGES,
            part < 3,
        ensures
            r@ == upload_op(self.addr, self.config@, page as int, part as int),
    {
        if part == 0 {
            write_reg(self.addr, 0x5B, 0x00)
        } else if part == 1 {
            write_reg(self.addr, 0x5C, page as u8)
        } else {
            let mut bytes: Vec<u8> = Vec::new();
            bytes.push(0x5E);
            let off = page * PAGE_LEN;
            let mut k: usize = 0;
            while k < PAGE_LEN
                invariant
                    k <= PAGE_LEN,
                    off == page * 32,
                    page < CONFIG_PAGES,
                    self.config@.len() >= CONFIG_LEN,
                    bytes@ == seq![0x5Eu8] + self.config@.subrange(off as int, off + k),
                decreases PAGE_LEN - k,
            {
                bytes.push(self.config[off + k]);
                k = k + 1;
                assert(bytes@ =~= seq![0x5Eu8] + self.config@.subrange(off as int, off + k));
            }
            BusRequest::Write { addr: self.addr, bytes }
        }
    }
}

fn setup_request(addr: u8, s: usize) -> (r: BusRequest)
    requires
        s < 6,
    ensures
        r@ == setup_op(addr, s as int),
{
    if s == 0 {
        write_reg(addr, 0x7E, 0xB6)
    } else if s == 1 {
        BusRequest::DelayMs(100)
    } else if s == 2 {
        write_reg(addr, 0x7C, 0x00)
    } else if s == 3 {
        BusRequest::DelayMs(5)
    } else if s == 4 {
        write_reg(addr, 0x59, 0x00)
    } else {
        BusRequest::DelayMs(5)
    }
}

fn enable_request(addr: u8, s: usize) -> (r: BusRequest)
    requires
        s < 9,
    ensures
        r@ == enable_op(addr, s as int),
{
    if s == 0 {
        write_reg(addr, 0x7C, 0x00)
    } else if s == 1 {
        BusRequest::DelayMs(5)
    } else if s == 2 {
        write_reg(addr, 0x7D, 0x0E)
    } else if s == 3 {
        BusRequest::DelayMs(50)
    } else if s == 4 {
        write_reg(addr, 0x40, 0xA8)
    } else if s == 5 {
        write_reg(addr, 0x41, 0x03)
    } else if s == 6 {
        write_reg(addr, 0x42, 0xA9)
    } else if s == 7 {
        write_reg(addr, 0x43, 0x00)
    } else {
        BusRequest::DelayMs(50)
    }
}

/// First byte of a read reply, zero when nothing was read.
fn first_byte<E>(reply: &BusReply<E>) -> (b: u8)
    ensures
        b == reply_byte(reply@, 0),
{
    match reply {
        BusReply::Read(Ok(v)) => if v.len() > 0 {
            v[0]
        } else {
            0
        },
        _ => 0,
    }
}

impl Imu {
    /// Starts the BMI270 bring-up with the given configuration blob (its
    /// first 256 pages of 32 bytes are loaded); the first request probes
    /// address 0x68.
    pub fn new(config: Vec<u8>) -> (res: (ImuInit, BusRequest))
        requires
            config@.len() >= CONFIG_LEN,
        ensures
            res.0.wf(),
            res.0.phase() == InitPhase::Probe(0),
            res.0.config() == config@,
            res.1@ == probe_op(0),
    {
        (
            ImuInit { phase: InitPhase::Probe(0), addr: 0x68, config },
            BusRequest::WriteRead { addr: 0x68, reg: 0x00, len: 1 },
        )
    }
}

/// One accelerometer, gyroscope and temperature sample, as register values.
#[derive(Debug, Clone, Copy, PartialEq, Eq, Structural)]
pub struct ImuRaw {
    pub acc_x: i16,
    pub acc_y: i16,
    pub acc_z: i16,
    pub gyr_x: i16,
    pub gyr_y: i16,
    pub gyr_z: i16,
    /// Temperature register (512 LSB/K, 0 = 23 degC); `None` while the chip
    /// still reports 0x8000 (not yet updated).
    pub temp: Option<i16>,
}

/// The signed 16-bit value stored little-endian in `lo`, `hi`.
pub open spec fn le_i16(lo: u8, hi: u8) -> i16 {
    let u = hi as int * 256 + lo as int;
    (if u < 32768 {
        u
    } else {
        u - 65536
    }) as i16
}

/// Little-endian signed word number `k` of a read reply.
pub open spec fn reply_word<E>(reply: Reply<E>, k: int) -> i16 {
    le_i16(reply_byte(reply, 2 * k), reply_byte(reply, 2 * k + 1))
}

/// Whether the first 12 bytes of a read reply are all zero.
pub open spec fn all_zero12<E>(reply: Reply<E>) -> bool {
    forall|i: int| 0 <= i < 12 ==> reply_byte(reply, i) == 0
}

/// The motion part of a sample from the 12 data bytes (acc x, y, z then
/// gyr x, y, z); the temperature is left unknown.
pub open spec fn motion_of<E>(reply: Reply<E>) -> ImuRaw {
    ImuRaw {
        acc_x: reply_word(reply, 0),
        acc_y: reply_word(reply, 1),
        acc_z: reply_word(reply, 2),
        gyr_x: reply_word(reply, 3),
        gyr_y: reply_word(reply, 4),
        gyr_z: reply_word(reply, 5),
        temp: None,
    }
}

/// The temperature field from the temperature register value.
pub open spec fn temp_of(t: i16) -> Option<i16> {
    if t == TEMP_INVALID {
        None
    } else {
        Some(t)
    }
}

/// Which read of a sample is awaiting its reply.
#[derive(Clone, Copy, PartialEq, Eq, Structural)]
pub enum ReadPhase {
    /// STATUS (0x03), for the data-ready bits.
    Status,
    /// The 12 data bytes from DATA_8 (0x0C).
    Data,
    /// The temperature register (0x22).
    Temp,
    /// The sample is complete; a further step answers with the error
    /// "finished".
    Finished,
}

/// Output of one sampling step.
#[derive(Debug, PartialEq, Eq)]
pub enum ReadStep<E> {
    Request(BusRequest),
    Done(Result<ImuRaw, Error<E>>),
}

/// A [`ReadStep`] as a mathematical value.
pub enum ReadOut<E> {
    Request(BusOp),
    Done(Result<ImuRaw, Error<E>>),
}

impl<E> View for ReadStep<E> {
    type V = ReadOut<E>;

    open spec fn view(&self) -> ReadOut<E> {
        match self {
            ReadStep::Request(r) => ReadOut::Request(r@),
            ReadStep::Done(d) => ReadOut::Done(*d),
        }
    }
}

/// One sampling step. A failed STATUS or data read ends with the bus error;
/// no data-ready bit (STATUS bits 7/6) ends with "no data ready"; twelve
/// zero data bytes end with "all zero"; a failed temperature read counts as
/// the value 0.
pub open spec fn read_next<E>(phase: ReadPhase, addr: u8, motion: ImuRaw, reply: Reply<E>) -> (
    ReadPhase,
    ImuRaw,
    ReadOut<E>,
) {
    match phase {
        ReadPhase::Status => {
            if read_error(reply) is Some {
                (ReadPhase::Finished, motion, ReadOut::Done(Err(Error::I2c(read_error(reply)->0))))
            } else if reply_byte(reply, 0) & 0xC0 == 0 {
                (ReadPhase::Finished, motion, ReadOut::Done(Err(Error::Custom("no data ready"))))
            } else {
                (ReadPhase::Data, motion, ReadOut::Request(BusOp::WriteRead { addr, reg: 0x0C, len: 12 }))
            }
        },
        ReadPhase::Data => {
            if read_error(reply) is Some {
                (ReadPhase::Finished, motion, ReadOut::Done(Err(Error::I2c(read_error(reply)->0))))
            } else if all_zero12(reply) {
                (ReadPhase::Finished, motion, ReadOut::Done(Err(Error::Custom("all zero"))))
            } else {
                (ReadPhase::Temp, motion_of(reply), ReadOut::Request(BusOp::WriteRead { addr, reg: 0x22, len: 2 }))
            }
        },
        ReadPhase::Temp => {
            let m = ImuRaw { temp: temp_of(reply_word(reply, 0)), ..motion };
            (ReadPhase::Finished, m, ReadOut::Done(Ok(m)))
        },
        ReadPhase::Finished => (ReadPhase::Finished, motion, ReadOut::Done(Err(Error::Custom("finished")))),
    }
}

/// State of one sample read.
pub struct ReadAll {
    addr: u8,
    phase: ReadPhase,
    motion: ImuRaw,
}

impl ReadAll {
    pub closed spec fn addr(&self) -> u8 {
        self.addr
    }

    pub closed spec fn phase(&self) -> ReadPhase {
        self.phase
    }

    pub closed spec fn motion(&self) -> ImuRaw {
        self.motion
    }

    /// Takes the reply to the pending read and returns the next read, or the
    /// sample.
    pub fn step<E>(&mut self, reply: BusReply<E>) -> (out: ReadStep<E>)
        ensures
            final(self).addr() == old(self).addr(),
            (final(self).phase(), final(self).motion(), out@) == read_next(
                old(self).phase(),
                old(self).addr(),
                old(self).motion(),
                reply@,
            ),
    {
        let addr = self.addr;
        match self.phase {
            ReadPhase::Status => {
                let st = first_byte(&reply);
                match reply {
                    BusReply::Read(Err(e)) => {
                        self.phase = ReadPhase::Finished;
                        ReadStep::Done(Err(Error::I2c(e)))
                    },
                    _ => {
                        if st & 0xC0 == 0 {
                            self.phase = ReadPhase::Finished;
                            ReadStep::Done(Err(Error::Custom("no data ready")))
                        } else {
                            self.phase = ReadPhase::Data;
                            ReadStep::Request(BusRequest::WriteRead { addr, reg: 0x0C, len: 12 })
                        }
                    },
                }
            },
            ReadPhase::Data => {
                let zero = all_zero(&reply);
                let m = ImuRaw {
                    acc_x: word_at(&reply, 0),
                    acc_y: word_at(&reply, 1),
                    acc_z: word_at(&reply, 2),
                    gyr_x: word_at(&reply, 3),
                    gyr_y: word_at(&reply, 4),
                    gyr_z: word_at(&reply, 5),
                    temp: None,
                };
                match reply {
                    BusReply::Read(Err(e)) => {
                        self.phase = ReadPhase::Finished;
                        ReadStep::Done(Err(Error::I2c(e)))
                    },
                    _ => {
                        if zero {
                            self.phase = ReadPhase::Finished;
                            ReadStep::Done(Err(Error::Custom("all zero")))
                        } else {
                            self.phase = ReadPhase::Temp;
                            self.motion = m;
                            ReadStep::Request(BusRequest::WriteRead { addr, reg: 0x22, len: 2 })
                        }
                    },
                }
            },
            ReadPhase::Temp => {
                let t = word_at(&reply, 0);
                let temp = if t == TEMP_INVALID {
                    None
                } else {
                    Some(t)
                };
                let m = ImuRaw { temp, ..self.motion };
                self.phase = ReadPhase::Finished;
                self.motion = m;
                ReadStep::Done(Ok(m))
            },
            ReadPhase::Finished => ReadStep::Done(Err(Error::Custom("finished"))),
        }
    }
}

/// Byte `i` of a read reply, zero when it was not read.
fn byte_at<E>(reply: &BusReply<E>, i: usize) -> (b: u8)
    ensures
        b == reply_byte(reply@, i as int),
{
    match reply {
        BusReply::Read(Ok(v)) => if i < v.len() {
            v[i]
        } else {
            0
        },
        _ => 0,
    }
}

/// Little-endian signed word number `k` of a read reply.
fn word_at<E>(reply: &BusReply<E>, k: usize) -> (w: i16)
    requires
        k < 8,
    ensures
        w == reply_word(reply@, k as int),
{
    let lo = byte_at(reply, 2 * k);
    let hi = byte_at(reply, 2 * k + 1);
    let u: u32 = (hi as u32) * 256 + lo as u32;
    if u < 32768 {
        u as i16
    } else {
        (u as i32 - 65536) as i16
    }
}

/// Whether the first 12 bytes of a read reply are zero.
fn all_zero<E>(reply: &BusReply<E>) -> (z: bool)
    ensures
        z == all_zero12(reply@),
{
    let mut i: usize = 0;
    while i < 12
        invariant
            i <= 12,
            forall|j: int| 0 <= j < i ==> reply_byte(reply@, j) == 0,
        decreases 12 - i,
    {
        if byte_at(reply, i) != 0 {
            return false;
        }
        i = i + 1;
    }
    true
}

impl Imu {
    /// Starts reading one sample; the first request reads STATUS.
    pub fn read_all(&self) -> (res: (ReadAll, BusRequest))
        ensures
            res.0.addr() == self.addr,
            res.0.phase() == ReadPhase::Status,
            res.1@ == (BusOp::WriteRead { addr: self.addr, reg: 0x03, len: 1 }),
    {
        let zero = ImuRaw { acc_x: 0, acc_y: 0, acc_z: 0, gyr_x: 0, gyr_y: 0, gyr_z: 0, temp: None };
        (
            ReadAll { addr: self.addr, phase: ReadPhase::Status, motion: zero },
            BusRequest::WriteRead { addr: self.addr, reg: 0x03, len: 1 },
        )
    }
}

/// The bring-up never writes register 0x50 (FEATURES_PAGE): every write it
/// issues carries a register byte, and that byte is not 0x50.
pub proof fn lemma_init_never_writes_features_page<E>(
    phase: InitPhase,
    addr: u8,
    config: Seq<u8>,
    reply: Reply<E>,
)
    requires
        phase_in_range(phase),
        config.len() >= CONFIG_LEN,
    ensures
        init_next(phase, addr, config, reply).2 matches InitOut::Request(BusOp::Write { bytes, .. })
            ==> bytes.len() > 0 && bytes[0] != 0x50,
{
}

/// The sensor configuration registers (PWR_CTRL 0x7D, ACC_CONF 0x40,
/// ACC_RANGE 0x41, GYR_CONF 0x42, GYR_RANGE 0x43) are written only in the
/// enable stage, and the enable stage is entered only from an
/// INTERNAL_STATUS read that reported init ok (low nibble 0x01).
pub proof fn lemma_sensors_configured_after_init_ok<E>(
    phase: InitPhase,
    addr: u8,
    config: Seq<u8>,
    reply: Reply<E>,
)
    requires
        phase_in_range(phase),
        config.len() >= CONFIG_LEN,
    ensures
        ({
            let (next, _, out) = init_next(phase, addr, config, reply);
            &&& (out matches InitOut::Request(BusOp::Write { bytes, .. }) && (bytes[0] == 0x7D
                || 0x40 <= bytes[0] <= 0x43)) ==> next is Enable
            &&& (next is Enable && !(phase is Enable)) ==> (phase is PollRead && reply_byte(reply, 0)
                & 0x0F == 0x01)
        }),
{
}

/// GYR_CONF is never given the reserved output data rate 0x04.
pub proof fn lemma_gyro_rate_not_reserved<E>(
    phase: InitPhase,
    addr: u8,
    config: Seq<u8>,
    reply: Reply<E>,
)
    requires
        phase_in_range(phase),
        config.len() >= CONFIG_LEN,
    ensures
        init_next(phase, addr, config, reply).2 matches InitOut::Request(BusOp::Write { bytes, .. })
            ==> (bytes[0] == 0x42 ==> bytes.len() == 2 && bytes[1] & 0x0F != 0x04),
{
    assert(0xA9u8 & 0x0F != 0x04) by (bit_vector);
}

/// Accelerometer scale selected by an ACC_RANGE code, in LSB per g: +-2 g
/// (16384), +-4 g (8192), +-8 g (4096), +-16 g (2048); other codes select
/// no range.
pub open spec fn acc_range_lsb_per_g(code: u8) -> int {
    if code == 0 {
        16384
    } else if code == 1 {
        8192
    } else if code == 2 {
        4096
    } else if code == 3 {
        2048
    } else {
        0
    }
}

/// Gyroscope full scale selected by a GYR_RANGE code (bits 2..0), in
/// degrees per second: 2000, 1000, 500, 250, 125.
pub open spec fn gyr_range_dps(code: u8) -> int {
    let r = code & 0x07;
    if r == 0 {
        2000
    } else if r == 1 {
        1000
    } else if r == 2 {
        500
    } else if r == 3 {
        250
    } else if r == 4 {
        125
    } else {
        0
    }
}

/// Output data rate of an ACC_CONF / GYR_CONF value (bits 3..0), in Hz
/// (codes 6 to 12: 25 Hz to 1600 Hz; other codes give 0 here).
pub open spec fn odr_hz(conf: u8) -> int {
    let c = conf & 0x0F;
    if c == 6 {
        25
    } else if c == 7 {
        50
    } else if c == 8 {
        100
    } else if c == 9 {
        200
    } else if c == 10 {
        400
    } else if c == 11 {
        800
    } else if c == 12 {
        1600
    } else {
        0
    }
}

/// PWR_CTRL enable bits: auxiliary interface, gyroscope, accelerometer,
/// temperature sensor.
pub const PWR_AUX_EN: u8 = 0x01;
pub const PWR_GYR_EN: u8 = 0x02;
pub const PWR_ACC_EN: u8 = 0x04;
pub const PWR_TEMP_EN: u8 = 0x08;

/// Every sensor configuration write the bring-up issues selects the
/// documented scales: ACC_RANGE (0x41) is written with +-16 g, the range
/// whose scale is [`ACC_LSB_PER_G`]; GYR_RANGE (0x43) with +-2000 dps (16.4
/// LSB per dps); PWR_CTRL (0x7D) enables the accelerometer, the gyroscope
/// and the temperature sensor and leaves the auxiliary interface off;
/// ACC_CONF (0x40) selects 100 Hz and GYR_CONF (0x42) 200 Hz, both with the
/// performance filter (bit 7). Each of these writes is part of the enable
/// stage.
pub proof fn lemma_sensor_scales<E>(phase: InitPhase, addr: u8, config: Seq<u8>, reply: Reply<E>)
    requires
        phase_in_range(phase),
        config.len() >= CONFIG_LEN,
    ensures
        init_next(phase, addr, config, reply).2 matches InitOut::Request(BusOp::Write { bytes, .. })
            ==> {
            &&& bytes[0] == 0x41 ==> bytes == seq![0x41u8, 0x03u8] && acc_range_lsb_per_g(bytes[1])
                == ACC_LSB_PER_G
            &&& bytes[0] == 0x43 ==> bytes == seq![0x43u8, 0x00u8] && gyr_range_dps(bytes[1]) == 2000
            &&& bytes[0] == 0x7D ==> bytes == seq![0x7Du8, 0x0Eu8] && bytes[1] & PWR_ACC_EN != 0
                && bytes[1] & PWR_GYR_EN != 0 && bytes[1] & PWR_TEMP_EN != 0 && bytes[1] & PWR_AUX_EN
                == 0
            &&& bytes[0] == 0x40 ==> bytes.len() == 2 && odr_hz(bytes[1]) == 100 && bytes[1] & 0x80
                != 0
            &&& bytes[0] == 0x42 ==> bytes.len() == 2 && odr_hz(bytes[1]) == 200 && bytes[1] & 0x80
                != 0
        },
        exists|s: int|
            0 <= s < enable_len() && enable_op(addr, s) == (BusOp::Write {
                addr,
                bytes: seq![0x41u8, 0x03u8],
            }),
        exists|s: int|
            0 <= s < enable_len() && enable_op(addr, s) == (BusOp::Write {
                addr,
                bytes: seq![0x43u8, 0x00u8],
            }),
        exists|s: int|
            0 <= s < enable_len() && enable_op(addr, s) == (BusOp::Write {
                addr,
                bytes: seq![0x7Du8, 0x0Eu8],
            }),
{
    assert(0x00u8 & 0x07u8 == 0) by (bit_vector);
    assert(0xA8u8 & 0x0Fu8 == 8 && 0xA8u8 & 0x80u8 != 0) by (bit_vector);
    assert(0xA9u8 & 0x0Fu8 == 9 && 0xA9u8 & 0x80u8 != 0) by (bit_vector);
    assert(0x0Eu8 & 0x04u8 != 0 && 0x0Eu8 & 0x02u8 != 0 && 0x0Eu8 & 0x08u8 != 0 && 0x0Eu8 & 0x01u8
        == 0) by (bit_vector);
    assert(enable_op(addr, 5) == BusOp::Write { addr, bytes: seq![0x41u8, 0x03u8] });
    assert(enable_op(addr, 7) == BusOp::Write { addr, bytes: seq![0x43u8, 0x00u8] });
    assert(enable_op(addr, 2) == BusOp::Write { addr, bytes: seq![0x7Du8, 0x0Eu8] });
}

} // verus!
