//! Requests and replies exchanged with the shared I2C bus.
//!
//! The chips on the I2C bus (BMI270, ES8311, NS4168, M5PM1) are driven by
//! step functions: each step receives the reply to the previous request and
//! returns the next request. The hardware layer owns the bus, performs each
//! [`BusRequest`] and answers with a [`BusReply`].

use vstd::prelude::*;

verus! {

/// One operation on the I2C bus, or a pause.
#[derive(Debug, PartialEq, Eq)]
pub enum BusRequest {
    /// Write `bytes` to the device at `addr` (first byte: register).
    Write { addr: u8, bytes: Vec<u8> },
    /// Write the register number `reg`, then read `len` bytes back.
    WriteRead { addr: u8, reg: u8, len: usize },
    /// Wait the given number of milliseconds.
    DelayMs(u32),
}

/// A [`BusRequest`] as a mathematical value.
pub enum BusOp {
    Write { addr: u8, bytes: Seq<u8> },
    WriteRead { addr: u8, reg: u8, len: usize },
    DelayMs(u32),
}

impl View for BusRequest {
    type V = BusOp;

    open spec fn view(&self) -> BusOp {
        match self {
            BusRequest::Write { addr, bytes } => BusOp::Write { addr: *addr, bytes: bytes@ },
            BusRequest::WriteRead { addr, reg, len } => BusOp::WriteRead {
                addr: *addr,
                reg: *reg,
                len: *len,
            },
            BusRequest::DelayMs(n) => BusOp::DelayMs(*n),
        }
    }
}

/// What the bus answered to a [`BusRequest`]; `E` is the bus error type.
#[derive(Debug, PartialEq, Eq)]
pub enum BusReply<E> {
    /// Outcome of a `Write`.
    Written(Result<(), E>),
    /// Outcome of a `WriteRead`, with the bytes read.
    Read(Result<Vec<u8>, E>),
    /// A `DelayMs` has elapsed.
    Waited,
}

/// A [`BusReply`] as a mathematical value.
pub enum Reply<E> {
    Written(Result<(), E>),
    Read(Result<Seq<u8>, E>),
    Waited,
}

impl<E> View for BusReply<E> {
    type V = Reply<E>;

    open spec fn view(&self) -> Reply<E> {
        match self {
            BusReply::Written(r) => Reply::Written(*r),
            BusReply::Read(Ok(v)) => Reply::Read(Ok(v@)),
            BusReply::Read(Err(e)) => Reply::Read(Err(*e)),
            BusReply::Waited => Reply::Waited,
        }
    }
}

/// The request that writes `val` to register `reg` of the device at `addr`.
pub open spec fn reg_write(addr: u8, reg: u8, val: u8) -> BusOp {
    BusOp::Write { addr, bytes: seq![reg, val] }
}

/// Builds a two-byte register write.
pub fn write_reg(addr: u8, reg: u8, val: u8) -> (r: BusRequest)
    ensures
        r@ == reg_write(addr, reg, val),
{
    let mut bytes: Vec<u8> = Vec::new();
    bytes.push(reg);
    bytes.push(val);
    assert(bytes@ =~= seq![reg, val]);
    BusRequest::Write { addr, bytes }
}

/// Output of one step of a register-write sequence.
#[derive(Debug, PartialEq, Eq)]
pub enum WriteStep<E> {
    Request(BusRequest),
    Done(Result<(), E>),
}

/// A [`WriteStep`] as a mathematical value.
pub enum WriteOut<E> {
    Request(BusOp),
    Done(Result<(), E>),
}

impl<E> View for WriteStep<E> {
    type V = WriteOut<E>;

    open spec fn view(&self) -> WriteOut<E> {
        match self {
            WriteStep::Request(r) => WriteOut::Request(r@),
            WriteStep::Done(d) => WriteOut::Done(*d),
        }
    }
}

/// The request for write number `i` of a register table.
pub open spec fn table_op(addr: u8, regs: Seq<(u8, u8)>, i: int) -> BusOp {
    reg_write(addr, regs[i].0, regs[i].1)
}

/// What a register-write sequence does once write number `idx` has been
/// answered: stop at a failed write when `stop_on_error`, otherwise go on
/// with the next write, and report success after the last one.
pub open spec fn writes_next<E>(
    addr: u8,
    regs: Seq<(u8, u8)>,
    stop_on_error: bool,
    idx: int,
    reply: Reply<E>,
) -> (int, WriteOut<E>) {
    if stop_on_error && (reply matches Reply::Written(Err(_))) {
        (regs.len() as int, WriteOut::Done(Err(reply->Written_0->Err_0)))
    } else if idx + 1 < regs.len() {
        (idx + 1, WriteOut::Request(table_op(addr, regs, idx + 1)))
    } else {
        (regs.len() as int, WriteOut::Done(Ok(())))
    }
}

/// A fixed table of single-register writes to one device, performed in
/// order.
pub struct RegisterWrites {
    addr: u8,
    regs: Vec<(u8, u8)>,
    idx: usize,
    stop_on_error: bool,
}

impl RegisterWrites {
    pub closed spec fn addr(&self) -> u8 {
        self.addr
    }

    pub closed spec fn regs(&self) -> Seq<(u8, u8)> {
        self.regs@
    }

    /// Index of the write whose reply is awaited; `regs().len()` once done.
    pub closed spec fn idx(&self) -> int {
        self.idx as int
    }

    pub closed spec fn stop_on_error(&self) -> bool {
        self.stop_on_error
    }

    pub closed spec fn wf(&self) -> bool {
        self.idx <= self.regs@.len()
    }

    /// Starts the sequence; the first output is the first write, or success
    /// at once when the table is empty.
    pub fn start<E>(addr: u8, regs: Vec<(u8, u8)>, stop_on_error: bool) -> (res: (
        Self,
        WriteStep<E>,
    ))
        ensures
            res.0.wf(),
            res.0.addr() == addr,
            res.0.regs() == regs@,
            res.0.stop_on_error() == stop_on_error,
            regs@.len() > 0 ==> res.0.idx() == 0 && res.1@ == WriteOut::<E>::Request(
                table_op(addr, regs@, 0),
            ),
            regs@.len() == 0 ==> res.0.idx() == 0 && res.1@ == WriteOut::<E>::Done(Ok(())),
    {
        if regs.len() > 0 {
            let first = write_reg(addr, regs[0].0, regs[0].1);
            (RegisterWrites { addr, regs, idx: 0, stop_on_error }, WriteStep::Request(first))
        } else {
            (RegisterWrites { addr, regs, idx: 0, stop_on_error }, WriteStep::Done(Ok(())))
        }
    }

    /// Takes the reply to the pending write and returns the next write or
    /// the outcome.
    pub fn step<E>(&mut self, reply: BusReply<E>) -> (out: WriteStep<E>)
        requires
            old(self).wf(),
            old(self).idx() < old(self).regs().len(),
        ensures
            final(self).wf(),
            final(self).addr() == old(self).addr(),
            final(self).regs() == old(self).regs(),
            final(self).stop_on_error() == old(self).stop_on_error(),
            (final(self).idx(), out@) == writes_next(
                old(self).addr(),
                old(self).regs(),
                old(self).stop_on_error(),
                old(self).idx(),
                reply@,
            ),
    {
        let idx = self.idx;
        let len = self.regs.len();
        assert(idx < len);
        match reply {
            BusReply::Written(Err(e)) => {
                if self.stop_on_error {
                    self.idx = self.regs.len();
                    return WriteStep::Done(Err(e));
                }
            },
            _ => {},
        }
        if idx + 1 < len {
            self.idx = idx + 1;
            let (r, v) = self.regs[self.idx];
            WriteStep::Request(write_reg(self.addr, r, v))
        } else {
            self.idx = self.regs.len();
            WriteStep::Done(Ok(()))
        }
    }
}

} // verus!
