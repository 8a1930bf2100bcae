//! ST7789 panel driver logic.
//!
//! The ST7789 controller holds a 240x320 frame memory; the StickS3 panel
//! shows a 135x240 window of it, 52 columns and 40 rows in. Depending on the
//! rotation (MADCTL register) the start column and row of that window inside
//! memory change; they follow the M5GFX `Panel_LCD::setRotation` algorithm.
//!
//! [`Display`] does not touch the bus itself: each operation appends the
//! transfers it needs (commands, data bytes, reset-pin levels and delays) to
//! an outbox of [`DisplayOp`]s, which the hardware layer drains with
//! [`Display::take_ops`] and performs in order.
//!
//! Notes kept from the hardware bring-up:
//! - after SLPOUT the panel needs at least 130 ms;
//! - CASET/RASET are volatile and must be written before every frame;
//! - INVON is required on this panel, otherwise colours are inverted.

use vstd::prelude::*;
use crate::sleep::DisplaySleep;
use crate::{HEIGHT, OFFSET_X, OFFSET_Y, WIDTH};

verus! {

// Command registers.
pub const SWRESET: u8 = 0x01;
pub const SLPOUT: u8 = 0x11;
pub const INVOFF: u8 = 0x20;
pub const INVON: u8 = 0x21;
pub const DISPON: u8 = 0x29;
pub const DISPOFF: u8 = 0x28;
pub const CASET: u8 = 0x2A;
pub const RASET: u8 = 0x2B;
pub const RAMWR: u8 = 0x2C;
pub const SLPIN: u8 = 0x10;
pub const MADCTL: u8 = 0x36;
pub const COLMOD: u8 = 0x3A;

// Extended commands (M5GFX Panel_ST7789).
pub const CMD_GCTRL: u8 = 0xB7;
pub const CMD_VCOMS: u8 = 0xBB;
pub const CMD_LCMCTRL: u8 = 0xC0;
pub const CMD_VDVVRHEN: u8 = 0xC2;
pub const CMD_VRHS: u8 = 0xC3;
pub const CMD_VDVSET: u8 = 0xC4;
pub const CMD_PWCTRL1: u8 = 0xD0;
pub const CMD_RAMCTRL: u8 = 0xB0;
pub const CMD_PVGAMCTRL: u8 = 0xE0;
pub const CMD_NVGAMCTRL: u8 = 0xE1;

// MADCTL bits.
pub const MAD_MY: u8 = 0x80;
pub const MAD_MX: u8 = 0x40;
pub const MAD_MV: u8 = 0x20;
pub const MAD_ML: u8 = 0x10;
pub const MAD_MH: u8 = 0x04;

/// Rotations whose row start is counted from the far end of memory
/// (bit `r` set for rotation `r`).
pub const ROWSTART_MASK: u8 = 0x96;

// Panel geometry.
pub const MEMORY_WIDTH: u16 = 240;
pub const MEMORY_HEIGHT: u16 = 320;
pub const PANEL_WIDTH: u16 = 135;
pub const PANEL_HEIGHT: u16 = 240;

/// One transfer to the panel.
#[derive(Debug, PartialEq, Eq)]
pub enum DisplayOp {
    /// Drive the reset pin to the given level (`true` = high).
    ResetPin(bool),
    /// Wait the given number of microseconds.
    DelayUs(u32),
    /// Wait the given number of milliseconds.
    DelayMs(u32),
    /// Send one command byte (DC low).
    Command(u8),
    /// Send data bytes (DC high).
    Data(Vec<u8>),
    /// Send 16-bit pixel words (DC high).
    Pixels(Vec<u16>),
}

/// A [`DisplayOp`] as a mathematical value.
pub enum PanelOp {
    ResetPin(bool),
    DelayUs(u32),
    DelayMs(u32),
    Command(u8),
    Data(Seq<u8>),
    Pixels(Seq<u16>),
}

impl View for DisplayOp {
    type V = PanelOp;

    open spec fn view(&self) -> PanelOp {
        match self {
            DisplayOp::ResetPin(b) => PanelOp::ResetPin(*b),
            DisplayOp::DelayUs(n) => PanelOp::DelayUs(*n),
            DisplayOp::DelayMs(n) => PanelOp::DelayMs(*n),
            DisplayOp::Command(c) => PanelOp::Command(*c),
            DisplayOp::Data(d) => PanelOp::Data(d@),
            DisplayOp::Pixels(p) => PanelOp::Pixels(p@),
        }
    }
}

/// The MADCTL value for each of the eight rotations (M5GFX `getMadCtl`).
pub open spec fn madctl_of(rot: int) -> u8 {
    if rot == 0 {
        0
    } else if rot == 1 {
        MAD_MV | MAD_MX | MAD_MH
    } else if rot == 2 {
        MAD_MX | MAD_MH | MAD_MY | MAD_ML
    } else if rot == 3 {
        MAD_MV | MAD_MY | MAD_ML
    } else if rot == 4 {
        MAD_MY | MAD_ML
    } else if rot == 5 {
        MAD_MV
    } else if rot == 6 {
        MAD_MX | MAD_MH
    } else {
        MAD_MV | MAD_MX | MAD_MY | MAD_MH | MAD_ML
    }
}

/// Rotations 1, 3, 5 and 7 exchange rows and columns (MADCTL MV).
pub open spec fn swaps_axes(rot: int) -> bool {
    rot % 2 == 1
}

/// Column offset, panel width and memory width along the column axis.
pub open spec fn col_axis(rot: int) -> (int, int, int) {
    if swaps_axes(rot) {
        (OFFSET_Y as int, PANEL_HEIGHT as int, MEMORY_HEIGHT as int)
    } else {
        (OFFSET_X as int, PANEL_WIDTH as int, MEMORY_WIDTH as int)
    }
}

/// Row offset, panel height and memory height along the row axis.
pub open spec fn row_axis(rot: int) -> (int, int, int) {
    if swaps_axes(rot) {
        (OFFSET_X as int, PANEL_WIDTH as int, MEMORY_WIDTH as int)
    } else {
        (OFFSET_Y as int, PANEL_HEIGHT as int, MEMORY_HEIGHT as int)
    }
}

/// Columns are counted from the far end of memory when bit 1 of the
/// rotation is set (MX mirrored).
pub open spec fn col_mirrored(rot: int) -> bool {
    (rot / 2) % 2 == 1
}

/// Rows are counted from the far end of memory for the rotations in
/// `ROWSTART_MASK` (1, 2, 4, 7).
pub open spec fn row_mirrored(rot: int) -> bool {
    rot == 1 || rot == 2 || rot == 4 || rot == 7
}

/// First memory column of the visible window under rotation `rot` (0..8).
pub open spec fn colstart_of(rot: int) -> int {
    let (off, len, mem) = col_axis(rot);
    if col_mirrored(rot) {
        mem - (len + off)
    } else {
        off
    }
}

/// First memory row of the visible window under rotation `rot` (0..8).
pub open spec fn rowstart_of(rot: int) -> int {
    let (off, len, mem) = row_axis(rot);
    if row_mirrored(rot) {
        mem - (len + off)
    } else {
        off
    }
}

/// Big-endian bytes of a 16-bit value.
pub open spec fn be16(v: int) -> Seq<u8> {
    seq![(v / 256) as u8, (v % 256) as u8]
}

/// The transfers that select rotation `rot` (0..8).
pub open spec fn rotation_ops(rot: int) -> Seq<PanelOp> {
    seq![PanelOp::Command(MADCTL), PanelOp::Data(seq![madctl_of(rot)])]
}

/// The transfers that set the write window to columns `xs..=xe` and rows
/// `ys..=ye` of the visible area, given the window origin in memory.
pub open spec fn window_ops(col: int, row: int, xs: int, ys: int, xe: int, ye: int) -> Seq<
    PanelOp,
> {
    seq![
        PanelOp::Command(CASET),
        PanelOp::Data(be16(col + xs)),
        PanelOp::Data(be16(col + xe)),
        PanelOp::Command(RASET),
        PanelOp::Data(be16(row + ys)),
        PanelOp::Data(be16(row + ye)),
    ]
}

/// The transfers of one full-screen frame.
pub open spec fn flush_ops(col: int, row: int, buf: Seq<u16>) -> Seq<PanelOp> {
    window_ops(col, row, 0, 0, WIDTH - 1, HEIGHT - 1) + seq![
        PanelOp::Command(RAMWR),
        PanelOp::Pixels(buf),
    ]
}

/// Hardware reset pulse: high, low, high, 10 us apart.
pub open spec fn reset_pulse_ops() -> Seq<PanelOp> {
    seq![
        PanelOp::ResetPin(true),
        PanelOp::DelayUs(10),
        PanelOp::ResetPin(false),
        PanelOp::DelayUs(10),
        PanelOp::ResetPin(true),
        PanelOp::DelayUs(10),
    ]
}

/// A command followed by its parameter bytes.
pub open spec fn cmd_data_ops(cmd: u8, data: Seq<u8>) -> Seq<PanelOp> {
    seq![PanelOp::Command(cmd), PanelOp::Data(data)]
}

/// First gamma table (positive polarity).
pub open spec fn pv_gamma() -> Seq<u8> {
    seq![0xD0u8, 0x00u8, 0x02u8, 0x07u8, 0x0Au8, 0x28u8, 0x32u8, 0x44u8, 0x42u8, 0x06u8, 0x0Eu8, 0x12u8, 0x14u8, 0x17u8]
}

/// Second gamma table (negative polarity).
pub open spec fn nv_gamma() -> Seq<u8> {
    seq![0xD0u8, 0x00u8, 0x02u8, 0x07u8, 0x0Au8, 0x28u8, 0x31u8, 0x54u8, 0x47u8, 0x0Eu8, 0x1Cu8, 0x17u8, 0x1Bu8, 0x1Eu8]
}

/// Panel tuning and gamma settings of the M5GFX ST7789 init table.
pub open spec fn tuning_ops() -> Seq<PanelOp> {
    cmd_data_ops(CMD_GCTRL, seq![0x35u8]) + cmd_data_ops(CMD_VCOMS, seq![0x28u8])
        + cmd_data_ops(CMD_LCMCTRL, seq![0x0Cu8]) + cmd_data_ops(CMD_VDVVRHEN, seq![0x01u8, 0xFFu8])
        + cmd_data_ops(CMD_VRHS, seq![0x10u8]) + cmd_data_ops(CMD_VDVSET, seq![0x20u8])
        + cmd_data_ops(CMD_PWCTRL1, seq![0xA4u8, 0xA1u8]) + cmd_data_ops(CMD_RAMCTRL, seq![0x00u8, 0xC0u8])
        + cmd_data_ops(CMD_PVGAMCTRL, pv_gamma()) + cmd_data_ops(CMD_NVGAMCTRL, nv_gamma())
}

/// The whole power-up sequence: reset pulse, software reset, sleep out,
/// tuning, RGB565 pixel format, inversion on, display on, landscape.
pub open spec fn init_ops() -> Seq<PanelOp> {
    reset_pulse_ops() + seq![
        PanelOp::Command(SWRESET),
        PanelOp::DelayUs(150_000),
        PanelOp::Command(SLPOUT),
        PanelOp::DelayMs(130),
        PanelOp::Command(INVOFF),
    ] + tuning_ops() + seq![
        PanelOp::Command(COLMOD),
        PanelOp::Data(seq![0x55u8]),
        PanelOp::Command(INVON),
        PanelOp::DelayUs(10_000),
        PanelOp::Command(DISPON),
        PanelOp::DelayUs(10_000),
    ] + rotation_ops(1)
}

/// The transfers that put the panel to sleep.
pub open spec fn sleep_ops() -> Seq<PanelOp> {
    seq![PanelOp::Command(DISPOFF), PanelOp::Command(SLPIN)]
}

/// ST7789 driver state: origin of the visible window in controller memory
/// and the transfers not yet handed to the hardware.
pub struct Display {
    colstart: u16,
    rowstart: u16,
    ops: Vec<DisplayOp>,
}

impl Display {
    /// First memory column of the visible window.
    pub closed spec fn colstart(&self) -> int {
        self.colstart as int
    }

    /// First memory row of the visible window.
    pub closed spec fn rowstart(&self) -> int {
        self.rowstart as int
    }

    /// Transfers queued and not yet taken.
    pub closed spec fn pending(&self) -> Seq<PanelOp> {
        self.ops@.map_values(|o: DisplayOp| o@)
    }

    /// The window origin stays small enough for a full frame to be
    /// addressed without overflow.
    pub closed spec fn wf(&self) -> bool {
        self.colstart <= 53 && self.rowstart <= 53
    }

    /// A driver with nothing queued and the window origin at (0, 0), as
    /// before the first rotation is selected.
    pub fn new() -> (d: Self)
        ensures
            d.wf(),
            d.colstart() == 0,
            d.rowstart() == 0,
            d.pending() == Seq::<PanelOp>::empty(),
    {
        let d = Display { colstart: 0, rowstart: 0, ops: Vec::new() };
        assert(d.pending() =~= Seq::<PanelOp>::empty());
        d
    }

    fn emit(&mut self, op: DisplayOp)
        ensures
            final(self).pending() == old(self).pending().push(op@),
            final(self).colstart == old(self).colstart,
            final(self).rowstart == old(self).rowstart,
    {
        let ghost before = self.pending();
        let ghost v = op@;
        self.ops.push(op);
        assert(self.pending() =~= before.push(v));
    }

    fn cmd(&mut self, b: u8)
        ensures
            final(self).pending() == old(self).pending().push(PanelOp::Command(b)),
            final(self).colstart == old(self).colstart,
            final(self).rowstart == old(self).rowstart,
    {
        self.emit(DisplayOp::Command(b));
    }

    fn cmd_data(&mut self, cmd: u8, data: Vec<u8>)
        ensures
            final(self).pending() == old(self).pending() + seq![
                PanelOp::Command(cmd),
                PanelOp::Data(data@),
            ],
            final(self).colstart == old(self).colstart,
            final(self).rowstart == old(self).rowstart,
    {
        let ghost before = self.pending();
        let ghost d = data@;
        self.cmd(cmd);
        self.emit(DisplayOp::Data(data));
        assert(self.pending() =~= before + seq![PanelOp::Command(cmd), PanelOp::Data(d)]);
    }

    fn data16(&mut self, v: u16)
        ensures
            final(self).pending() == old(self).pending().push(PanelOp::Data(be16(v as int))),
            final(self).colstart == old(self).colstart,
            final(self).rowstart == old(self).rowstart,
    {
        let hi = (v / 256) as u8;
        let lo = (v % 256) as u8;
        let bytes = bytes2(hi, lo);
        self.emit(DisplayOp::Data(bytes));
    }

    fn send_tuning(&mut self)
        ensures
            final(self).pending() == old(self).pending() + tuning_ops(),
            final(self).colstart == old(self).colstart,
            final(self).rowstart == old(self).rowstart,
    {
        let ghost p0 = self.pending();
        self.cmd_data(CMD_GCTRL, bytes1(0x35));
        self.cmd_data(CMD_VCOMS, bytes1(0x28));
        self.cmd_data(CMD_LCMCTRL, bytes1(0x0C));
        self.cmd_data(CMD_VDVVRHEN, bytes2(0x01, 0xFF));
        self.cmd_data(CMD_VRHS, bytes1(0x10));
        self.cmd_data(CMD_VDVSET, bytes1(0x20));
        self.cmd_data(CMD_PWCTRL1, bytes2(0xA4, 0xA1));
        self.cmd_data(CMD_RAMCTRL, bytes2(0x00, 0xC0));
        let pv = vec![0xD0u8, 0x00, 0x02, 0x07, 0x0A, 0x28, 0x32, 0x44, 0x42, 0x06, 0x0E, 0x12, 0x14, 0x17];
        assert(pv@ =~= pv_gamma());
        self.cmd_data(CMD_PVGAMCTRL, pv);
        let nv = vec![0xD0u8, 0x00, 0x02, 0x07, 0x0A, 0x28, 0x31, 0x54, 0x47, 0x0E, 0x1C, 0x17, 0x1B, 0x1E];
        assert(nv@ =~= nv_gamma());
        self.cmd_data(CMD_NVGAMCTRL, nv);
        assert(self.pending() =~= p0 + tuning_ops());
    }

    /// Hardware reset pulse on the RST pin.
    fn rst_pulse(&mut self)
        ensures
            final(self).pending() == old(self).pending() + reset_pulse_ops(),
            final(self).colstart == old(self).colstart,
            final(self).rowstart == old(self).rowstart,
    {
        let ghost before = self.pending();
        self.emit(DisplayOp::ResetPin(true));
        self.emit(DisplayOp::DelayUs(10));
        self.emit(DisplayOp::ResetPin(false));
        self.emit(DisplayOp::DelayUs(10));
        self.emit(DisplayOp::ResetPin(true));
        self.emit(DisplayOp::DelayUs(10));
        assert(self.pending() =~= before + reset_pulse_ops());
    }

    /// Queues the full ST7789 power-up sequence (M5GFX
    /// `Panel_ST7789::getInitCommands`) and selects landscape rotation 1.
    pub fn init(&mut self)
        requires
            old(self).wf(),
        ensures
            final(self).wf(),
            final(self).pending() == old(self).pending() + init_ops(),
            final(self).colstart() == colstart_of(1),
            final(self).rowstart() == rowstart_of(1),
    {
        let ghost before = self.pending();
        self.rst_pulse();
        self.cmd(SWRESET);
        self.emit(DisplayOp::DelayUs(150_000));
        self.cmd(SLPOUT);
        self.emit(DisplayOp::DelayMs(130));
        self.cmd(INVOFF);
        self.send_tuning();
        self.cmd_data(COLMOD, bytes1(0x55));
        self.cmd(INVON);
        self.emit(DisplayOp::DelayUs(10_000));
        self.cmd(DISPON);
        self.emit(DisplayOp::DelayUs(10_000));
        self.set_rotation(1);
        assert(self.pending() =~= before + init_ops());
    }

    /// Selects rotation `r` (only `r % 8` matters): updates the window origin
    /// and queues the MADCTL write.
    pub fn set_rotation(&mut self, r: u8)
        requires
            old(self).wf(),
        ensures
            final(self).wf(),
            final(self).colstart() == colstart_of(r as int % 8),
            final(self).rowstart() == rowstart_of(r as int % 8),
            final(self).pending() == old(self).pending() + rotation_ops(r as int % 8),
    {
        let internal: u8 = (r & 3) | ((r & 4) ^ 0);
        assert(internal == r % 8) by (bit_vector)
            requires
                internal == (r & 3) | ((r & 4) ^ 0),
        ;
        let (mut ox, mut oy) = (OFFSET_X, OFFSET_Y);
        let (mut pw, mut ph) = (PANEL_WIDTH, PANEL_HEIGHT);
        let (mut mw, mut mh) = (MEMORY_WIDTH, MEMORY_HEIGHT);
        if internal % 2 != 0 {
            let t = ox;
            ox = oy;
            oy = t;
            let t = pw;
            pw = ph;
            ph = t;
            let t = mw;
            mw = mh;
            mh = t;
        }
        assert((internal & 2 != 0) == ((internal / 2) % 2 == 1)) by (bit_vector)
            requires
                internal < 8,
        ;
        let col = if internal & 2 != 0 {
            mw - (pw + ox)
        } else {
            ox
        };
        let bit: u8 = 1u8 << internal;
        assert(((bit & ROWSTART_MASK) != 0) == (internal == 1 || internal == 2 || internal == 4
            || internal == 7)) by (bit_vector)
            requires
                internal < 8,
                bit == 1u8 << internal,
        ;
        let row = if (bit & ROWSTART_MASK) != 0 {
            mh - (ph + oy)
        } else {
            oy
        };
        self.colstart = col;
        self.rowstart = row;
        let m = madctl_table(internal);
        assert(m == madctl_of(r as int % 8));
        self.cmd_data(MADCTL, bytes1(m));
        assert(rotation_ops(r as int % 8) =~= seq![
            PanelOp::Command(MADCTL),
            PanelOp::Data(seq![m]),
        ]);
    }

    /// Queues the CASET/RASET transfers for columns `xs..=xe` and rows
    /// `ys..=ye` of the visible area.
    fn set_window(&mut self, xs: u16, ys: u16, xe: u16, ye: u16)
        requires
            old(self).colstart + xs <= u16::MAX,
            old(self).colstart + xe <= u16::MAX,
            old(self).rowstart + ys <= u16::MAX,
            old(self).rowstart + ye <= u16::MAX,
        ensures
            final(self).pending() == old(self).pending() + window_ops(
                old(self).colstart as int,
                old(self).rowstart as int,
                xs as int,
                ys as int,
                xe as int,
                ye as int,
            ),
            final(self).colstart == old(self).colstart,
            final(self).rowstart == old(self).rowstart,
    {
        let ghost before = self.pending();
        self.cmd(CASET);
        self.data16(self.colstart + xs);
        self.data16(self.colstart + xe);
        self.cmd(RASET);
        self.data16(self.rowstart + ys);
        self.data16(self.rowstart + ye);
        assert(self.pending() =~= before + window_ops(
            self.colstart as int,
            self.rowstart as int,
            xs as int,
            ys as int,
            xe as int,
            ye as int,
        ));
    }

    /// Queues one full-screen frame: the write window is set again every
    /// time (the controller forgets it), then RAMWR and the pixel words.
    pub fn flush(&mut self, buf: &[u16])
        requires
            old(self).wf(),
        ensures
            final(self).wf(),
            final(self).colstart() == old(self).colstart(),
            final(self).rowstart() == old(self).rowstart(),
            final(self).pending() == old(self).pending() + flush_ops(
                old(self).colstart(),
                old(self).rowstart(),
                buf@,
            ),
    {
        let ghost before = self.pending();
        let w = WIDTH as u16;
        let h = HEIGHT as u16;
        self.set_window(0, 0, w - 1, h - 1);
        self.cmd(RAMWR);
        let pixels = slice_to_vec(buf);
        self.emit(DisplayOp::Pixels(pixels));
        assert(self.pending() =~= before + flush_ops(
            self.colstart as int,
            self.rowstart as int,
            buf@,
        ));
    }

    /// Hands the queued transfers to the caller, oldest first, and empties
    /// the queue.
    pub fn take_ops(&mut self) -> (ops: Vec<DisplayOp>)
        ensures
            ops@.map_values(|o: DisplayOp| o@) == old(self).pending(),
            final(self).pending() == Seq::<PanelOp>::empty(),
            final(self).colstart() == old(self).colstart(),
            final(self).rowstart() == old(self).rowstart(),
            final(self).wf() == old(self).wf(),
    {
        let mut out: Vec<DisplayOp> = Vec::new();
        std::mem::swap(&mut out, &mut self.ops);
        assert(self.pending() =~= Seq::<PanelOp>::empty());
        out
    }
}

impl DisplaySleep for Display {
    /// Queues display-off followed by sleep-in.
    fn sleep(&mut self)
        ensures
            final(self).pending() == old(self).pending() + sleep_ops(),
            final(self).colstart() == old(self).colstart(),
            final(self).rowstart() == old(self).rowstart(),
    {
        let ghost before = self.pending();
        self.cmd(DISPOFF);
        self.cmd(SLPIN);
        assert(self.pending() =~= before + sleep_ops());
    }
}

fn bytes1(a: u8) -> (v: Vec<u8>)
    ensures
        v@ == seq![a],
{
    let mut v: Vec<u8> = Vec::new();
    v.push(a);
    assert(v@ =~= seq![a]);
    v
}

fn bytes2(a: u8, b: u8) -> (v: Vec<u8>)
    ensures
        v@ == seq![a, b],
{
    let mut v: Vec<u8> = Vec::new();
    v.push(a);
    v.push(b);
    assert(v@ =~= seq![a, b]);
    v
}

/// The MADCTL table entry for rotation `internal` (0..8).
fn madctl_table(internal: u8) -> (m: u8)
    requires
        internal < 8,
    ensures
        m == madctl_of(internal as int),
{
    let table: [u8; 8] = [
        0,
        MAD_MV | MAD_MX | MAD_MH,
        MAD_MX | MAD_MH | MAD_MY | MAD_ML,
        MAD_MV | MAD_MY | MAD_ML,
        MAD_MY | MAD_ML,
        MAD_MV,
        MAD_MX | MAD_MH,
        MAD_MV | MAD_MX | MAD_MY | MAD_MH | MAD_ML,
    ];
    table[internal as usize]
}

fn slice_to_vec(buf: &[u16]) -> (v: Vec<u16>)
    ensures
        v@ == buf@,
{
    let mut v: Vec<u16> = Vec::new();
    let mut i: usize = 0;
    while i < buf.len()
        invariant
            i <= buf.len(),
            v@ == buf@.subrange(0, i as int),
        decreases buf.len() - i,
    {
        v.push(buf[i]);
        i = i + 1;
        assert(v@ =~= buf@.subrange(0, i as int));
    }
    assert(buf@.subrange(0, buf.len() as int) =~= buf@);
    v
}

/// For every rotation the visible window lies inside controller memory:
/// the window origin is non-negative and the panel fits between it and the
/// end of memory, along both axes.
pub proof fn lemma_window_inside_memory(rot: int)
    requires
        0 <= rot < 8,
    ensures
        0 <= colstart_of(rot),
        colstart_of(rot) + col_axis(rot).1 <= col_axis(rot).2,
        0 <= rowstart_of(rot),
        rowstart_of(rot) + row_axis(rot).1 <= row_axis(rot).2,
{
}

/// Only the rotation modulo 8 matters: `r` and `r + 8` select the same
/// window origin and send the same MADCTL value.
pub proof fn lemma_rotation_period(r: int)
    requires
        0 <= r,
    ensures
        colstart_of((r + 8) % 8) == colstart_of(r % 8),
        rowstart_of((r + 8) % 8) == rowstart_of(r % 8),
        rotation_ops((r + 8) % 8) == rotation_ops(r % 8),
{
    assert((r + 8) % 8 == r % 8);
}

/// The MADCTL value of a rotation has the row/column exchange bit (MV) set
/// exactly for the rotations that exchange the axes.
pub proof fn lemma_madctl_mv_matches_axes(rot: int)
    requires
        0 <= rot < 8,
    ensures
        (madctl_of(rot) & MAD_MV != 0) == swaps_axes(rot),
{
    assert((0u8 & 0x20u8) == 0) by (bit_vector);
    assert(((0x20u8 | 0x40u8 | 0x04u8) & 0x20u8) != 0) by (bit_vector);
    assert(((0x40u8 | 0x04u8 | 0x80u8 | 0x10u8) & 0x20u8) == 0) by (bit_vector);
    assert(((0x20u8 | 0x80u8 | 0x10u8) & 0x20u8) != 0) by (bit_vector);
    assert(((0x80u8 | 0x10u8) & 0x20u8) == 0) by (bit_vector);
    assert((0x20u8 & 0x20u8) != 0) by (bit_vector);
    assert(((0x40u8 | 0x04u8) & 0x20u8) == 0) by (bit_vector);
    assert(((0x20u8 | 0x40u8 | 0x80u8 | 0x04u8 | 0x10u8) & 0x20u8) != 0) by (bit_vector);
}

/// Every frame re-addresses the window: a flush starts with CASET, then
/// RASET, then RAMWR, and the frame covers the whole visible area
/// (columns `col..col+239`, rows `row..row+134`).
pub proof fn lemma_flush_resets_window(col: int, row: int, buf: Seq<u16>)
    ensures
        flush_ops(col, row, buf).len() == 8,
        flush_ops(col, row, buf)[0] == PanelOp::Command(CASET),
        flush_ops(col, row, buf)[1] == PanelOp::Data(be16(col)),
        flush_ops(col, row, buf)[2] == PanelOp::Data(be16(col + WIDTH - 1)),
        flush_ops(col, row, buf)[3] == PanelOp::Command(RASET),
        flush_ops(col, row, buf)[4] == PanelOp::Data(be16(row)),
        flush_ops(col, row, buf)[5] == PanelOp::Data(be16(row + HEIGHT - 1)),
        flush_ops(col, row, buf)[6] == PanelOp::Command(RAMWR),
        flush_ops(col, row, buf)[7] == PanelOp::Pixels(buf),
{
}

/// Bits per pixel selected by a COLMOD parameter (control interface
/// format, bits 2..0): 12, 16 or 18; other values select no format.
pub open spec fn colmod_bits_per_pixel(v: u8) -> int {
    let f = v & 0x07;
    if f == 3 {
        12
    } else if f == 5 {
        16
    } else if f == 6 {
        18
    } else {
        0
    }
}

/// Whether a transfer is the one-byte COLMOD parameter for RGB565: 16 bits
/// per pixel on the control interface, 65K colours (code 5) on the RGB
/// interface (bits 6..4).
pub open spec fn rgb565_format(op: PanelOp) -> bool {
    op matches PanelOp::Data(d) && d.len() == 1 && colmod_bits_per_pixel(d[0]) == 16 && (d[0]
        >> 4u8) & 0x07u8 == 5
}

/// The power-up sequence selects 16-bit RGB565 pixels, the size of the
/// pixel words a flush sends: COLMOD is sent, and every COLMOD command is
/// immediately followed by a single parameter byte that selects 16 bits per
/// pixel on the control interface and 65K colours on the RGB interface.
pub proof fn lemma_init_selects_rgb565()
    ensures
        exists|i: int|
            0 <= i && i + 1 < init_ops().len() && #[trigger] init_ops()[i] == PanelOp::Command(
                COLMOD,
            ) && rgb565_format(init_ops()[i + 1]),
        forall|i: int|
            0 <= i < init_ops().len() && #[trigger] init_ops()[i] == PanelOp::Command(COLMOD) ==> i
                + 1 < init_ops().len() && rgb565_format(init_ops()[i + 1]),
{
    let s = init_ops();
    assert(s =~= seq![
        PanelOp::ResetPin(true),
        PanelOp::DelayUs(10),
        PanelOp::ResetPin(false),
        PanelOp::DelayUs(10),
        PanelOp::ResetPin(true),
        PanelOp::DelayUs(10),
        PanelOp::Command(SWRESET),
        PanelOp::DelayUs(150_000),
        PanelOp::Command(SLPOUT),
        PanelOp::DelayMs(130),
        PanelOp::Command(INVOFF),
        PanelOp::Command(CMD_GCTRL),
        PanelOp::Data(seq![0x35u8]),
        PanelOp::Command(CMD_VCOMS),
        PanelOp::Data(seq![0x28u8]),
        PanelOp::Command(CMD_LCMCTRL),
        PanelOp::Data(seq![0x0Cu8]),
        PanelOp::Command(CMD_VDVVRHEN),
        PanelOp::Data(seq![0x01u8, 0xFFu8]),
        PanelOp::Command(CMD_VRHS),
        PanelOp::Data(seq![0x10u8]),
        PanelOp::Command(CMD_VDVSET),
        PanelOp::Data(seq![0x20u8]),
        PanelOp::Command(CMD_PWCTRL1),
        PanelOp::Data(seq![0xA4u8, 0xA1u8]),
        PanelOp::Command(CMD_RAMCTRL),
        PanelOp::Data(seq![0x00u8, 0xC0u8]),
        PanelOp::Command(CMD_PVGAMCTRL),
        PanelOp::Data(pv_gamma()),
        PanelOp::Command(CMD_NVGAMCTRL),
        PanelOp::Data(nv_gamma()),
        PanelOp::Command(COLMOD),
        PanelOp::Data(seq![0x55u8]),
        PanelOp::Command(INVON),
        PanelOp::DelayUs(10_000),
        PanelOp::Command(DISPON),
        PanelOp::DelayUs(10_000),
        PanelOp::Command(MADCTL),
        PanelOp::Data(seq![madctl_of(1)]),
    ]);
    assert(s[31] == PanelOp::Command(COLMOD));
    assert(0x55u8 & 0x07u8 == 5) by (bit_vector);
    assert((0x55u8 >> 4u8) & 0x07u8 == 5) by (bit_vector);
    assert(rgb565_format(s[32]));
}

} // verus!
