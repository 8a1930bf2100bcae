//! Decisions of the demo dashboard: the microphone level bar, the spirit
//! level ball colour and the persistent button press counters.
//!
//! The dashboard draws, on the 240x135 screen, the IMU readings, the
//! battery, the Wi-Fi status, a microphone level bar, press counters and a
//! spirit level. The bar is 128x14 pixels at x = 100; its filled part is
//! inset by one pixel on each side and its colour shows the level: green
//! below 50 %, yellow below 80 %, red above.

use vstd::prelude::*;

verus! {

/// Width of the microphone level bar.
pub const BAR_W: u32 = 128;

/// Height of the microphone level bar.
pub const BAR_H: u32 = 14;

/// Left edge of the microphone level bar.
pub const BAR_X: i32 = 100;

/// Radius (in pixels) inside which the spirit level ball counts as centred.
pub const CENTRE_RADIUS: i32 = 7;

/// Colour of the filled part of the level bar.
#[derive(Clone, Copy, PartialEq, Eq, Structural, Debug)]
pub enum BarColor {
    Green,
    Yellow,
    Red,
}

/// Colour for a level in percent.
pub open spec fn level_color_of(level: int) -> BarColor {
    if level < 50 {
        BarColor::Green
    } else if level < 80 {
        BarColor::Yellow
    } else {
        BarColor::Red
    }
}

/// Width of the filled part for a level: the bar width scaled by the level,
/// less the two inset pixels (never below zero).
pub open spec fn fill_width_of(level: int) -> int {
    let w = BAR_W * level / 100;
    if w >= 2 {
        w - 2
    } else {
        0
    }
}

/// The filled part of the level bar.
#[derive(Clone, Copy, PartialEq, Eq, Structural, Debug)]
pub struct MicBar {
    /// Width of the filled rectangle.
    pub fill_w: u32,
    /// Height of the filled rectangle.
    pub fill_h: u32,
    pub color: BarColor,
}

/// The filled part of the level bar for a level in percent; nothing is
/// filled at level 0.
pub fn mic_bar(level: u8) -> (bar: Option<MicBar>)
    ensures
        level == 0 ==> bar is None,
        level > 0 ==> bar == Some(
            MicBar {
                fill_w: fill_width_of(level as int) as u32,
                fill_h: (BAR_H - 2) as u32,
                color: level_color_of(level as int),
            },
        ),
{
    if level == 0 {
        return None;
    }
    let w = BAR_W * (level as u32) / 100;
    let fill_w = if w >= 2 {
        w - 2
    } else {
        0
    };
    let color = if level < 50 {
        BarColor::Green
    } else if level < 80 {
        BarColor::Yellow
    } else {
        BarColor::Red
    };
    Some(MicBar { fill_w, fill_h: BAR_H - 2, color })
}

/// Whether the spirit level ball, offset by (dx, dy) pixels from the centre,
/// lies within the centre circle.
pub fn ball_centered(dx: i32, dy: i32) -> (c: bool)
    requires
        dx * dx + dy * dy <= i32::MAX,
    ensures
        c == (dx * dx + dy * dy <= CENTRE_RADIUS * CENTRE_RADIUS),
{
    assert(0 <= dx * dx && 0 <= dy * dy) by (nonlinear_arith);
    let d2: i32 = dx * dx + dy * dy;
    d2 <= 49
}

/// Persistent press counters of the two buttons.
pub struct Counters {
    a: i32,
    b: i32,
}

impl Counters {
    pub closed spec fn a(&self) -> int {
        self.a as int
    }

    pub closed spec fn b(&self) -> int {
        self.b as int
    }

    /// Counters restored from the store.
    pub fn new(a: i32, b: i32) -> (c: Self)
        ensures
            c.a() == a,
            c.b() == b,
    {
        Counters { a, b }
    }

    /// Presses of button A counted so far.
    pub fn a_count(&self) -> (v: i32)
        ensures
            v == self.a(),
    {
        self.a
    }

    /// Presses of button B counted so far.
    pub fn b_count(&self) -> (v: i32)
        ensures
            v == self.b(),
    {
        self.b
    }

    /// Counts a press of button A; returns the value to store.
    pub fn record_a(&mut self) -> (v: i32)
        requires
            old(self).a() < i32::MAX,
        ensures
            v == old(self).a() + 1,
            final(self).a() == v,
            final(self).b() == old(self).b(),
    {
        self.a = self.a + 1;
        self.a
    }

    /// Counts a press of button B; returns the value to store.
    pub fn record_b(&mut self) -> (v: i32)
        requires
            old(self).b() < i32::MAX,
        ensures
            v == old(self).b() + 1,
            final(self).b() == v,
            final(self).a() == old(self).a(),
    {
        self.b = self.b + 1;
        self.b
    }

    /// Total presses shown on screen.
    pub fn total(&self) -> (t: i64)
        ensures
            t == self.a() + self.b(),
    {
        self.a as i64 + self.b as i64
    }
}

/// For levels up to 100 % the filled part stays inside the bar and grows
/// with the level.
pub proof fn lemma_bar_fits(l1: int, l2: int)
    requires
        0 <= l1 <= l2 <= 100,
    ensures
        fill_width_of(l1) <= fill_width_of(l2),
        fill_width_of(l2) <= BAR_W - 2,
{
    vstd::arithmetic::div_mod::lemma_div_is_ordered(128 * l1, 128 * l2, 100);
    vstd::arithmetic::div_mod::lemma_div_is_ordered(128 * l2, 12800, 100);
}

/// The colour never goes back from red to yellow or green as the level
/// rises.
pub proof fn lemma_color_order(l1: int, l2: int)
    requires
        l1 <= l2,
    ensures
        level_color_of(l1) == BarColor::Red ==> level_color_of(l2) == BarColor::Red,
        level_color_of(l2) == BarColor::Green ==> level_color_of(l1) == BarColor::Green,
{
}

} // verus!
