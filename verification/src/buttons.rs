//! Two side buttons with edge detection.
//!
//! Both buttons are active low with the internal pull-up enabled: a high
//! level means released, a low level means pressed. The driver remembers the
//! level seen at the previous sample of each button so that a press is
//! reported once, on the falling edge. Each method takes the level that the
//! pin shows at the moment of the call.

use vstd::prelude::*;

verus! {

/// A press is reported when the pin reads low now and read high (released)
/// at the previous sample.
pub open spec fn falling_edge(prev_high: bool, now_high: bool) -> bool {
    !now_high && prev_high
}

/// Edge-detection state of the two buttons.
pub struct Buttons {
    a_prev: bool,
    b_prev: bool,
}

/// Button identifier.
#[derive(Debug, Clone, Copy, PartialEq, Eq, Structural)]
pub enum Button {
    A,
    B,
}

impl Buttons {
    /// Level of button A at the previous sample (`true` = released).
    pub closed spec fn a_prev(&self) -> bool {
        self.a_prev
    }

    /// Level of button B at the previous sample (`true` = released).
    pub closed spec fn b_prev(&self) -> bool {
        self.b_prev
    }

    /// Starts edge detection from the levels the two pins show now.
    pub fn new(a_high: bool, b_high: bool) -> (s: Self)
        ensures
            s.a_prev() == a_high,
            s.b_prev() == b_high,
    {
        Buttons { a_prev: a_high, b_prev: b_high }
    }

    /// Whether button A is held down, given the level of its pin.
    pub fn btn_a_is_pressed(&self, a_high: bool) -> (pressed: bool)
        ensures
            pressed == !a_high,
    {
        !a_high
    }

    /// Whether button B is held down, given the level of its pin.
    pub fn btn_b_is_pressed(&self, b_high: bool) -> (pressed: bool)
        ensures
            pressed == !b_high,
    {
        !b_high
    }

    /// Whether button A went down since its previous sample; records the new
    /// sample.
    pub fn btn_a_was_pressed(&mut self, a_high: bool) -> (pressed: bool)
        ensures
            pressed == falling_edge(old(self).a_prev(), a_high),
            final(self).a_prev() == a_high,
            final(self).b_prev() == old(self).b_prev(),
    {
        let pressed = !a_high && self.a_prev;
        self.a_prev = a_high;
        pressed
    }

    /// Whether button B went down since its previous sample; records the new
    /// sample.
    pub fn btn_b_was_pressed(&mut self, b_high: bool) -> (pressed: bool)
        ensures
            pressed == falling_edge(old(self).b_prev(), b_high),
            final(self).b_prev() == b_high,
            final(self).a_prev() == old(self).a_prev(),
    {
        let pressed = !b_high && self.b_prev;
        self.b_prev = b_high;
        pressed
    }

    /// Whether either button went down. Button A is sampled first; button B
    /// is sampled (and its state updated) only when A reported no edge.
    pub fn any_pressed(&mut self, a_high: bool, b_high: bool) -> (pressed: bool)
        ensures
            final(self).a_prev() == a_high,
            falling_edge(old(self).a_prev(), a_high) ==> pressed && final(self).b_prev()
                == old(self).b_prev(),
            !falling_edge(old(self).a_prev(), a_high) ==> pressed == falling_edge(
                old(self).b_prev(),
                b_high,
            ) && final(self).b_prev() == b_high,
    {
        self.btn_a_was_pressed(a_high) || self.btn_b_was_pressed(b_high)
    }

    /// Records the current levels of both buttons without reporting edges.
    pub fn update(&mut self, a_high: bool, b_high: bool)
        ensures
            final(self).a_prev() == a_high,
            final(self).b_prev() == b_high,
    {
        self.a_prev = a_high;
        self.b_prev = b_high;
    }
}

/// A press is reported once: once a level has been sampled, sampling the same
/// level again reports no edge, whatever the earlier state was.
pub proof fn lemma_press_reported_once(prev_high: bool, now_high: bool)
    ensures
        falling_edge(prev_high, now_high) ==> !now_high,
        !falling_edge(now_high, now_high),
{
}

/// A press is reported exactly when the button goes from released to held.
pub proof fn lemma_edge_is_release_to_press(prev_high: bool, now_high: bool)
    ensures
        falling_edge(prev_high, now_high) <==> (prev_high && !now_high),
{
}

} // verus!
