//! Built-in red LED on GPIO10 (lit when the pin is high).
//!
//! The output pin belongs to the hardware layer; these functions decide the
//! level to drive.

use vstd::prelude::*;

verus! {

/// Built-in LED.
pub struct Led;

impl Led {
    /// Level that lights the LED.
    pub fn on() -> (level: bool)
        ensures
            level,
    {
        true
    }

    /// Level that turns the LED off.
    pub fn off() -> (level: bool)
        ensures
            !level,
    {
        false
    }

    /// Level to drive to toggle the LED, given whether the pin is currently
    /// set high.
    pub fn toggle(is_set_high: bool) -> (level: bool)
        ensures
            level == !is_set_high,
    {
        if is_set_high {
            Self::off()
        } else {
            Self::on()
        }
    }
}

} // verus!
