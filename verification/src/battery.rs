//! Battery voltage (ADC1 channel 7 on GPIO8, behind a 2:1 divider).
//!
//! The ADC driver returns the calibrated pin voltage in millivolts; the
//! battery voltage is twice that. A failed ADC read counts as 0 mV. The
//! charge estimate is linear between 3300 mV (empty) and 4150 mV (full).

use vstd::prelude::*;

verus! {

/// Divider ratio between battery and ADC pin.
pub const ADC_RATIO: u32 = 2;

/// Battery voltage counted as empty.
pub const EMPTY_MV: u32 = 3300;

/// Battery voltage counted as full.
pub const FULL_MV: u32 = 4150;

/// Largest voltage for which the percentage is computed without overflow
/// of its intermediate 32-bit product.
pub const MAX_PCT_MV: u32 = 21_478_136;

/// Charge percentage of a battery voltage.
pub open spec fn pct_of(mv: int) -> int {
    if mv <= EMPTY_MV {
        0
    } else if (mv - EMPTY_MV) * 100 / ((FULL_MV - EMPTY_MV) as int) > 100 {
        100
    } else {
        (mv - EMPTY_MV) * 100 / ((FULL_MV - EMPTY_MV) as int)
    }
}

/// Battery measurement; the ADC drivers belong to the hardware layer.
pub struct Battery;

impl Battery {
    /// Battery voltage in mV from one ADC reading (pin mV, `None` when the
    /// read failed).
    pub fn read_mv(reading: Option<u16>) -> (mv: u32)
        ensures
            mv == ADC_RATIO * match reading {
                Some(r) => r as int,
                None => 0,
            },
    {
        let raw: u32 = match reading {
            Some(r) => r as u32,
            None => 0,
        };
        raw * ADC_RATIO
    }

    /// Charge estimate 0..=100 for a battery voltage.
    pub fn pct(mv: u32) -> (p: u32)
        requires
            mv <= MAX_PCT_MV,
        ensures
            p == pct_of(mv as int),
            p <= 100,
    {
        if mv <= EMPTY_MV {
            0
        } else {
            let q = (mv - EMPTY_MV) * 100 / (FULL_MV - EMPTY_MV);
            if q > 100 {
                100
            } else {
                q
            }
        }
    }
}

/// The estimate never decreases as the voltage rises, is 0 up to 3300 mV
/// and 100 from 4150 mV on.
pub proof fn lemma_pct_monotonic(mv1: int, mv2: int)
    requires
        0 <= mv1 <= mv2,
    ensures
        pct_of(mv1) <= pct_of(mv2),
        0 <= pct_of(mv1) <= 100,
        mv1 <= EMPTY_MV ==> pct_of(mv1) == 0,
        mv1 >= FULL_MV ==> pct_of(mv1) == 100,
{
    if mv1 > EMPTY_MV {
        vstd::arithmetic::div_mod::lemma_div_is_ordered(
            (mv1 - EMPTY_MV) * 100,
            (mv2 - EMPTY_MV) * 100,
            850,
        );
    }
    if mv1 >= FULL_MV {
        vstd::arithmetic::div_mod::lemma_div_is_ordered(85000, (mv1 - EMPTY_MV) * 100, 850);
    }
}

} // verus!
