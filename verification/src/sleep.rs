//! Deep sleep entry.
//!
//! Waking from deep sleep is a hardware reset, so nothing has to be
//! restored. Entering it takes an ordered sequence: release the
//! peripherals, switch the backlight off, put the display to sleep, wait
//! until button B is released (the EXT1 wake-up source is "any low", so a
//! held button would wake the chip at once), settle 30 ms, and start deep
//! sleep. The hardware layer performs each [`SleepAction`] and reports back.
//!
//! GPIO levels are held during deep sleep (PMIC GPIO2 stays high), and
//! buses that are still active (I2S DMA, SPI) may keep the chip from
//! sleeping, hence the clean-up first.

use vstd::prelude::*;
use crate::PIN_BTN_B;

verus! {

/// A display that can be put to sleep before the chip enters deep sleep.
pub trait DisplaySleep {
    fn sleep(&mut self);
}

/// The EXT1 wake-up pin mask: button B (GPIO12), waking on low level.
pub fn config_wakeup() -> (mask: u64)
    ensures
        mask == 4096,
        mask == (1u64 << (PIN_BTN_B as u64)),
{
    let mask: u64 = 1u64 << (PIN_BTN_B as u64);
    assert(mask == 4096) by (bit_vector)
        requires
            mask == (1u64 << 12u64),
    ;
    mask
}

/// What the hardware layer is asked to do next.
#[derive(Debug, Clone, Copy, PartialEq, Eq, Structural)]
pub enum SleepAction {
    /// Release the peripherals (run the caller's clean-up).
    Cleanup,
    /// Drive the backlight pin low.
    BacklightOff,
    /// Put the display to sleep.
    DisplaySleep,
    /// Report whether button B is still held.
    ReadButtonB,
    /// Wait the given number of milliseconds.
    WaitMs(u32),
    /// Start deep sleep.
    DeepSleep,
    /// Deep sleep returned: it failed to start.
    Failed,
}

/// What the hardware layer reports.
#[derive(Debug, Clone, Copy, PartialEq, Eq, Structural)]
pub enum SleepEvent {
    /// The requested action was performed.
    Performed,
    /// Button B reading: `true` while held.
    ButtonB(bool),
}

/// Which action is awaiting its report.
#[derive(Clone, Copy, PartialEq, Eq, Structural)]
pub enum SleepPhase {
    Cleanup,
    BacklightOff,
    DisplaySleep,
    ReadButton,
    WaitRelease,
    Settle,
    DeepSleep,
    Failed,
}

/// One step of the sleep entry.
pub open spec fn sleep_next(phase: SleepPhase, ev: SleepEvent) -> (SleepPhase, SleepAction) {
    match phase {
        SleepPhase::Cleanup => (SleepPhase::BacklightOff, SleepAction::BacklightOff),
        SleepPhase::BacklightOff => (SleepPhase::DisplaySleep, SleepAction::DisplaySleep),
        SleepPhase::DisplaySleep => (SleepPhase::ReadButton, SleepAction::ReadButtonB),
        SleepPhase::ReadButton => {
            if ev == SleepEvent::ButtonB(false) {
                (SleepPhase::Settle, SleepAction::WaitMs(30))
            } else {
                (SleepPhase::WaitRelease, SleepAction::WaitMs(10))
            }
        },
        SleepPhase::WaitRelease => (SleepPhase::ReadButton, SleepAction::ReadButtonB),
        SleepPhase::Settle => (SleepPhase::DeepSleep, SleepAction::DeepSleep),
        SleepPhase::DeepSleep => (SleepPhase::Failed, SleepAction::Failed),
        SleepPhase::Failed => (SleepPhase::Failed, SleepAction::Failed),
    }
}

/// Progress of a deep-sleep entry.
pub struct SleepSeq {
    phase: SleepPhase,
}

impl SleepSeq {
    pub closed spec fn phase(&self) -> SleepPhase {
        self.phase
    }

    /// Takes the report of the pending action and returns the next action.
    pub fn step(&mut self, ev: SleepEvent) -> (act: SleepAction)
        ensures
            (final(self).phase(), act) == sleep_next(old(self).phase(), ev),
    {
        let (p, a) = match self.phase {
            SleepPhase::Cleanup => (SleepPhase::BacklightOff, SleepAction::BacklightOff),
            SleepPhase::BacklightOff => (SleepPhase::DisplaySleep, SleepAction::DisplaySleep),
            SleepPhase::DisplaySleep => (SleepPhase::ReadButton, SleepAction::ReadButtonB),
            SleepPhase::ReadButton => {
                let held = match ev {
                    SleepEvent::ButtonB(false) => false,
                    _ => true,
                };
                if held {
                    (SleepPhase::WaitRelease, SleepAction::WaitMs(10))
                } else {
                    (SleepPhase::Settle, SleepAction::WaitMs(30))
                }
            },
            SleepPhase::WaitRelease => (SleepPhase::ReadButton, SleepAction::ReadButtonB),
            SleepPhase::Settle => (SleepPhase::DeepSleep, SleepAction::DeepSleep),
            SleepPhase::DeepSleep => (SleepPhase::Failed, SleepAction::Failed),
            SleepPhase::Failed => (SleepPhase::Failed, SleepAction::Failed),
        };
        self.phase = p;
        a
    }
}

/// Starts a deep-sleep entry; the first action is the clean-up.
pub fn enter() -> (res: (SleepSeq, SleepAction))
    ensures
        res.0.phase() == SleepPhase::Cleanup,
        res.1 == SleepAction::Cleanup,
{
    (SleepSeq { phase: SleepPhase::Cleanup }, SleepAction::Cleanup)
}

/// Deep sleep is started only after a button reading that showed button B
/// released followed by the 30 ms settle time; the display is put to sleep
/// only after the backlight is off, which happens only after the clean-up.
pub proof fn lemma_sleep_only_when_released(phase: SleepPhase, ev: SleepEvent)
    ensures
        sleep_next(phase, ev).1 == SleepAction::DeepSleep ==> phase == SleepPhase::Settle,
        sleep_next(phase, ev).0 == SleepPhase::Settle ==> phase == SleepPhase::ReadButton && ev
            == SleepEvent::ButtonB(false),
        sleep_next(phase, ev).1 == SleepAction::DisplaySleep ==> phase == SleepPhase::BacklightOff,
        sleep_next(phase, ev).1 == SleepAction::BacklightOff ==> phase == SleepPhase::Cleanup,
{
}

/// The phase after the first `k` reports of `evs`, starting from `start`.
pub open spec fn sleep_phase_after(start: SleepPhase, evs: Seq<SleepEvent>, k: nat) -> SleepPhase
    decreases k,
{
    if k == 0 {
        start
    } else {
        sleep_next(sleep_phase_after(start, evs, (k - 1) as nat), evs[k - 1]).0
    }
}

/// The action requested after the `k`-th report (`k >= 1`).
pub open spec fn sleep_action_at(start: SleepPhase, evs: Seq<SleepEvent>, k: nat) -> SleepAction {
    sleep_next(sleep_phase_after(start, evs, (k - 1) as nat), evs[k - 1]).1
}

/// Over a whole run from [`enter`]: whenever deep sleep is requested, the
/// report just before the settle wait was a button reading that showed
/// button B released.
pub proof fn lemma_deep_sleep_follows_release(evs: Seq<SleepEvent>, k: nat)
    requires
        1 <= k <= evs.len(),
        sleep_action_at(SleepPhase::Cleanup, evs, k) == SleepAction::DeepSleep,
    ensures
        k >= 2,
        sleep_phase_after(SleepPhase::Cleanup, evs, (k - 2) as nat) == SleepPhase::ReadButton,
        evs[k - 2] == SleepEvent::ButtonB(false),
        sleep_action_at(SleepPhase::Cleanup, evs, (k - 1) as nat) == SleepAction::WaitMs(30),
{
    let start = SleepPhase::Cleanup;
    lemma_sleep_only_when_released(sleep_phase_after(start, evs, (k - 1) as nat), evs[k - 1]);
    assert(sleep_phase_after(start, evs, (k - 1) as nat) == SleepPhase::Settle);
    assert(k - 1 != 0);
    lemma_sleep_only_when_released(sleep_phase_after(start, evs, (k - 2) as nat), evs[k - 2]);
}

/// The phases a run passes through while button B is held at every reading.
pub open spec fn before_release(phase: SleepPhase) -> bool {
    ||| phase == SleepPhase::Cleanup
    ||| phase == SleepPhase::BacklightOff
    ||| phase == SleepPhase::DisplaySleep
    ||| phase == SleepPhase::ReadButton
    ||| phase == SleepPhase::WaitRelease
}

proof fn lemma_held_prefix(evs: Seq<SleepEvent>, k: nat)
    requires
        k <= evs.len(),
        forall|j: nat|
            j < evs.len() && #[trigger] sleep_phase_after(SleepPhase::Cleanup, evs, j)
                == SleepPhase::ReadButton ==> evs[j as int] == SleepEvent::ButtonB(true),
    ensures
        before_release(sleep_phase_after(SleepPhase::Cleanup, evs, k)),
    decreases k,
{
    if k > 0 {
        let j = (k - 1) as nat;
        lemma_held_prefix(evs, j);
        let p = sleep_phase_after(SleepPhase::Cleanup, evs, j);
        if p == SleepPhase::ReadButton {
            assert(evs[j as int] == SleepEvent::ButtonB(true));
        }
    }
}

/// Over a whole run from [`enter`]: while every reading of button B shows
/// it held, deep sleep is never requested and the run never fails; it keeps
/// polling every 10 ms.
pub proof fn lemma_held_button_never_sleeps(evs: Seq<SleepEvent>)
    requires
        forall|j: nat|
            j < evs.len() && #[trigger] sleep_phase_after(SleepPhase::Cleanup, evs, j)
                == SleepPhase::ReadButton ==> evs[j as int] == SleepEvent::ButtonB(true),
    ensures
        forall|k: nat|
            1 <= k <= evs.len() ==> #[trigger] sleep_action_at(SleepPhase::Cleanup, evs, k)
                != SleepAction::DeepSleep && sleep_action_at(SleepPhase::Cleanup, evs, k)
                != SleepAction::Failed && sleep_action_at(SleepPhase::Cleanup, evs, k)
                != SleepAction::WaitMs(30),
{
    assert forall|k: nat| 1 <= k <= evs.len() implies #[trigger] sleep_action_at(
        SleepPhase::Cleanup,
        evs,
        k,
    ) != SleepAction::DeepSleep && sleep_action_at(SleepPhase::Cleanup, evs, k)
        != SleepAction::Failed && sleep_action_at(SleepPhase::Cleanup, evs, k)
        != SleepAction::WaitMs(30) by {
        let j = (k - 1) as nat;
        lemma_held_prefix(evs, j);
        let p = sleep_phase_after(SleepPhase::Cleanup, evs, j);
        if p == SleepPhase::ReadButton {
            assert(evs[j as int] == SleepEvent::ButtonB(true));
        }
    }
}

} // verus!
