//! Sleep coordination: the wake/sleep plan of one boot. After a fixed
//! stretch of uptime the node records why it last reset and woke, then
//! asks for a deep sleep with a single timer wake source. Deep sleep is
//! terminal for the running system: no in-memory state survives it.

use vstd::prelude::*;

verus! {

/// Uptime before the node goes back to sleep, in seconds.
pub const ACTIVE_SECS: u64 = 60;

/// Duration of the timer wake source configured for deep sleep, in seconds.
pub const DEEP_SLEEP_SECS: u64 = 600;

/// Why the chip last reset, as far as the core cares.
#[derive(Clone, Copy, Debug, PartialEq, Eq, Structural)]
pub enum ResetCause {
    /// Cold power-on; also the fallback when the hardware reports nothing.
    ChipPowerOn,
    /// Reset at the end of a deep sleep.
    DeepSleepReset,
    /// Any other reported cause.
    Other,
}

/// What ended the last sleep.
#[derive(Clone, Copy, Debug, PartialEq, Eq, Structural)]
pub enum WakeCause {
    /// The timer wake source fired.
    Timer,
    /// No wake source was involved (plain boot).
    Undefined,
    /// Any other reported cause.
    Other,
}

/// The one record a boot produces before sleeping: how long the node was
/// active, why it reset and woke, and how long the coming sleep lasts.
pub struct WakeCycle {
    pub elapsed_active_secs: u64,
    pub reset_cause: ResetCause,
    pub wake_cause: WakeCause,
    pub next_sleep_secs: u64,
}

/// Plan the wake cycle of this boot: a fixed active stretch, the causes as
/// reported (a missing reset cause counts as a cold power-on), and the
/// fixed deep-sleep duration.
pub fn plan_wake_cycle(reset: Option<ResetCause>, wake: WakeCause) -> (c: WakeCycle)
    ensures
        c.elapsed_active_secs == ACTIVE_SECS,
        c.next_sleep_secs == DEEP_SLEEP_SECS,
        reset matches Some(r) ==> c.reset_cause == r,
        reset is None ==> c.reset_cause == ResetCause::ChipPowerOn,
        c.wake_cause == wake,
{
    let reset_cause = match reset {
        Some(r) => r,
        None => ResetCause::ChipPowerOn,
    };
    WakeCycle {
        elapsed_active_secs: ACTIVE_SECS,
        reset_cause,
        wake_cause: wake,
        next_sleep_secs: DEEP_SLEEP_SECS,
    }
}

} // verus!
