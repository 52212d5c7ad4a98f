//! The producer side of the event merger.
//!
//! Independent producer threads (input reader, idle timer, clock tick,
//! battery tick) each own a send handle into one multi-producer channel; the
//! consumer loop owns the receive side.  The channel and the threads are
//! plumbing and live outside the library; what is decided here is what each
//! producer emits.
//!
//! The idle timer waits on a secondary zero-payload activity channel with
//! its configured deadline.  Every observed input event resets the wait, and
//! a wait that elapses without a signal emits exactly one
//! `PrepareForSleep(Light)` — one event per elapsed idle period, none while
//! activity keeps arriving.

use vstd::prelude::*;
use crate::event::{Event, SleepType};

verus! {

/// Seconds between two `ClockTick` emissions.
pub const CLOCK_REFRESH_SECS: u64 = 60;

/// Seconds between two `BatteryTick` emissions.
pub const BATTERY_REFRESH_SECS: u64 = 299;

/// What one bounded wait on the activity channel ended with.
#[derive(Clone, Copy, Debug, PartialEq, Eq, Structural)]
pub enum IdleOutcome {
    /// An input producer signalled activity before the deadline; the wait
    /// deadline starts over.
    Activity,
    /// The configured idle duration elapsed without any signal.
    TimedOut,
    /// The activity channel is gone: the loop is shutting down.
    Disconnected,
}

/// What the idle-timer producer emits after one wait: exactly one
/// `PrepareForSleep(Light)` for an elapsed deadline, and nothing otherwise.
pub fn idle_timer_emission(outcome: IdleOutcome) -> (r: Option<Event>)
    ensures
        r matches Some(e) <==> outcome is TimedOut,
        outcome is TimedOut ==> r == Some(Event::PrepareForSleep(SleepType::Light)),
{
    match outcome {
        IdleOutcome::TimedOut => Some(Event::PrepareForSleep(SleepType::Light)),
        IdleOutcome::Activity => None,
        IdleOutcome::Disconnected => None,
    }
}

/// Whether the idle-timer producer keeps waiting after this outcome: only a
/// closed channel stops it; both activity and an emitted sleep request
/// re-arm the deadline.
pub fn idle_timer_continues(outcome: IdleOutcome) -> (r: bool)
    ensures
        r == !(outcome is Disconnected),
{
    !matches!(outcome, IdleOutcome::Disconnected)
}

/// The periodic clock producer emits `ClockTick`, unconditionally: whether
/// a tick is acted on while suspended is the consumer's decision.
pub fn clock_tick_emission() -> (r: Event)
    ensures
        r == Event::ClockTick,
{
    Event::ClockTick
}

/// The periodic battery producer emits `BatteryTick`, unconditionally.
pub fn battery_tick_emission() -> (r: Event)
    ensures
        r == Event::BatteryTick,
{
    Event::BatteryTick
}

} // verus!
