//! The power-state machine.
//!
//! States: awake, suspending (sleep requested but the `Suspend` event not yet
//! processed), suspended, and mounted as USB mass storage.  The transition
//! function below is the single authority on which state follows which; the
//! core loop's handlers all go through it.

use vstd::prelude::*;
use crate::event::SleepType;

verus! {

#[derive(Clone, Copy, Debug, PartialEq, Eq, Structural)]
pub enum PowerState {
    Awake,
    Suspending(SleepType),
    Suspended(SleepType),
    Mounted,
}

/// What drives a power transition.
#[derive(Clone, Copy, Debug, PartialEq, Eq, Structural)]
pub enum PowerTrigger {
    /// Power-button hold or idle timeout while awake.
    SleepRequested(SleepType),
    /// The queued `Suspend` event reached the head of the stream.
    SuspendProcessed,
    /// A button press that wakes the device.
    WakeRequested,
    /// A `Mount` event.
    MountRequested,
}

impl PowerState {
    /// The device is in some stage of sleep: the session flag `suspended`
    /// mirrors exactly this predicate.
    pub open spec fn is_sleeping(self) -> bool {
        self is Suspending || self is Suspended
    }
}

/// The transition table.
///
/// - `Awake --SleepRequested(k)--> Suspending(k)`
/// - `Suspending(k) --SuspendProcessed--> Suspended(k)`
/// - `Suspending(k) | Suspended(k) --WakeRequested--> Awake`
/// - `Awake --MountRequested--> Mounted`
/// - everything else stays put.
pub open spec fn spec_power_step(s: PowerState, t: PowerTrigger) -> PowerState {
    match (s, t) {
        (PowerState::Awake, PowerTrigger::SleepRequested(k)) => PowerState::Suspending(k),
        (PowerState::Suspending(k), PowerTrigger::SuspendProcessed) => PowerState::Suspended(k),
        (PowerState::Suspending(_), PowerTrigger::WakeRequested) => PowerState::Awake,
        (PowerState::Suspended(_), PowerTrigger::WakeRequested) => PowerState::Awake,
        (PowerState::Awake, PowerTrigger::MountRequested) => PowerState::Mounted,
        _ => s,
    }
}

pub fn power_step(s: PowerState, t: PowerTrigger) -> (r: PowerState)
    ensures
        r == spec_power_step(s, t),
{
    match (s, t) {
        (PowerState::Awake, PowerTrigger::SleepRequested(k)) => PowerState::Suspending(k),
        (PowerState::Suspending(k), PowerTrigger::SuspendProcessed) => PowerState::Suspended(k),
        (PowerState::Suspending(_), PowerTrigger::WakeRequested) => PowerState::Awake,
        (PowerState::Suspended(_), PowerTrigger::WakeRequested) => PowerState::Awake,
        (PowerState::Awake, PowerTrigger::MountRequested) => PowerState::Mounted,
        _ => s,
    }
}

/// A suspended state is entered only from the suspending state of the same
/// sleep kind, and the mounted state only from the awake state.
pub proof fn lemma_power_reachability(s: PowerState, t: PowerTrigger)
    ensures
        spec_power_step(s, t) is Suspended && !(s is Suspended)
            ==> s == PowerState::Suspending(spec_power_step(s, t)->Suspended_0),
        spec_power_step(s, t) is Mounted && !(s is Mounted) ==> s is Awake,
{
}

/// The state after running a whole sequence of triggers through the
/// transition table.
pub open spec fn spec_run_power(s0: PowerState, ts: Seq<PowerTrigger>) -> PowerState
    decreases ts.len(),
{
    if ts.len() == 0 {
        s0
    } else {
        spec_power_step(spec_run_power(s0, ts.drop_last()), ts.last())
    }
}

/// Over any run of the transition table, a suspended state is entered only
/// by processing the `Suspend` event while in the suspending state: there
/// is a step of the run that does exactly that.
pub proof fn lemma_run_reaches_suspended_via_suspending(s0: PowerState, ts: Seq<PowerTrigger>)
    requires
        !(s0 is Suspended),
        spec_run_power(s0, ts) is Suspended,
    ensures
        exists|i: int|
            0 <= i < ts.len()
                && #[trigger] spec_run_power(s0, ts.take(i)) is Suspending
                && ts[i] == PowerTrigger::SuspendProcessed,
    decreases ts.len(),
{
    let prev = spec_run_power(s0, ts.drop_last());
    if prev is Suspended {
        lemma_run_reaches_suspended_via_suspending(s0, ts.drop_last());
        let i = choose|i: int|
            0 <= i < ts.drop_last().len()
                && #[trigger] spec_run_power(s0, ts.drop_last().take(i)) is Suspending
                && ts.drop_last()[i] == PowerTrigger::SuspendProcessed;
        assert(ts.drop_last().take(i) =~= ts.take(i));
        assert(spec_run_power(s0, ts.take(i)) is Suspending
            && ts[i] == PowerTrigger::SuspendProcessed);
    } else {
        let i = ts.len() - 1;
        assert(ts.drop_last() =~= ts.take(i));
        assert(spec_run_power(s0, ts.take(i)) is Suspending
            && ts[i] == PowerTrigger::SuspendProcessed);
    }
}

/// Over any run of the transition table, a mounted state is entered only by
/// a mount request made while awake.
pub proof fn lemma_run_reaches_mounted_from_awake(s0: PowerState, ts: Seq<PowerTrigger>)
    requires
        !(s0 is Mounted),
        spec_run_power(s0, ts) is Mounted,
    ensures
        exists|i: int|
            0 <= i < ts.len()
                && #[trigger] spec_run_power(s0, ts.take(i)) is Awake
                && ts[i] == PowerTrigger::MountRequested,
    decreases ts.len(),
{
    let prev = spec_run_power(s0, ts.drop_last());
    if prev is Mounted {
        lemma_run_reaches_mounted_from_awake(s0, ts.drop_last());
        let i = choose|i: int|
            0 <= i < ts.drop_last().len()
                && #[trigger] spec_run_power(s0, ts.drop_last().take(i)) is Awake
                && ts.drop_last()[i] == PowerTrigger::MountRequested;
        assert(ts.drop_last().take(i) =~= ts.take(i));
        assert(spec_run_power(s0, ts.take(i)) is Awake
            && ts[i] == PowerTrigger::MountRequested);
    } else {
        let i = ts.len() - 1;
        assert(ts.drop_last() =~= ts.take(i));
        assert(spec_run_power(s0, ts.take(i)) is Awake
            && ts[i] == PowerTrigger::MountRequested);
    }
}

/// Mounting is idempotent at the state level: a second mount request moves
/// nothing.
pub proof fn lemma_mount_idempotent()
    ensures
        spec_power_step(PowerState::Mounted, PowerTrigger::MountRequested)
            == PowerState::Mounted,
{
}

} // verus!
