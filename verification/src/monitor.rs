use vstd::prelude::*;

verus! {

/// What the monitor loop does once a cycle has finished.
#[derive(Clone, Copy, Debug, PartialEq, Eq, Structural)]
pub enum LoopAction {
    /// Return control to the caller.
    Stop,
    /// Sleep this many seconds, then run the next cycle.
    SleepThenRepeat(u64),
}

/// The loop policy: in once mode control returns right after the single
/// cycle, without touching the refresh-interval sleep; otherwise the loop
/// sleeps for the configured interval and repeats.
pub fn next_cycle_action(once: bool, refresh_interval: u64) -> (r: LoopAction)
    ensures
        once ==> r == LoopAction::Stop,
        !once ==> r == LoopAction::SleepThenRepeat(refresh_interval),
{
    if once {
        LoopAction::Stop
    } else {
        LoopAction::SleepThenRepeat(refresh_interval)
    }
}

} // verus!
