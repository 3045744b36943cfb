use vstd::prelude::*;

verus! {

/// The two states of a per-target poll loop. The loop leaves Running only at
/// an iteration boundary, once the process-wide cancellation flag is seen.
#[derive(Clone, Copy, Debug, PartialEq, Eq, Structural)]
pub enum PollState {
    Running,
    Stopped,
}

/// The state a poll loop is in after one iteration boundary: Stopped exactly
/// when cancellation has been signalled, Running otherwise.
pub fn next_poll_state(cancelled: bool) -> (s: PollState)
    ensures
        s == if cancelled {
            PollState::Stopped
        } else {
            PollState::Running
        },
{
    if cancelled {
        PollState::Stopped
    } else {
        PollState::Running
    }
}

/// Time left to sleep at the end of a poll iteration: the configured interval
/// minus the time the iteration already took, floored at zero.
pub fn remaining_sleep_ms(interval_ms: u64, elapsed_ms: u64) -> (r: u64)
    ensures
        r == if elapsed_ms < interval_ms {
            interval_ms - elapsed_ms
        } else {
            0int
        },
{
    if elapsed_ms < interval_ms {
        interval_ms - elapsed_ms
    } else {
        0
    }
}

} // verus!
