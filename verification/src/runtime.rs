//! The state of a ticket: a task that is waited for until it is done or fails.

use vstd::prelude::*;

verus! {

/// The task is still running.
pub const WAIT: u8 = 0;

/// The task is done.
pub const DONE: u8 = 1;

/// The task failed.
pub const FAIL: u8 = 2;

/// What a wait on the ticket sees.
#[derive(Clone, Copy, Debug, PartialEq, Eq, Structural)]
pub enum TicketPoll {
    /// Still running: keep the waker and wait.
    Pending,
    /// Finished: whether the task is done.
    Ready(bool),
}

/// What a wait on a ticket in `state` sees. A ticket only ever holds one of the
/// three states.
pub fn poll_state(state: u8) -> (p: TicketPoll)
    requires
        state == WAIT || state == DONE || state == FAIL,
    ensures
        p == if state == WAIT {
            TicketPoll::Pending
        } else {
            TicketPoll::Ready(state == DONE)
        },
{
    if state == WAIT {
        TicketPoll::Pending
    } else if state == DONE {
        TicketPoll::Ready(true)
    } else {
        TicketPoll::Ready(false)
    }
}

} // verus!
