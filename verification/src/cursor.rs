//! The per-call cursor of a table-producing function.
//!
//! The host polls a producer until it hands back an empty batch. A cursor
//! records whether the call has already had its one productive poll.

use vstd::prelude::*;

verus! {

/// Where a call stands in its polling protocol.
#[derive(Clone, Copy, Debug, PartialEq, Eq, Structural)]
pub enum PollState {
    /// No poll has been served yet.
    Pending,
    /// The productive poll has been served; every later poll is empty.
    Done,
}

/// State of one table-function call, created at init time and discarded with
/// the call.
#[derive(Debug)]
pub struct InvocationCursor {
    state: PollState,
}

impl InvocationCursor {
    /// The state the cursor is in.
    pub closed spec fn state(&self) -> PollState {
        self.state
    }

    /// Whether the productive poll has been served.
    pub open spec fn done(&self) -> bool {
        self.state() == PollState::Done
    }

    /// A fresh cursor, as the init phase makes it.
    pub fn new() -> (cursor: Self)
        ensures
            cursor.state() == PollState::Pending,
    {
        InvocationCursor { state: PollState::Pending }
    }

    /// Reads the state without changing it.
    pub fn is_done(&self) -> (done: bool)
        ensures
            done == self.done(),
    {
        self.state == PollState::Done
    }

    /// Serves one poll: moves the cursor to `Done` and tells whether this poll
    /// is the productive one, that is, whether the cursor was `Pending`.
    pub fn advance(&mut self) -> (productive: bool)
        ensures
            final(self).state() == PollState::Done,
            productive == (old(self).state() == PollState::Pending),
    {
        let productive = self.state == PollState::Pending;
        self.state = PollState::Done;
        productive
    }
}

} // verus!
