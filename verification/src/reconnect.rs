//! The progress of one run of connection attempts.

use vstd::prelude::*;
use crate::error::CarrotError;

verus! {

/// Number of connection attempts that one run makes.
pub const ATTEMPTS: u32 = 10;

/// How many attempts a run has made. A run makes [`ATTEMPTS`] attempts, one
/// after the other, whether or not an earlier one has opened a connection.
#[derive(Clone, Copy, Debug, PartialEq, Eq)]
pub struct Reconnect {
    attempted: u32,
}

/// A [`Reconnect`] as a mathematical value.
pub struct ReconnectView {
    pub attempted: nat,
}

impl ReconnectView {
    /// A run that has made no attempt yet.
    pub open spec fn fresh() -> ReconnectView {
        ReconnectView { attempted: 0 }
    }

    /// Whether another attempt is to be made.
    pub open spec fn pending(self) -> bool {
        self.attempted < ATTEMPTS
    }

    /// The run after the outcome of one more attempt. A run that has made all
    /// its attempts takes no more.
    pub open spec fn record(self) -> ReconnectView {
        if self.pending() {
            ReconnectView { attempted: self.attempted + 1 }
        } else {
            self
        }
    }

    /// The result of the run: none while attempts are left, success from then
    /// on, whatever the attempts came to.
    pub open spec fn result(self) -> Option<Result<(), CarrotError>> {
        if self.pending() {
            None
        } else {
            Some(Ok(()))
        }
    }
}

impl View for Reconnect {
    type V = ReconnectView;

    closed spec fn view(&self) -> ReconnectView {
        ReconnectView { attempted: self.attempted as nat }
    }
}

impl Reconnect {
    #[verifier::type_invariant]
    spec fn within_attempts(self) -> bool {
        self.attempted <= ATTEMPTS
    }

    /// Begins a run.
    pub fn new() -> (run: Reconnect)
        ensures
            run@ == ReconnectView::fresh(),
    {
        Reconnect { attempted: 0 }
    }

    /// The number of attempts made so far.
    pub fn attempted(&self) -> (count: u32)
        ensures
            count == self@.attempted,
            count <= ATTEMPTS,
    {
        proof {
            use_type_invariant(self);
        }
        self.attempted
    }

    /// Tells whether another attempt is to be made.
    pub fn is_pending(&self) -> (pending: bool)
        ensures
            pending == self@.pending(),
    {
        self.attempted < ATTEMPTS
    }

    /// Counts one more attempt, unless the run has made them all.
    pub(crate) fn record(self) -> (run: Reconnect)
        ensures
            run@ == self@.record(),
    {
        if self.attempted < ATTEMPTS {
            Reconnect { attempted: self.attempted + 1 }
        } else {
            self
        }
    }

    /// The result of the run, once it has made all its attempts.
    pub fn result(&self) -> (result: Option<Result<(), CarrotError>>)
        ensures
            result == self@.result(),
    {
        if self.attempted < ATTEMPTS {
            None
        } else {
            Some(Ok(()))
        }
    }
}

} // verus!
