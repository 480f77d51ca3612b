//! Lifecycle states of an agreement.

use vstd::prelude::*;

verus! {

/// Where an agreement stands in its life. The state is derived from the
/// clock and the pool's cancellation flag each time it is asked for; it is
/// never stored.
#[derive(Clone, Copy, Debug, PartialEq, Eq, Structural)]
pub enum State {
    /// The lock period has not elapsed.
    Running,
    /// The lock period has elapsed.
    Expired,
    /// The pool was cancelled by its owner.
    Cancelled,
}

impl State {
    /// The number that stands for a state on the wire.
    pub open spec fn spec_code(self) -> u32 {
        match self {
            State::Running => 0,
            State::Expired => 1,
            State::Cancelled => 2,
        }
    }

    /// The number that stands for this state on the wire: 0 for `Running`,
    /// 1 for `Expired`, 2 for `Cancelled`.
    #[verifier::when_used_as_spec(spec_code)]
    pub fn code(self) -> (n: u32)
        ensures
            n == self.spec_code(),
    {
        match self {
            State::Running => 0,
            State::Expired => 1,
            State::Cancelled => 2,
        }
    }
}

} // verus!
