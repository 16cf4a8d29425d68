//! The readability check: is there enough text to call the result an
//! article?

use vstd::prelude::*;

verus! {

/// The threshold that applies where the caller names none.
pub const DEFAULT_CHAR_THRESHOLD: usize = 140;

/// State of the check. It starts as `Pending`; once it is `Accepted` or
/// `Rejected` it stays so.
#[derive(Debug, Clone, Copy, PartialEq, Eq, Structural)]
pub enum Gate {
    /// The length has not been looked at yet.
    Pending,
    /// The text is long enough.
    Accepted,
    /// The text is too short.
    Rejected,
}

/// A text of `length` characters passes a threshold of `char_threshold`.
pub open spec fn passes(length: nat, char_threshold: nat) -> bool {
    length >= char_threshold
}

impl Gate {
    /// The state that follows `self` when a text of `length` characters is
    /// held against `char_threshold`.
    pub open spec fn settled(self, length: nat, char_threshold: nat) -> Gate {
        match self {
            Gate::Pending => if passes(length, char_threshold) {
                Gate::Accepted
            } else {
                Gate::Rejected
            },
            Gate::Accepted => Gate::Accepted,
            Gate::Rejected => Gate::Rejected,
        }
    }

    /// The state is final.
    pub open spec fn is_terminal(self) -> bool {
        self != Gate::Pending
    }

    /// Holds a text of `length` characters against `char_threshold`.
    pub fn settle(self, length: usize, char_threshold: usize) -> (next: Gate)
        ensures
            next == self.settled(length as nat, char_threshold as nat),
            next.is_terminal(),
    {
        match self {
            Gate::Pending => if length >= char_threshold {
                Gate::Accepted
            } else {
                Gate::Rejected
            },
            Gate::Accepted => Gate::Accepted,
            Gate::Rejected => Gate::Rejected,
        }
    }
}

/// Acceptance is monotonic in the threshold: what a threshold accepts, every
/// lower threshold accepts, and what it rejects, every higher one rejects.
pub proof fn lemma_gate_monotonic(length: nat, threshold: nat, other: nat)
    ensures
        other <= threshold && Gate::Pending.settled(length, threshold) == Gate::Accepted
            ==> Gate::Pending.settled(length, other) == Gate::Accepted,
        other >= threshold && Gate::Pending.settled(length, threshold) == Gate::Rejected
            ==> Gate::Pending.settled(length, other) == Gate::Rejected,
{
}

/// A state that is final does not change any more, whatever it is held
/// against.
pub proof fn lemma_gate_terminal_stays(gate: Gate, length: nat, threshold: nat)
    requires
        gate.is_terminal(),
    ensures
        gate.settled(length, threshold) == gate,
{
}

} // verus!
