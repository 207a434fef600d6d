//! The one-shot completion signal shared by the fetch task (its single writer)
//! and the progress renderer (its readers). The flag starts out unset and only
//! ever moves from unset to set, never back.
use vstd::prelude::*;

verus! {

/// A single boolean completion cell. Created fresh per command invocation,
/// set at most once by the fetch task, polled by the renderer, discarded at
/// command end. Its view is the value of the flag.
pub struct CompletionSignal {
    done: bool,
}

impl View for CompletionSignal {
    type V = bool;

    closed spec fn view(&self) -> bool {
        self.done
    }
}

/// The transition relation the signal obeys: a set flag stays set.
pub open spec fn signal_step(before: bool, after: bool) -> bool {
    before ==> after
}

impl CompletionSignal {
    /// A fresh, unset signal.
    pub fn new() -> (s: CompletionSignal)
        ensures
            !s@,
    {
        CompletionSignal { done: false }
    }

    /// Set the signal. This is the only mutating operation, so together with
    /// `new` it pins the signal's whole lifecycle to `signal_step`.
    pub fn set(&mut self)
        ensures
            final(self)@,
            signal_step(old(self)@, final(self)@),
    {
        self.done = true;
    }

    /// Poll the signal.
    pub fn is_set(&self) -> (r: bool)
        ensures
            r == self@,
    {
        self.done
    }
}

/// Signal monotonicity: along any sequence of observations of the signal in
/// which each adjacent pair is related by `signal_step` — as every operation of
/// `CompletionSignal` guarantees — a `true` observation is never followed by a
/// `false` one.
pub proof fn lemma_signal_monotonic(obs: Seq<bool>, i: int, j: int)
    requires
        forall|k: int| 0 <= k < obs.len() - 1 ==> signal_step(#[trigger] obs[k], obs[k + 1]),
        0 <= i <= j < obs.len(),
        obs[i],
    ensures
        obs[j],
    decreases j - i,
{
    if i < j {
        assert(signal_step(obs[i], obs[i + 1]));
        lemma_signal_monotonic(obs, i + 1, j);
    }
}

} // verus!
