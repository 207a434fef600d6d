//! The progress renderer's decision logic. The renderer itself is a polling
//! loop at the output device: on each iteration it reads the completion signal
//! under exclusive access, redraws and yields while the signal is unset, and
//! performs one final clear strictly after observing it set. Termination is
//! driven solely by the signal.
use vstd::prelude::*;

verus! {

/// What the renderer does on one polling iteration.
#[derive(Clone, Copy, Debug, PartialEq, Eq, Structural)]
pub enum ProgressAction {
    /// Refresh the current progress message, then yield to the fetch task.
    Redraw,
    /// Clear and finalize the progress line, then stop polling.
    Finalize,
}

/// One renderer decision: the polled signal value determines the action, and
/// nothing else does. The renderer keeps redrawing exactly as long as the
/// signal is unset, and finalizes exactly once it observes it set.
pub fn progress_decision(done: bool) -> (a: ProgressAction)
    ensures
        a == (if done {
            ProgressAction::Finalize
        } else {
            ProgressAction::Redraw
        }),
{
    if done {
        ProgressAction::Finalize
    } else {
        ProgressAction::Redraw
    }
}

/// The message a redraw shows: the renderer cycles through the prepared
/// message sequence, which it never mutates. An empty sequence yields no
/// message (the renderer then degrades to polling with no visible redraw).
pub fn progress_message<'a>(messages: &'a Vec<String>, tick: usize) -> (r: Option<&'a String>)
    ensures
        messages@.len() == 0 ==> r is None,
        messages@.len() > 0 ==> (r matches Some(m) && m@ == messages@[tick as int % messages@.len() as int]@),
{
    if messages.len() == 0 {
        None
    } else {
        Some(&messages[tick % messages.len()])
    }
}

} // verus!
