//! The joined executor: one command run as a state machine. Two concurrent
//! activities — the remote fetch and the progress renderer — start at the same
//! logical instant, both are waited for, and their outcomes are folded with
//! fetch-failure precedence. No phase is ever re-entered; the command executes
//! exactly once per invocation.
use vstd::prelude::*;

use crate::error::{CommandError, ErrorKind};
use crate::gate::{check_precondition, not_enrolled_message};
use crate::render::{human_list, json_of, render_output, OutputMode};
use crate::signal::CompletionSignal;

verus! {

/// The fetch task's terminal step: record that the fetch reached a terminal
/// state by setting the completion signal, and pass the outcome through
/// unchanged. The signal means "stop", not "succeeded": a failed fetch sets it
/// too, so the renderer is always released and never left polling forever.
pub fn complete_fetch(signal: &mut CompletionSignal, fetched: Result<Vec<String>, CommandError>) -> (r:
    Result<Vec<String>, CommandError>)
    ensures
        final(signal)@,
        r == fetched,
{
    signal.set();
    fetched
}

/// The join barrier's fold of the two outcomes: a fetch failure takes
/// precedence (it carries the domain-meaningful error), then the renderer's
/// failure; on double success, the fetched collection alone — the renderer's
/// unit result is discarded.
pub fn join_outcomes(fetch: Result<Vec<String>, CommandError>, progress: Result<(), CommandError>) -> (r:
    Result<Vec<String>, CommandError>)
    ensures
        fetch matches Err(e) ==> r == Err::<Vec<String>, CommandError>(e),
        fetch is Ok ==> (progress matches Err(e) ==> r == Err::<Vec<String>, CommandError>(e)),
        progress is Ok ==> (fetch matches Ok(c) ==> r == Ok::<Vec<String>, CommandError>(c)),
{
    match fetch {
        Err(e) => Err(e),
        Ok(items) => match progress {
            Err(e) => Err(e),
            Ok(_) => Ok(items),
        },
    }
}

/// The phases of one command run, in the order they are reached.
#[derive(Clone, Copy, Debug, PartialEq, Eq, Structural)]
pub enum Phase {
    Idle,
    PreconditionChecked,
    Running,
    Joined,
    Formatted,
    Done,
    Aborted,
}

/// One command invocation, driven from `Idle` to `Done` through the
/// precondition check, the concurrent pair, the join and the output — or into
/// the terminal `Aborted` phase by the first failure observed on the way.
pub struct CommandMachine {
    /// Where the run stands.
    pub phase: Phase,
    /// The fetched collection, owned by the executor from a successful join on.
    pub items: Option<Vec<String>>,
    /// The failure the run ends in, recorded when it aborts.
    pub failure: Option<CommandError>,
}

impl CommandMachine {
    /// The precondition may be checked: nothing has happened yet.
    pub open spec fn gate_enabled(self) -> bool {
        self.phase is Idle
    }

    /// The concurrent pair may be started: the precondition check succeeded.
    pub open spec fn start_enabled(self) -> bool {
        self.phase is PreconditionChecked
    }

    /// The two outcomes may be joined: both activities are running.
    pub open spec fn join_enabled(self) -> bool {
        self.phase is Running
    }

    /// The output may be rendered: the join succeeded and yielded a collection.
    pub open spec fn format_enabled(self) -> bool {
        self.phase is Joined && self.items is Some
    }

    /// The rendered output may be written out.
    pub open spec fn finish_enabled(self) -> bool {
        self.phase is Formatted
    }

    /// The run is over; nothing further is enabled.
    pub open spec fn is_terminal(self) -> bool {
        self.phase is Done || self.phase is Aborted
    }

    /// A fresh run: idle, nothing fetched, nothing failed.
    pub fn new() -> (m: CommandMachine)
        ensures
            m.phase is Idle,
            m.gate_enabled(),
            m.items is None,
            m.failure is None,
    {
        CommandMachine { phase: Phase::Idle, items: None, failure: None }
    }

    /// Check the precondition gate, once, before any concurrent work. A failed
    /// check aborts the run with the `NotAuthorized` diagnostic.
    pub fn check_gate(&mut self, enrolled: bool) -> (r: bool)
        requires
            old(self).gate_enabled(),
        ensures
            r == enrolled,
            enrolled ==> final(self).phase is PreconditionChecked && final(self).start_enabled()
                && final(self).failure == old(self).failure,
            !enrolled ==> final(self).phase is Aborted && (final(self).failure matches Some(e)
                && e.kind == ErrorKind::NotAuthorized && e.message@ == not_enrolled_message()),
            final(self).items == old(self).items,
    {
        match check_precondition(enrolled) {
            Ok(_) => {
                self.phase = Phase::PreconditionChecked;
                true
            },
            Err(e) => {
                self.failure = Some(e);
                self.phase = Phase::Aborted;
                false
            },
        }
    }

    /// Start the fetch task and the progress renderer at the same logical
    /// instant, handing them the fresh, unset completion signal they share.
    pub fn start_tasks(&mut self) -> (s: CompletionSignal)
        requires
            old(self).start_enabled(),
        ensures
            final(self).phase is Running,
            final(self).join_enabled(),
            !s@,
            final(self).items == old(self).items,
            final(self).failure == old(self).failure,
    {
        self.phase = Phase::Running;
        CompletionSignal::new()
    }

    /// The join barrier: wait for both activities, fold their outcomes with
    /// fetch-failure precedence. On double success the run owns the collection;
    /// on the first failure it aborts with exactly that failure.
    pub fn join_tasks(&mut self, fetch: Result<Vec<String>, CommandError>, progress: Result<
        (),
        CommandError,
    >)
        requires
            old(self).join_enabled(),
        ensures
            progress is Ok ==> (fetch matches Ok(c) ==> final(self).phase is Joined && final(self).items == Some(c) && final(self).failure == old(self).failure && final(self).format_enabled()),
            fetch matches Err(e) ==> final(self).phase is Aborted && final(self).failure == Some(e) && final(self).items == old(self).items,
            fetch is Ok ==> (progress matches Err(e) ==> final(self).phase is Aborted && final(self).failure == Some(e) && final(self).items == old(self).items),
    {
        match join_outcomes(fetch, progress) {
            Ok(items) => {
                self.items = Some(items);
                self.phase = Phase::Joined;
            },
            Err(e) => {
                self.failure = Some(e);
                self.phase = Phase::Aborted;
            },
        }
    }

    /// Render the single output string of the run — human or machine form,
    /// exactly one of the two. Rendering is total (the machine form's
    /// serializer cannot fail on a collection of strings), so the run always
    /// moves on to `Formatted`; no partial output ever accompanies an error.
    pub fn format_output(&mut self, mode: OutputMode, title: &str, empty_message: &str) -> (r:
        String)
        requires
            old(self).format_enabled(),
        ensures
            final(self).phase is Formatted,
            final(self).finish_enabled(),
            mode is Human ==> r@ == human_list(
                old(self).items->Some_0.deep_view(),
                title@,
                empty_message@,
            ),
            mode is Machine ==> r@ == json_of(old(self).items->Some_0.deep_view()),
            final(self).items == old(self).items,
            final(self).failure == old(self).failure,
    {
        let text = match &self.items {
            Some(v) => render_output(v, title, empty_message, mode),
            None => unreached(),
        };
        self.phase = Phase::Formatted;
        text
    }

    /// Record the outcome of writing the rendered string to standard output.
    /// A write failure aborts the run even though the fetch succeeded: a
    /// fetched-but-unrendered result is not a success.
    pub fn record_write(&mut self, write_result: Result<(), CommandError>)
        requires
            old(self).finish_enabled(),
        ensures
            write_result is Ok ==> final(self).phase is Done && final(self).failure == old(self).failure,
            write_result matches Err(e) ==> final(self).phase is Aborted && final(self).failure
                == Some(e),
            final(self).items == old(self).items,
    {
        match write_result {
            Ok(_) => {
                self.phase = Phase::Done;
            },
            Err(e) => {
                self.failure = Some(e);
                self.phase = Phase::Aborted;
            },
        }
    }
}

/// Short-circuit on a rejected precondition: an aborted run — in particular
/// one whose precondition check was rejected — enables no further transition.
/// The fetch task and the progress renderer can never be started, nothing can
/// be joined, and no output can be rendered or written.
pub proof fn lemma_gate_short_circuit(m: CommandMachine)
    requires
        m.phase is Aborted,
    ensures
        !m.gate_enabled(),
        !m.start_enabled(),
        !m.join_enabled(),
        !m.format_enabled(),
        !m.finish_enabled(),
        m.is_terminal(),
{
}

} // verus!
