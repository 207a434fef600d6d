//! Core of a `project list` command: a precondition gate, a joined pair of
//! concurrent activities (a remote fetch and a terminal progress renderer)
//! coordinated through a one-shot completion signal, and a dual-format
//! renderer that writes exactly one of a human-readable or a machine-readable
//! representation of the fetched collection.
use vstd::prelude::*;

pub mod error;
pub mod executor;
pub mod gate;
pub mod progress;
pub mod render;
pub mod signal;

verus! {

/// The `project list` command: lists the projects available to the caller.
pub struct ListCommand {}

impl ListCommand {
    /// The full name of the command, as shown to the user.
    pub fn name(&self) -> (r: String)
        ensures
            r@ == "project list"@,
    {
        "project list".to_owned()
    }

    /// The title of the human-mode list.
    pub fn title(&self) -> (r: String)
        ensures
            r@ == "Projects"@,
    {
        "Projects".to_owned()
    }

    /// The message the human mode shows for an empty collection.
    pub fn empty_message(&self) -> (r: String)
        ensures
            r@ == "No projects found on this system."@,
    {
        "No projects found on this system.".to_owned()
    }

    /// The progress messages prepared before the executor starts, consumed
    /// read-only by the progress renderer.
    pub fn progress_messages(&self) -> (r: Vec<String>)
        ensures
            r.deep_view() == seq!["Listing projects...\n"@],
    {
        let mut v: Vec<String> = Vec::new();
        v.push("Listing projects...\n".to_owned());
        proof {
            assert(v.deep_view() =~= seq!["Listing projects...\n"@]);
        }
        v
    }
}

} // verus!
