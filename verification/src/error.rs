//! The failure taxonomy of a command run. Exactly one diagnostic surfaces per
//! failed run; no error is silently swallowed or retried at this layer.
use vstd::prelude::*;

verus! {

/// The classes of failure a command run can end in.
#[derive(Clone, Copy, Debug, PartialEq, Eq, Structural)]
pub enum ErrorKind {
    /// The precondition gate rejected the run; no work was started.
    NotAuthorized,
    /// The remote call failed; its diagnostic is the command's single failure.
    RemoteFailure,
    /// Writing to the interactive or standard output device failed.
    IoFailure,
    /// Machine-mode formatting failed; unreachable for a collection of plain
    /// strings, kept as the contract-violation class of the taxonomy.
    SerializationFailure,
}

/// A failure outcome: the class of the failure together with the single
/// diagnostic line shown to the user.
#[derive(Debug, Clone)]
pub struct CommandError {
    pub kind: ErrorKind,
    pub message: String,
}

impl CommandError {
    pub fn new(kind: ErrorKind, message: String) -> (r: CommandError)
        ensures
            r.kind == kind,
            r.message@ == message@,
    {
        CommandError { kind, message }
    }
}

} // verus!
