//! The precondition gate: checked once, synchronously, before any concurrent
//! work begins. A failed check short-circuits the whole command with a single
//! diagnostic and no output.
use vstd::prelude::*;

use crate::error::{CommandError, ErrorKind};

verus! {

/// The diagnostic shown when the precondition check rejects a run.
pub open spec fn not_enrolled_message() -> Seq<char> {
    "You must enroll before you can list your projects"@
}

/// The precondition gate. Returns `Ok` exactly when the caller is enrolled;
/// otherwise the `NotAuthorized` diagnostic, and the executor must not start
/// the fetch task or the progress renderer.
pub fn check_precondition(enrolled: bool) -> (r: Result<(), CommandError>)
    ensures
        enrolled <==> r is Ok,
        !enrolled ==> (r matches Err(e) && e.kind == ErrorKind::NotAuthorized
            && e.message@ == not_enrolled_message()),
{
    if enrolled {
        Ok(())
    } else {
        Err(CommandError::new(
            ErrorKind::NotAuthorized,
            "You must enroll before you can list your projects".to_owned(),
        ))
    }
}

} // verus!
