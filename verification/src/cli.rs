//! The command line of the client.
use vstd::prelude::*;
use crate::text::join2;

verus! {

/// What the command line asks for.
#[derive(Debug, Clone, Copy, PartialEq, Eq, Structural)]
pub struct Cli {
    /// Clear the stored credentials and leave.
    pub clear_keyring: bool,
}

/// What to print after the stored credentials were asked to be cleared,
/// and whether it goes to the error stream: a failure does, with its
/// reason.
pub fn handle_keyring_clear(outcome: Result<(), String>) -> (report: (String, bool))
    ensures
        match outcome {
            Ok(_) => report.0@ == "Credentials removed from keyring. Exiting."@ && !report.1,
            Err(e) => report.0@ == "Failed to delete credentials from keyring: "@ + e@ && report.1,
        },
{
    match outcome {
        Ok(_) => ("Credentials removed from keyring. Exiting.".to_string(), false),
        Err(e) => (join2("Failed to delete credentials from keyring: ", e.as_str()), true),
    }
}

} // verus!
