//! The command-line arguments, as plain values.
use vstd::prelude::*;

verus! {

/// The arguments of a run.
#[derive(Clone, Debug)]
pub struct Args {
    /// The file path to read configuration data from.
    pub config: Option<String>,
    /// The action to perform: `install` or `uninstall`.
    pub action: Option<String>,
}

/// Checks the parsed arguments; every combination is accepted, a missing
/// or unknown action being handled by the run itself.
pub fn validate_args(_args: &Args) -> (r: Result<(), String>)
    ensures
        r is Ok,
{
    Ok(())
}

} // verus!
