//! What running an external command gives back, and the next thing to do
//! in a sequence of such commands.
use vstd::prelude::*;

verus! {

/// The captured outcome of one command: its standard output, its standard
/// error and its exit code (none when a signal ended it).
#[derive(Clone, Debug, PartialEq, Eq)]
pub struct CommandOutput {
    pub stdout: String,
    pub stderr: String,
    pub status: Option<i32>,
}

/// The next step of a command sequence. The caller runs what it is told
/// and calls again with the outputs gathered so far.
#[derive(Debug, PartialEq, Eq)]
pub enum Step<E> {
    /// Run the tool with these arguments.
    Run { args: Vec<String> },
    /// Fetch this URL and report its HTTP status.
    Probe { url: String },
    /// Create the chart's directory and default values file.
    Prepare { name: String, repo: String },
    /// The sequence is over.
    Done { result: Result<(), E> },
}

/// The arguments of a command, as character sequences.
pub open spec fn arg_views(args: Seq<String>) -> Seq<Seq<char>> {
    args.map_values(|a: String| a@)
}

/// The step runs exactly these arguments.
pub open spec fn runs<E>(s: Step<E>, args: Seq<Seq<char>>) -> bool {
    s matches Step::Run { args: a } && arg_views(a@) == args
}

/// The step ends the sequence with success.
pub open spec fn succeeds<E>(s: Step<E>) -> bool {
    s matches Step::Done { result } && result is Ok
}

/// The step ends the sequence with this error.
pub open spec fn fails_with<E>(s: Step<E>, e: E) -> bool {
    s matches Step::Done { result } && result == Err::<(), E>(e)
}

/// Whether the command exited with code `code`.
pub fn exited_with(o: &CommandOutput, code: i32) -> (r: bool)
    ensures
        r == (o.status == Some(code)),
{
    match o.status {
        Some(c) => c == code,
        None => false,
    }
}

} // verus!
