//! Running the accepted command: how the shell is called, and what its
//! outcome means.

use crate::report::{Failure, RunEnd};
use vstd::prelude::*;
use vstd::string::StringExecFns;

verus! {

/// A program and its arguments.
#[derive(Clone, Debug, PartialEq, Eq)]
pub struct Invocation {
    pub program: String,
    pub args: Vec<String>,
}

/// What came of running the command.
#[derive(Clone, Debug, PartialEq, Eq)]
pub struct ExecutionOutcome {
    /// Whether the command left with status 0.
    pub exit_succeeded: bool,
    /// What it wrote to its standard output.
    pub stdout: Vec<u8>,
    /// What it wrote to its standard error.
    pub stderr: Vec<u8>,
}

/// How a run ends after its command was handed to the shell: `outcome` is
/// nothing where the shell could not be started.
pub open spec fn execution_end(outcome: Option<ExecutionOutcome>) -> RunEnd {
    match outcome {
        None => RunEnd::Failed(Failure::Launch),
        Some(finished) => if finished.exit_succeeded {
            RunEnd::Completed
        } else {
            RunEnd::Failed(Failure::Command)
        },
    }
}

impl ExecutionOutcome {
    /// What is shown of the command's output: its standard output where it
    /// ran well, else its standard error.
    pub fn shown(&self) -> (r: &Vec<u8>)
        ensures
            r@ == (if self.exit_succeeded {
                self.stdout@
            } else {
                self.stderr@
            }),
    {
        if self.exit_succeeded {
            &self.stdout
        } else {
            &self.stderr
        }
    }
}

/// The call that runs `command`: `bash`, not interactive, with the whole
/// command as the one argument after `-c`.
pub fn shell_invocation(command: &str) -> (r: Invocation)
    ensures
        r.program@ == "bash"@,
        r.args.deep_view() == seq!["-c"@, command@],
{
    let mut args: Vec<String> = Vec::new();
    args.push(String::from_str("-c"));
    args.push(String::from_str(command));
    assert(args.deep_view() =~= seq!["-c"@, command@]);
    Invocation { program: String::from_str("bash"), args }
}

/// How the run ends after its command was handed to the shell: `outcome` is
/// nothing where the shell could not be started.
pub fn conclude(outcome: Option<&ExecutionOutcome>) -> (r: RunEnd)
    ensures
        r == execution_end(
            match outcome {
                Some(finished) => Some(*finished),
                None => None,
            },
        ),
{
    match outcome {
        None => RunEnd::Failed(Failure::Launch),
        Some(finished) => if finished.exit_succeeded {
            RunEnd::Completed
        } else {
            RunEnd::Failed(Failure::Command)
        },
    }
}

} // verus!
