//! Running the completion command and judging its outcome.
use vstd::prelude::*;

verus! {

/// How the command line reaches the platform's command interpreter: `sh -c`
/// on Unix-like systems, `cmd /C` on Windows.
pub open spec fn invocation_spec(command_line: Seq<char>, windows: bool) -> (Seq<char>, Seq<Seq<char>>) {
    if windows {
        ("cmd"@, seq!["/C"@, command_line])
    } else {
        ("sh"@, seq!["-c"@, command_line])
    }
}

/// The program and arguments that run `command_line` through the command
/// interpreter.
pub fn shell_invocation(command_line: &str, windows: bool) -> (r: (String, Vec<String>))
    ensures
        (r.0@, r.1@.map_values(|a: String| a@)) == invocation_spec(command_line@, windows),
{
    let (program, flag) = if windows {
        (String::from_str("cmd"), String::from_str("/C"))
    } else {
        (String::from_str("sh"), String::from_str("-c"))
    };
    let mut args: Vec<String> = Vec::new();
    args.push(flag);
    args.push(String::from_str(command_line));
    assert(args@.map_values(|a: String| a@) =~= invocation_spec(command_line@, windows).1);
    (program, args)
}

/// What became of the completion command.
pub enum CommandOutcome {
    /// The command could not be started.
    SpawnFailed(String),
    /// The command ran to its end.
    Exited { success: bool, stdout: String, stderr: String },
}

impl CommandOutcome {
    pub open spec fn failed(&self) -> bool {
        match self {
            CommandOutcome::SpawnFailed(_) => true,
            CommandOutcome::Exited { success, .. } => !*success,
        }
    }
}

/// Whether a failed completion command fails the countdown's own exit status.
#[derive(Debug, Clone, Copy, PartialEq, Eq, Structural)]
pub enum FailurePolicy {
    /// Report the failure and exit with success anyway (the default).
    ReportOnly,
    /// Report the failure and exit with status 1.
    FailExit,
}

impl Default for FailurePolicy {
    fn default() -> (r: FailurePolicy)
        ensures
            r == FailurePolicy::ReportOnly,
    {
        FailurePolicy::ReportOnly
    }
}

/// The process exit status after the completion command: 0, unless the
/// command failed and the policy says that this fails the countdown.
pub fn exit_status(outcome: &CommandOutcome, policy: FailurePolicy) -> (code: i32)
    ensures
        code == (if outcome.failed() && policy == FailurePolicy::FailExit { 1i32 } else { 0i32 }),
{
    let failed = match outcome {
        CommandOutcome::SpawnFailed(_) => true,
        CommandOutcome::Exited { success, .. } => !*success,
    };
    if failed && policy == FailurePolicy::FailExit {
        1
    } else {
        0
    }
}

} // verus!
