use vstd::prelude::*;

verus! {

/// The platform shell that runs an app's command line.
pub const SHELL: &'static str = "cmd";

/// The shell's switch that runs the command line that follows it.
pub const SHELL_RUN_SWITCH: &'static str = "/C";

/// What became of a launch.
#[derive(Debug, PartialEq, Eq)]
pub enum LaunchResult {
    /// The process was created; nobody waits for it.
    Spawned,
    /// The system refused to create the process, for this reason.
    Failed(String),
}

/// A program and its arguments.
pub struct Invocation {
    pub program: String,
    pub args: Vec<String>,
}

/// The shell invocation that runs `command`: the command line goes whole, unmodified, as
/// the argument after the shell's run switch.
pub fn shell_invocation(command: &str) -> (r: Invocation)
    ensures
        r.program@ == SHELL@,
        r.args@.len() == 2,
        r.args@[0]@ == SHELL_RUN_SWITCH@,
        r.args@[1]@ == command@,
{
    let mut args: Vec<String> = Vec::new();
    args.push(SHELL_RUN_SWITCH.to_owned());
    args.push(command.to_owned());
    Invocation { program: SHELL.to_owned(), args }
}

} // verus!
