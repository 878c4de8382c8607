//! Sandboxed execution of external commands: the allowlist check that comes
//! before a process may be spawned, and the reading of how the process ended.
use crate::scope::views;
use crate::text::same_text;
use vstd::prelude::*;

verus! {

/// Why a tool run failed.
#[derive(Clone, Debug)]
pub enum ToolError {
    /// The command is not in the allowlist of the adapter that asked for it.
    CommandNotAllowed(String),
    /// The process could not be started.
    SpawnFailure(String),
    /// The process exited unsuccessfully; carries its standard error.
    ProcessFailure(String),
    /// The process ran past its time budget and was killed.
    Timeout,
    /// The tool's output was not in the expected format.
    ParseFailure(String),
    /// The tool has no working adapter.
    ToolNotSupported(String),
}

/// A command cleared to run: a program of its allowlist, its argument
/// vector (never passed through a shell) and its time budget in seconds.
#[derive(Debug)]
pub struct CommandPlan {
    program: String,
    args: Vec<String>,
    allowlist: Vec<String>,
    timeout_secs: u64,
}

impl CommandPlan {
    pub closed spec fn program_spec(&self) -> Seq<char> {
        self.program@
    }

    pub closed spec fn args_spec(&self) -> Seq<Seq<char>> {
        views(self.args@)
    }

    pub closed spec fn allowlist_spec(&self) -> Seq<Seq<char>> {
        views(self.allowlist@)
    }

    pub closed spec fn timeout_spec(&self) -> u64 {
        self.timeout_secs
    }

    /// The program is on the plan's allowlist; no other plan can be built.
    pub open spec fn wf(&self) -> bool {
        self.allowlist_spec().contains(self.program_spec())
    }

    pub fn program(&self) -> (r: &str)
        ensures
            r@ == self.program_spec(),
    {
        self.program.as_str()
    }

    pub fn args(&self) -> (r: &Vec<String>)
        ensures
            views(r@) == self.args_spec(),
    {
        &self.args
    }

    pub fn allowlist(&self) -> (r: &Vec<String>)
        ensures
            views(r@) == self.allowlist_spec(),
    {
        &self.allowlist
    }

    pub fn timeout_secs(&self) -> (r: u64)
        ensures
            r == self.timeout_spec(),
    {
        self.timeout_secs
    }
}

/// Clears `cmd` to run with `args` for at most `timeout_secs` seconds, if
/// and only if it is a member of `allowed`; otherwise fails with
/// `CommandNotAllowed`, whatever the arguments, and no plan exists to spawn.
pub fn plan_command(cmd: &str, args: Vec<String>, allowed: Vec<String>, timeout_secs: u64) -> (r: Result<CommandPlan, ToolError>)
    ensures
        r is Ok <==> views(allowed@).contains(cmd@),
        r matches Ok(p) ==> p.wf() && p.program_spec() == cmd@ && p.args_spec() == views(args@)
            && p.allowlist_spec() == views(allowed@) && p.timeout_spec() == timeout_secs,
        r matches Err(e) ==> e matches ToolError::CommandNotAllowed(c) && c@ == cmd@,
{
    let ghost list = views(allowed@);
    let mut i: usize = 0;
    while i < allowed.len()
        invariant
            i <= allowed.len(),
            list == views(allowed@),
            forall|j: int| 0 <= j < i ==> #[trigger] list[j] != cmd@,
        decreases allowed.len() - i,
    {
        if same_text(allowed[i].as_str(), cmd) {
            assert(list[i as int] == cmd@);
            let program = String::from_str(cmd);
            return Ok(CommandPlan { program, args, allowlist: allowed, timeout_secs });
        }
        i = i + 1;
    }
    Err(ToolError::CommandNotAllowed(String::from_str(cmd)))
}

/// How a spawned process ended, as the process runner observed it. The
/// output streams are the captured bytes read as text.
#[derive(Clone, Debug)]
pub enum ProcessOutcome {
    Exited { success: bool, stdout: String, stderr: String },
    /// The time budget ran out; the process was killed and reaped.
    TimedOut,
    SpawnFailed(String),
}

/// The result of a run: its standard output when the process exited
/// successfully; `ProcessFailure` with its standard error when it exited
/// otherwise; `Timeout` or `SpawnFailure` when it did not finish or start.
pub fn finish_command(outcome: ProcessOutcome) -> (r: Result<String, ToolError>)
    ensures
        match outcome {
            ProcessOutcome::Exited { success, stdout, stderr } => if success {
                r matches Ok(s) && s@ == stdout@
            } else {
                r matches Err(ToolError::ProcessFailure(e)) && e@ == stderr@
            },
            ProcessOutcome::TimedOut => r matches Err(ToolError::Timeout),
            ProcessOutcome::SpawnFailed(m) => r matches Err(ToolError::SpawnFailure(e)) && e@ == m@,
        },
{
    match outcome {
        ProcessOutcome::Exited { success, stdout, stderr } => {
            if success {
                Ok(stdout)
            } else {
                Err(ToolError::ProcessFailure(stderr))
            }
        },
        ProcessOutcome::TimedOut => Err(ToolError::Timeout),
        ProcessOutcome::SpawnFailed(m) => Err(ToolError::SpawnFailure(m)),
    }
}

} // verus!
