//! How the command is invoked and what is printed around a run.

use crate::elapsed::{
    decimal, decimal_string, elapsed_text, round_to_seconds, rounded_seconds, time_to_str,
};
use crate::errors::{error_name, WatchError};
use crate::shell::{inline_flag_of, shell_name, Shell};
use vstd::prelude::*;
use vstd::string::StringExecFns;

verus! {

/// One invocation of a shell: the program, the flag that introduces an inline
/// command line, the command line, and the directory to run in.
pub struct Invocation {
    pub program: String,
    pub flag: String,
    pub command: String,
    pub dir: String,
}

/// How the spawned command ended.
#[derive(Debug, Clone, Copy, PartialEq, Eq, Structural)]
pub enum ExitStatus {
    Success,
    Failure,
}

/// What one run of the command came to.
#[derive(Debug, Clone, Copy, PartialEq, Eq, Structural)]
pub struct ExecutionResult {
    /// When the run began, in milliseconds on the watcher's clock.
    pub started_at: u64,
    /// Wall time of the run, rounded to whole seconds.
    pub elapsed_seconds: u64,
    /// Whether the command itself reported success.
    pub exit_status: ExitStatus,
}

/// The time between two readings of the clock, in milliseconds; nothing where
/// the clock went back.
pub open spec fn span_millis(started_at: nat, ended_at: nat) -> nat {
    if ended_at >= started_at {
        (ended_at - started_at) as nat
    } else {
        0
    }
}

impl ExecutionResult {
    /// The result of a run that began and ended at the given times, in
    /// milliseconds on the watcher's clock: the elapsed time is their
    /// difference rounded to the second.
    pub fn measured(started_at: u64, ended_at: u64, exit_status: ExitStatus) -> (r:
        ExecutionResult)
        ensures
            r.started_at == started_at,
            r.elapsed_seconds as nat == rounded_seconds(
                span_millis(started_at as nat, ended_at as nat),
            ),
            r.exit_status == exit_status,
    {
        let span: u64 = if ended_at >= started_at {
            ended_at - started_at
        } else {
            0
        };
        ExecutionResult { started_at, elapsed_seconds: round_to_seconds(span), exit_status }
    }
}

/// The line printed after an attempt to run the command: the completion
/// banner for a run that took place, whatever its exit status, and a failure
/// line where the shell could not be spawned.
pub open spec fn report_text(outcome: Option<ExecutionResult>) -> Seq<char> {
    match outcome {
        Some(result) => completion_text(result.elapsed_seconds as nat),
        None => error_text(error_name(WatchError::CommandSpawn)),
    }
}

/// The line printed before a run.
pub open spec fn running_text(shell: Shell, cmd: Seq<char>) -> Seq<char> {
    "[Running("@ + shell_name(shell) + "): "@ + cmd + "]"@
}

/// The line printed after a run that took `secs` whole seconds.
pub open spec fn completion_text(secs: nat) -> Seq<char> {
    "[Command was successful "@ + elapsed_text(secs) + "]"@
}

/// The line printed when watching begins.
pub open spec fn watching_text(count: Seq<char>, pattern: Seq<char>) -> Seq<char> {
    "[watching("@ + count + "): "@ + pattern + "]"@
}

/// The line printed for a failure.
pub open spec fn error_text(details: Seq<char>) -> Seq<char> {
    "Error "@ + details
}

/// How the number of watched paths is set off: small counts calmly, large
/// ones as a warning.
#[derive(Debug, Clone, Copy, PartialEq, Eq, Structural)]
pub enum CountTone {
    Green,
    Yellow,
    Red,
}

/// Below 1000 paths green, below 5000 yellow, red from there on.
pub open spec fn tone_of(count: nat) -> CountTone {
    if count < 1000 {
        CountTone::Green
    } else if count < 5000 {
        CountTone::Yellow
    } else {
        CountTone::Red
    }
}

/// The invocation that runs `cmd` under `shell` in the directory `cwd`: the
/// shell's own name as the program, its inline flag, the command line
/// unchanged, and `cwd` as the directory.
pub fn invocation(shell: Shell, cmd: &str, cwd: &str) -> (r: Invocation)
    ensures
        r.program@ == shell_name(shell),
        r.flag@ == inline_flag_of(shell),
        r.command@ == cmd@,
        r.dir@ == cwd@,
{
    Invocation {
        program: shell.to_string(),
        flag: String::from_str(shell.inline_flag()),
        command: String::from_str(cmd),
        dir: String::from_str(cwd),
    }
}

/// The banner that announces a run.
pub fn running_banner(shell: Shell, cmd: &str) -> (r: String)
    ensures
        r@ == running_text(shell, cmd@),
{
    let mut r = String::from_str("[Running(");
    r.append(shell.name());
    r.append("): ");
    r.append(cmd);
    r.append("]");
    r
}

/// The banner that reports a finished run and how long it took.
pub fn completion_banner(elapsed_secs: u64) -> (r: String)
    ensures
        r@ == completion_text(elapsed_secs as nat),
{
    let mut r = String::from_str("[Command was successful ");
    r.append(time_to_str(elapsed_secs).as_str());
    r.append("]");
    r
}

/// The line that reports an attempt to run the command. `None` stands for a
/// shell that could not be spawned. The exit status of a command that ran does
/// not change the report.
pub fn report_run(outcome: Option<ExecutionResult>) -> (r: String)
    ensures
        r@ == report_text(outcome),
{
    match outcome {
        Some(result) => completion_banner(result.elapsed_seconds),
        None => error_line(WatchError::CommandSpawn.name()),
    }
}

/// The banner that precedes the run made before watching begins.
pub fn initial_banner() -> (r: String)
    ensures
        r@ == "[initial run]"@,
{
    String::from_str("[initial run]")
}

/// The number of watched paths as text.
pub fn count_label(count: usize) -> (r: String)
    ensures
        r@ == decimal(count as nat),
{
    decimal_string(count as u64)
}

/// The tone in which the number of watched paths is shown.
pub fn count_tone(count: usize) -> (r: CountTone)
    ensures
        r == tone_of(count as nat),
{
    if count < 1000 {
        CountTone::Green
    } else if count < 5000 {
        CountTone::Yellow
    } else {
        CountTone::Red
    }
}

/// The banner that announces the watch, around an already rendered count.
pub fn watching_banner(count: &str, pattern: &str) -> (r: String)
    ensures
        r@ == watching_text(count@, pattern@),
{
    let mut r = String::from_str("[watching(");
    r.append(count);
    r.append("): ");
    r.append(pattern);
    r.append("]");
    r
}

/// The line that reports a failure.
pub fn error_line(details: &str) -> (r: String)
    ensures
        r@ == error_text(details@),
{
    let mut r = String::from_str("Error ");
    r.append(details);
    r
}

} // verus!
