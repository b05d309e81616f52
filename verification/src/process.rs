//! What the run of an external command gave, and what follows from it: for
//! a command whose output is captured, for the build and for the runtime.

use vstd::prelude::*;
use vstd::utf8::{decode_utf8, valid_utf8};
use crate::failure::{failure, failure_about, outcome, ErrorKind, Failure, FailureModel};
use crate::reading::string_from_utf8;
use crate::text::{command_line, command_line_of, render_status, signed_decimal, views};

verus! {

/// The build tool.
pub const BUILD_TOOL: &'static str = "cargo";

/// How an external command ended: its exit status, or none where it ended
/// without one, and what it wrote where that was captured.
#[derive(Clone, Debug, PartialEq, Eq)]
pub struct ProcessResult {
    pub status: Option<i32>,
    pub stdout: Vec<u8>,
    pub stderr: Vec<u8>,
}

/// What an attempt to run an external command gave.
#[derive(Clone, Debug, PartialEq, Eq)]
pub enum ProcessEvent {
    /// The command could not be started.
    SpawnFailed,
    /// The command was started and its input could not be written.
    WriteFailed,
    /// The command was started and could not be awaited.
    WaitFailed,
    /// The command ran to its end.
    Exited(ProcessResult),
}

/// The command ended with exit status zero.
pub open spec fn succeeded(result: ProcessResult) -> bool {
    result.status == Some(0i32)
}

/// Whether the command ended with exit status zero.
pub fn has_succeeded(result: &ProcessResult) -> (r: bool)
    ensures
        r == succeeded(*result),
{
    match result.status {
        Some(code) => code == 0,
        None => false,
    }
}

/// The text that is shown for captured output: what the bytes decode to, or
/// `fallback` where they are no valid UTF-8.
pub open spec fn shown(bytes: Seq<u8>, fallback: Seq<char>) -> Seq<char> {
    if valid_utf8(bytes) {
        decode_utf8(bytes)
    } else {
        fallback
    }
}

/// The message for a command that could not be run.
pub open spec fn not_executed_message(command: Seq<char>) -> Seq<char> {
    "Executing command "@ + command
}

/// The message for a command that ended in failure: what it wrote to its
/// two streams, each on a line of its own, and the line that names it.
pub open spec fn command_failed_message(line: Seq<char>, result: ProcessResult) -> Seq<char> {
    shown(result.stdout@, "Decoding stdout failed."@) + seq!['\n'] + shown(
        result.stderr@,
        "Decoding stderr failed."@,
    ) + seq!['\n'] + "Error occurred in "@ + line
}

/// The message for standard output that is no valid UTF-8.
pub open spec fn stdout_undecodable_message(line: Seq<char>) -> Seq<char> {
    "Decoding stdout failed in "@ + line
}

/// The message for standard error that is no valid UTF-8.
pub open spec fn stderr_undecodable_message(line: Seq<char>) -> Seq<char> {
    "Decoding stderr failed in "@ + line
}

/// What running `command` with `args` and capturing its output gives: the
/// two streams as text where it ended with status zero and both are valid
/// UTF-8, and a process error otherwise.
pub open spec fn command_output(command: Seq<char>, args: Seq<Seq<char>>, event: ProcessEvent) -> Result<
    (Seq<char>, Seq<char>),
    FailureModel,
> {
    let line = command_line_of(command, args);
    match event {
        ProcessEvent::Exited(result) => {
            if !succeeded(result) {
                Err(failure(ErrorKind::Process, command_failed_message(line, result)))
            } else if !valid_utf8(result.stdout@) {
                Err(failure(ErrorKind::Process, stdout_undecodable_message(line)))
            } else if !valid_utf8(result.stderr@) {
                Err(failure(ErrorKind::Process, stderr_undecodable_message(line)))
            } else {
                Ok((decode_utf8(result.stdout@), decode_utf8(result.stderr@)))
            }
        },
        _ => Err(failure(ErrorKind::Process, not_executed_message(command))),
    }
}

fn shown_text(bytes: Vec<u8>, fallback: &str) -> (text: String)
    ensures
        text@ == shown(bytes@, fallback@),
{
    match string_from_utf8(bytes) {
        Some(text) => text,
        None => fallback.to_owned(),
    }
}

/// Judges the run of `command` with `args`, whose output was captured, and
/// gives what it wrote to standard output and to standard error.
pub fn exec_command(command: &str, args: &Vec<String>, event: ProcessEvent) -> (r: Result<
    (String, String),
    Failure,
>)
    ensures
        outcome(r) == command_output(command@, views(args@), event),
{
    let result = match event {
        ProcessEvent::Exited(result) => result,
        _ => {
            return Err(failure_about(ErrorKind::Process, "Executing command ", command));
        },
    };
    let line = command_line(command, args);
    if !has_succeeded(&result) {
        let ghost ended = result;
        let mut message = shown_text(result.stdout, "Decoding stdout failed.");
        message.append("\n");
        let errors = shown_text(result.stderr, "Decoding stderr failed.");
        message.append(errors.as_str());
        message.append("\n");
        message.append("Error occurred in ");
        message.append(line.as_str());
        proof {
            reveal_strlit("\n");
            assert("\n"@ == seq!['\n']);
            assert(message@ =~= command_failed_message(line@, ended));
        }
        return Err(Failure::new(ErrorKind::Process, message));
    }
    let output = match string_from_utf8(result.stdout) {
        Some(text) => text,
        None => {
            return Err(
                failure_about(ErrorKind::Process, "Decoding stdout failed in ", line.as_str()),
            );
        },
    };
    let errors = match string_from_utf8(result.stderr) {
        Some(text) => text,
        None => {
            return Err(
                failure_about(ErrorKind::Process, "Decoding stderr failed in ", line.as_str()),
            );
        },
    };
    Ok((output, errors))
}

/// Judges a run of the build tool whose output was captured.
pub fn exec_cargo(args: &Vec<String>, event: ProcessEvent) -> (r: Result<(String, String), Failure>)
    ensures
        outcome(r) == command_output(BUILD_TOOL@, views(args@), event),
{
    exec_command(BUILD_TOOL, args, event)
}

/// The arguments that make the build tool compile the tests for `target`
/// without running them.
pub open spec fn build_arguments_of(target: Seq<char>) -> Seq<Seq<char>> {
    seq!["test"@, "--target"@, target, "--no-run"@]
}

/// The arguments of the build of `target`.
pub fn build_arguments(target: &str) -> (args: Vec<String>)
    ensures
        views(args@) == build_arguments_of(target@),
{
    let mut args: Vec<String> = Vec::new();
    args.push("test".to_owned());
    args.push("--target".to_owned());
    args.push(target.to_owned());
    args.push("--no-run".to_owned());
    assert(views(args@) =~= build_arguments_of(target@));
    args
}

/// The line that names the build of `target`.
pub open spec fn build_line(target: Seq<char>) -> Seq<char> {
    command_line_of(BUILD_TOOL@, build_arguments_of(target))
}

/// The message for a build tool that could not be started.
pub open spec fn build_not_started_message() -> Seq<char> {
    "Cannot execute "@ + BUILD_TOOL@
}

/// The message for a build that could not be awaited.
pub open spec fn build_not_finished_message(target: Seq<char>) -> Seq<char> {
    "Command "@ + build_line(target) + " did not finish properly"@
}

/// The message for a build that ended with the status `code`.
pub open spec fn build_failed_message(target: Seq<char>, code: i32) -> Seq<char> {
    "Command "@ + build_line(target) + " exited with status "@ + signed_decimal(code as int)
}

/// The message for a build that ended without an exit status.
pub open spec fn build_killed_message(target: Seq<char>) -> Seq<char> {
    "Command "@ + build_line(target) + " ended without an exit status"@
}

/// What the build of `target` gives: success where the build tool ended with
/// status zero, a build failure that names the command line and the status
/// where it ended otherwise, and a process error where it could not be run to
/// its end.
pub open spec fn built(target: Seq<char>, event: ProcessEvent) -> Result<(), FailureModel> {
    match event {
        ProcessEvent::SpawnFailed => Err(failure(ErrorKind::Process, build_not_started_message())),
        ProcessEvent::Exited(result) => match result.status {
            Some(code) => if code == 0 {
                Ok(())
            } else {
                Err(failure(ErrorKind::Build, build_failed_message(target, code)))
            },
            None => Err(failure(ErrorKind::Build, build_killed_message(target))),
        },
        _ => Err(failure(ErrorKind::Process, build_not_finished_message(target))),
    }
}

/// Judges the build of `target`: the run goes on only where the build tool
/// ended with status zero.
pub fn build_outcome(target: &str, event: ProcessEvent) -> (r: Result<(), Failure>)
    ensures
        outcome(r) == built(target@, event),
{
    if let ProcessEvent::SpawnFailed = event {
        return Err(failure_about(ErrorKind::Process, "Cannot execute ", BUILD_TOOL));
    }
    let args = build_arguments(target);
    let line = command_line(BUILD_TOOL, &args);
    let mut message = "Command ".to_owned();
    message.append(line.as_str());
    match event {
        ProcessEvent::Exited(result) => match result.status {
            Some(code) => {
                if code == 0 {
                    return Ok(());
                }
                message.append(" exited with status ");
                let status = render_status(code);
                message.append(status.as_str());
                Err(Failure::new(ErrorKind::Build, message))
            },
            None => {
                message.append(" ended without an exit status");
                Err(Failure::new(ErrorKind::Build, message))
            },
        },
        _ => {
            message.append(" did not finish properly");
            Err(Failure::new(ErrorKind::Process, message))
        },
    }
}

/// The message for a runtime that could not be started.
pub open spec fn runtime_not_started_message(runtime: Seq<char>) -> Seq<char> {
    "Cannot execute "@ + runtime
}

/// The message for a script that could not be written to the runtime.
pub open spec fn script_not_written_message() -> Seq<char> {
    "Cannot execute the test script from stdin"@
}

/// The message for a runtime that did not come to an end with a status.
pub open spec fn runtime_not_finished_message(runtime: Seq<char>) -> Seq<char> {
    runtime + " did not finish properly"@
}

/// What running the script gives: the exit status of the runtime where it
/// ended with one, and a process error otherwise.
pub open spec fn ran(runtime: Seq<char>, event: ProcessEvent) -> Result<i32, FailureModel> {
    match event {
        ProcessEvent::SpawnFailed => Err(
            failure(ErrorKind::Process, runtime_not_started_message(runtime)),
        ),
        ProcessEvent::WriteFailed => Err(failure(ErrorKind::Process, script_not_written_message())),
        ProcessEvent::WaitFailed => Err(
            failure(ErrorKind::Process, runtime_not_finished_message(runtime)),
        ),
        ProcessEvent::Exited(result) => match result.status {
            Some(code) => Ok(code),
            None => Err(failure(ErrorKind::Process, runtime_not_finished_message(runtime))),
        },
    }
}

/// Judges the run of the script in the runtime at `nodepath`, and gives the
/// exit status that the runtime ended with.
pub fn exec_nodejs(nodepath: &str, event: ProcessEvent) -> (r: Result<i32, Failure>)
    ensures
        outcome(r) == ran(nodepath@, event),
{
    match event {
        ProcessEvent::SpawnFailed => Err(
            failure_about(ErrorKind::Process, "Cannot execute ", nodepath),
        ),
        ProcessEvent::WriteFailed => Err(
            Failure::new(
                ErrorKind::Process,
                "Cannot execute the test script from stdin".to_owned(),
            ),
        ),
        ProcessEvent::Exited(ProcessResult { status: Some(code), .. }) => Ok(code),
        _ => Err(failure_about(ErrorKind::Process, nodepath, " did not finish properly")),
    }
}

} // verus!
