//! Utilities for managing child processes: how a command is launched and how
//! its failure is reported.

use vstd::prelude::*;
use crate::text::{push_str, from_chars, views};

verus! {

/// The program and arguments that launch `program`: on Windows through
/// `cmd /c`, so that batch files such as `npm` are found.
pub fn new_command(program: &str, windows: bool) -> (r: Vec<String>)
    ensures
        windows ==> views(r@) == seq!["cmd"@, "/c"@, program@],
        !windows ==> views(r@) == seq![program@],
{
    let mut argv: Vec<String> = Vec::new();
    if windows {
        argv.push(String::from_str("cmd"));
        argv.push(String::from_str("/c"));
    }
    argv.push(String::from_str(program));
    assert(windows ==> views(argv@) =~= seq!["cmd"@, "/c"@, program@]);
    assert(!windows ==> views(argv@) =~= seq![program@]);
    argv
}

/// Error from running Command processes
/// This captures the standard error output
#[derive(Debug)]
pub struct CommandError {
    command_name: String,
    fail_reason: String,
    /// the output printed to stderr, if any
    pub stderr: Option<String>,
}

/// What a command error displays.
pub open spec fn command_error_message(name: Seq<char>, reason: Seq<char>) -> Seq<char> {
    "failed to execute `"@ + name + "`: "@ + reason
}

impl CommandError {
    /// The name of the command that failed.
    pub closed spec fn name_of(&self) -> Seq<char> {
        self.command_name@
    }

    /// What it printed to stderr, if anything was captured.
    pub closed spec fn stderr_of(&self) -> Option<String> {
        self.stderr
    }

    /// Why it failed.
    pub closed spec fn reason_of(&self) -> Seq<char> {
        self.fail_reason@
    }

    /// The error of a command that exited unsuccessfully; `status` is how its
    /// exit status displays.
    pub fn from_status(command_name: &str, status: &str, stderr: Option<String>) -> (r: CommandError)
        ensures
            r.name_of() == command_name@,
            r.reason_of() == "exited with "@ + status@,
            r.stderr_of() == stderr,
    {
        let mut v: Vec<char> = Vec::new();
        push_str(&mut v, "exited with ");
        push_str(&mut v, status);
        CommandError { command_name: String::from_str(command_name), fail_reason: from_chars(&v), stderr }
    }

    /// The error of a command that could not be run; `err` is the I/O
    /// error's message.
    pub fn from_error(command_name: &str, err: &str) -> (r: CommandError)
        ensures
            r.name_of() == command_name@,
            r.reason_of() == err@,
            r.stderr_of() is None,
    {
        CommandError {
            command_name: String::from_str(command_name),
            fail_reason: String::from_str(err),
            stderr: None,
        }
    }

    /// What the error displays.
    pub fn to_string(&self) -> (r: String)
        ensures
            r@ == command_error_message(self.name_of(), self.reason_of()),
    {
        let mut v: Vec<char> = Vec::new();
        push_str(&mut v, "failed to execute `");
        push_str(&mut v, self.command_name.as_str());
        push_str(&mut v, "`: ");
        push_str(&mut v, self.fail_reason.as_str());
        assert(v@ =~= command_error_message(self.name_of(), self.reason_of()));
        from_chars(&v)
    }
}

/// How a launched command ended.
#[derive(Debug)]
pub struct Exit {
    /// Whether it exited successfully.
    pub success: bool,
    /// How its exit status displays.
    pub status: String,
    /// What it printed to stdout.
    pub stdout: String,
    /// What it printed to stderr.
    pub stderr: String,
}

/// Judges a run of the command `command_name`: success, or the error for a
/// failed exit (with its stderr) or for a failure to launch (`Err` with the
/// I/O error's message).
pub fn run(outcome: Result<Exit, String>, command_name: &str) -> (r: Result<(), CommandError>)
    ensures
        match outcome {
            Ok(exit) => if exit.success {
                r is Ok
            } else {
                r matches Err(e) && e.name_of() == command_name@ && e.reason_of() == "exited with "@ + exit.status@
                    && e.stderr_of() == Some(exit.stderr)
            },
            Err(msg) => r matches Err(e) && e.name_of() == command_name@ && e.reason_of() == msg@
                && e.stderr_of() is None,
        },
{
    match outcome {
        Ok(exit) => {
            if exit.success {
                Ok(())
            } else {
                Err(CommandError::from_status(command_name, exit.status.as_str(), Some(exit.stderr)))
            }
        },
        Err(e) => Err(CommandError::from_error(command_name, e.as_str())),
    }
}

/// Judges a run of the command `command_name` and gives what it printed to
/// stdout on success.
pub fn run_capture_stdout(outcome: Result<Exit, String>, command_name: &str) -> (r: Result<String, CommandError>)
    ensures
        match outcome {
            Ok(exit) => if exit.success {
                r == Ok::<String, CommandError>(exit.stdout)
            } else {
                r matches Err(e) && e.name_of() == command_name@ && e.reason_of() == "exited with "@ + exit.status@
                    && e.stderr_of() == Some(exit.stderr)
            },
            Err(msg) => r matches Err(e) && e.name_of() == command_name@ && e.reason_of() == msg@
                && e.stderr_of() is None,
        },
{
    match outcome {
        Ok(exit) => {
            if exit.success {
                Ok(exit.stdout)
            } else {
                Err(CommandError::from_status(command_name, exit.status.as_str(), Some(exit.stderr)))
            }
        },
        Err(e) => Err(CommandError::from_error(command_name, e.as_str())),
    }
}

} // verus!
