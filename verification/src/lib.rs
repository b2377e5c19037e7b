//! Running one external command behind a one-method capability interface.
//!
//! `Shell` holds a command name and its argument list; calling [`Executor::run`]
//! launches that program once through the operating system's process launcher,
//! waits for it, and reports its exit code. Three entry points take the
//! capability in three ways (generic parameter, borrowed reference, owned box)
//! and behave identically: each simply forwards to `run`.

use vstd::prelude::*;

mod launch;

verus! {

/// The only error this library reports: the process could not be launched at
/// all (missing binary, permission denied, resource exhaustion). The
/// launcher's own error is kept as the cause; nothing further is read from
/// it. A process that launched and then died abnormally is not an error: it
/// is the [`ProcessStatus::NoExitCode`] outcome.
#[derive(Debug)]
pub struct ExecutionError {
    cause: std::io::Error,
}

impl ExecutionError {
    /// The underlying launcher error.
    pub fn cause(&self) -> &std::io::Error {
        &self.cause
    }
}

/// What the operating system reported of a finished child process: the exit
/// code when it terminated normally, or no code at all (on Unix, a process
/// killed by a signal dies without one).
#[derive(Clone, Copy, Debug, PartialEq, Eq, Structural)]
pub enum ProcessStatus {
    Exited(i32),
    NoExitCode,
}

/// The exit-code outcome that a status stands for: present exactly when the
/// process terminated normally.
pub open spec fn spec_exit_code(s: ProcessStatus) -> Option<i32> {
    match s {
        ProcessStatus::Exited(c) => Some(c),
        ProcessStatus::NoExitCode => None,
    }
}

/// Turns a reported status into the exit-code outcome handed to callers.
pub fn exit_code(s: &ProcessStatus) -> (r: Option<i32>)
    ensures
        r == spec_exit_code(*s),
{
    match s {
        ProcessStatus::Exited(c) => Some(*c),
        ProcessStatus::NoExitCode => None,
    }
}

/// The capability interface: one operation, `run`, that launches whatever the
/// implementer stands for and reports the outcome. Each implementer says in
/// `run_post` what it guarantees of that outcome, and `run` promises exactly
/// that.
pub trait Executor {
    /// What this implementer guarantees of a result of `run`.
    spec fn run_post(&self, r: Result<Option<i32>, ExecutionError>) -> bool;

    /// Launches once, blocks until done, and reports the outcome:
    /// `Ok(Some(code))` for a normal exit, `Ok(None)` for a process that died
    /// without an exit code, `Err(..)` when nothing could be launched. Takes
    /// `&self`, so repeated calls are permitted and leave the value unchanged.
    fn run(&self) -> (r: Result<Option<i32>, ExecutionError>)
        ensures
            self.run_post(r),
    ;
}

/// A command name with an ordered argument list, both borrowed from the
/// caller and immutable after construction. The sole implementer of
/// [`Executor`]: its `run` hands the name and the arguments verbatim to the
/// OS process launcher.
pub struct Shell<'a, 'b> {
    cmd: &'a str,
    args: &'b [&'a str],
}

impl<'a, 'b> Shell<'a, 'b> {
    /// The command name, as a sequence of characters.
    pub closed spec fn command_view(&self) -> Seq<char> {
        self.cmd@
    }

    /// The argument list, each argument as a sequence of characters.
    pub closed spec fn args_view(&self) -> Seq<Seq<char>> {
        self.args@.map_values(|a: &str| a@)
    }

    /// Stores the two references as given: no validation, no copying.
    pub fn new(cmd: &'a str, args: &'b [&'a str]) -> (r: Self)
        ensures
            r.command_view() == cmd@,
            r.args_view() == args@.map_values(|a: &str| a@),
    {
        Self { cmd, args }
    }
}

impl<'a, 'b> Executor for Shell<'a, 'b> {
    /// Launching is up to the operating system, so no branch is promised;
    /// but any exit-code outcome is the reading of some reported status.
    open spec fn run_post(&self, r: Result<Option<i32>, ExecutionError>) -> bool {
        r matches Ok(outcome) ==> exists|s: ProcessStatus| outcome == #[trigger] spec_exit_code(s)
    }

    fn run(&self) -> (r: Result<Option<i32>, ExecutionError>)
        ensures
            self.run_post(r),
    {
        match crate::launch::spawn_and_wait(self.cmd, self.args) {
            Ok(status) => Ok(exit_code(&status)),
            Err(e) => Err(ExecutionError { cause: e }),
        }
    }
}

/// Entry point taking the capability as a compile-time generic parameter.
/// Forwards to `run` and returns its result unchanged.
pub fn execute_generics<E: Executor>(cmd: &E) -> (r: Result<Option<i32>, ExecutionError>)
    ensures
        cmd.run_post(r),
{
    cmd.run()
}

/// Entry point taking the capability by borrowed reference; the caller keeps
/// ownership. Forwards to `run` and returns its result unchanged.
pub fn execute_trait_object<E: Executor>(cmd: &E) -> (r: Result<Option<i32>, ExecutionError>)
    ensures
        cmd.run_post(r),
{
    cmd.run()
}

/// Entry point taking the capability as an owned, heap-allocated value, whose
/// allocation ends after the call. Forwards to `run` and returns its result
/// unchanged.
pub fn execute_boxed_trait_object<E: Executor>(cmd: Box<E>) -> (r: Result<Option<i32>, ExecutionError>)
    ensures
        cmd.run_post(r),
{
    cmd.run()
}

} // verus!
