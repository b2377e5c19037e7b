//! The one trusted boundary of the crate: launching a child process.
//!
//! Everything here hands the rest of the library plain values; the logic that
//! interprets them is verified in the crate root.

use vstd::prelude::*;
use crate::ProcessStatus;

verus! {

/// `std::io::Error` carried through as an opaque value: it is the cause kept
/// inside [`crate::ExecutionError`] when a process cannot be launched.
#[verifier::external_type_specification]
#[verifier::external_body]
pub struct ExIoError(std::io::Error);

/// Relies on `subprocess::Exec`: `cmd(cmd).args(args).join()` spawns `cmd`
/// directly through the OS process launcher with the arguments exactly as
/// given, as a discrete list and without an intervening shell, with the
/// standard streams inherited; it blocks until the child exits. A failure to
/// launch (missing binary, permission denied) comes back as `Err`. On success,
/// `ExitStatus::code` reports the exit code of a normal termination and
/// nothing for a process that died without one. Which branch comes back
/// depends on the machine, so nothing is promised of the result.
#[verifier::external_body]
pub(crate) fn spawn_and_wait(cmd: &str, args: &[&str]) -> (r: Result<ProcessStatus, std::io::Error>)
{
    match subprocess::Exec::cmd(cmd).args(args.iter().copied()).join() {
        Ok(status) => match status.code() {
            Some(c) => Ok(ProcessStatus::Exited(c as i32)),
            None => Ok(ProcessStatus::NoExitCode),
        },
        Err(e) => Err(e),
    }
}

} // verus!
