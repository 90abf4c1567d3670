//! The external CPU-quota invocation: the exact command line that moves the
//! user session to a quota state, and how its exit status is read.

use vstd::prelude::*;
use crate::coordinator::QuotaState;

verus! {

/// Why the external CPU-quota invocation failed.
#[derive(Clone, Copy, Debug, PartialEq, Eq, Structural)]
pub enum QuotaError {
    /// The external process ran but exited abnormally.
    CommandFailed,
}

/// The program that applies a CPU quota to the user session.
pub fn quota_program() -> (r: &'static str)
    ensures
        r@ == "systemctl"@,
{
    "systemctl"
}

/// The service property that commands the given quota state: the fixed
/// restricted percentage for `Limited`, the empty value (no cap) for
/// `Unrestricted`. Both are absolute values, so applying one is idempotent.
pub fn quota_property(s: QuotaState) -> (r: &'static str)
    ensures
        s is Limited ==> r@ == "CPUQuota=10%"@,
        s is Unrestricted ==> r@ == "CPUQuota="@,
{
    match s {
        QuotaState::Limited => "CPUQuota=10%",
        QuotaState::Unrestricted => "CPUQuota=",
    }
}

/// The argument list handed to the quota program to move the user session
/// to the given quota state.
pub fn quota_command_args(s: QuotaState) -> (r: Vec<&'static str>)
    ensures
        r@.len() == 4,
        r@[0]@ == "set-property"@,
        r@[1]@ == "--runtime"@,
        r@[2]@ == "user-1000.slice"@,
        s is Limited ==> r@[3]@ == "CPUQuota=10%"@,
        s is Unrestricted ==> r@[3]@ == "CPUQuota="@,
{
    let mut args: Vec<&'static str> = Vec::new();
    args.push("set-property");
    args.push("--runtime");
    args.push("user-1000.slice");
    args.push(quota_property(s));
    args
}

/// Reads the exit of the external quota process: success exactly when the
/// process reported a normal exit, the command-failed error otherwise.
pub fn quota_outcome(exit_ok: bool) -> (r: Result<(), QuotaError>)
    ensures
        r is Ok <==> exit_ok,
        !exit_ok ==> r == Result::<(), QuotaError>::Err(QuotaError::CommandFailed),
{
    if exit_ok {
        Ok(())
    } else {
        Err(QuotaError::CommandFailed)
    }
}

} // verus!
