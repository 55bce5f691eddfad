//! The best-effort adjustment of the open-file-descriptor limit.
//!
//! Before building the client the bridge tries to raise the process's
//! soft limit on open file descriptors, since the client may hold many
//! sockets open. The step is an optimization: whatever it returns, the
//! start sequence goes on (see `start::is_best_effort`), and a failure is
//! only ever logged by the shell, never recorded in the error channel.

use vstd::prelude::*;

verus! {

/// The number of open file descriptors the bridge asks for.
pub const NOFILE_TARGET: u64 = 16384;

/// Relies on `rlimit::increase_nofile_limit`: raises the process's soft
/// open-file limit towards `target` (never above the hard limit) and
/// returns the resulting soft limit. The result depends on the process's
/// limits at the time of the call, so nothing more is promised of it.
#[verifier::external_body]
fn increase_nofile_limit(target: u64) -> (outcome: Result<u64, String>)
{
    match rlimit::increase_nofile_limit(target) {
        Ok(limit) => Ok(limit),
        Err(error) => Err(error.to_string()),
    }
}

/// Tries to raise the soft open-file limit towards `target`, returning the
/// resulting soft limit or the text of the failure. Advisory only: the
/// caller may log the result but must not let it decide anything.
pub fn raise_file_limit(target: u64) -> (outcome: Result<u64, String>) {
    increase_nofile_limit(target)
}

} // verus!
