//! Renaming a file across file systems: a plain rename works inside one file
//! system; when the OS refuses it with the cross-device error, the fallback
//! is copy-then-delete (not atomic — a crash in between leaves both files).
//! This module decides which way to go; the caller performs the calls.

use vstd::prelude::*;

verus! {

/// The raw OS error number for a cross-device link on Linux.
pub const CROSS_DEVICE_ERRNO: i32 = 18;

/// Relies on libc::EXDEV: the cross-device-link error number, which is 18 on
/// Linux, the platform this library is built for.
#[verifier::external_body]
fn exdev_errno() -> (r: i32)
    ensures
        r == CROSS_DEVICE_ERRNO,
{
    libc::EXDEV
}

/// How the first rename attempt went: it succeeded, it failed with a raw OS
/// error number, or it failed without one.
#[derive(Clone, Copy, PartialEq, Eq, Debug)]
pub enum RenameOutcome {
    Renamed,
    FailedOs(i32),
    FailedOther,
}

/// What to do after the first rename attempt.
#[derive(Clone, Copy, PartialEq, Eq, Debug)]
pub enum RenamePlan {
    /// The rename succeeded; nothing is left to do.
    Done,
    /// The rename crossed a file system boundary: copy the file to the
    /// destination, then delete the original.
    CopyThenDelete,
    /// Report the rename's own error to the caller unchanged.
    Fail,
}

/// What `rename_plan` decides for each outcome.
pub open spec fn rename_plan_spec(first: RenameOutcome) -> RenamePlan {
    match first {
        RenameOutcome::Renamed => RenamePlan::Done,
        RenameOutcome::FailedOs(code) => if code == CROSS_DEVICE_ERRNO {
            RenamePlan::CopyThenDelete
        } else {
            RenamePlan::Fail
        },
        RenameOutcome::FailedOther => RenamePlan::Fail,
    }
}

/// Decide how to carry on after the first rename attempt: success is done, a
/// cross-device failure falls back to copy-then-delete, and every other
/// failure is the caller's to report.
pub fn rename_plan(first: RenameOutcome) -> (r: RenamePlan)
    ensures
        r == rename_plan_spec(first),
{
    match first {
        RenameOutcome::Renamed => RenamePlan::Done,
        RenameOutcome::FailedOs(code) => {
            if code == exdev_errno() {
                RenamePlan::CopyThenDelete
            } else {
                RenamePlan::Fail
            }
        },
        RenameOutcome::FailedOther => RenamePlan::Fail,
    }
}

} // verus!
