//! Verified core of a live-system image build pipeline.
//!
//! The pipeline runs external tools (rsync, mksquashfs, xorriso, dd, the
//! distro package managers) through a single shell-command boundary.  This
//! crate holds everything that can be stated and proved: the persisted
//! build configuration and its flat `key=value` codec, distribution
//! detection and per-distribution path tables, the stage gates that decide
//! whether a pipeline stage may run, and the construction of every command
//! line handed to the boundary.  The surrounding binary performs the actual
//! process spawning, terminal handling and file I/O.

pub mod cmi;
pub mod codec;
pub mod config;
pub mod distro;
pub mod gates;
pub mod host;
pub mod imgtool;
pub mod installer;
pub mod isotool;
pub mod menus;
pub mod usb;
pub mod sizes;
pub mod strutil;

use vstd::prelude::*;

verus! {

/// Policy applied when a command run through the shell boundary fails.
#[derive(Clone, Copy, PartialEq, Eq, Structural, Debug)]
pub enum OnFailure {
    /// A failure ends the whole pipeline.
    Abort,
    /// A failure is reported and the pipeline proceeds.
    Continue,
}

/// What follows one command's exit status under the stage's policy.
#[derive(Clone, Copy, PartialEq, Eq, Structural, Debug)]
pub enum CommandOutcome {
    /// Zero exit status: the stage succeeded.
    Success,
    /// Non-zero exit status under the `Continue` policy: reported, and
    /// the pipeline proceeds.
    FailedContinue,
    /// Non-zero exit status under the `Abort` policy: the pipeline ends
    /// at once, with the failing command echoed.
    FailedAbort,
}

/// Decide what one command's exit means: success stands on its own, a
/// failure is fatal exactly under the `Abort` policy.
pub fn command_outcome(policy: OnFailure, exit_ok: bool) -> (r: CommandOutcome)
    ensures
        exit_ok ==> r == CommandOutcome::Success,
        !exit_ok && policy == OnFailure::Continue ==> r == CommandOutcome::FailedContinue,
        !exit_ok && policy == OnFailure::Abort ==> r == CommandOutcome::FailedAbort,
{
    if exit_ok {
        CommandOutcome::Success
    } else if matches!(policy, OnFailure::Continue) {
        CommandOutcome::FailedContinue
    } else {
        CommandOutcome::FailedAbort
    }
}

} // verus!
