//! Stage gates: pure predicates over the build configuration that decide
//! whether a pipeline stage may run.
//!
//! A failing gate is reported to the operator and the stage is skipped;
//! it never changes any state.  Every gate is a function of its arguments
//! alone, so two calls on the same record always agree.

use crate::config::{ConfigModel, ConfigState};
use vstd::prelude::*;

verus! {

/// Dependency installation has no prerequisite.
pub fn can_install_dependencies() -> (r: bool)
    ensures
        r,
{
    true
}

/// Entering the tag, name and output directory has no prerequisite.
pub fn can_set_metadata() -> (r: bool)
    ensures
        r,
{
    true
}

/// Kernel selection needs at least one kernel image found under the boot
/// directory; the caller passes the list it found.
pub fn can_select_kernel(kernel_images: &Vec<String>) -> (r: bool)
    ensures
        r == (kernel_images@.len() > 0),
{
    kernel_images.len() > 0
}

/// Initramfs generation needs a selected kernel image.
pub fn can_generate_initramfs(config: &ConfigState) -> (r: bool)
    ensures
        r == (config@.vmlinuz_path.len() > 0),
{
    !config.vmlinuz_path.as_str().is_empty()
}

/// Editing the bootloader configuration needs the build directory on
/// disk; the caller passes what it observed.
pub fn can_edit_bootloader_config(build_dir_exists: bool) -> (r: bool)
    ensures
        r == build_dir_exists,
{
    build_dir_exists
}

/// ISO assembly needs the full readiness gate: all seven conditions.
pub fn can_create_iso(config: &ConfigState) -> (r: bool)
    ensures
        r == config@.ready_for_iso(),
{
    config.is_ready_for_iso()
}

/// Writing to USB needs an output directory and at least one produced
/// ISO file in it; the caller passes the files it listed.
pub fn can_write_to_usb(config: &ConfigState, iso_files: &Vec<String>) -> (r: bool)
    ensures
        r == (config@.output_dir.len() > 0 && iso_files@.len() > 0),
{
    !config.output_dir.as_str().is_empty() && iso_files.len() > 0
}

/// The gates are pure: their verdicts are functions of the record alone,
/// so equal records receive equal verdicts, and no call moves any state.
pub proof fn lemma_gates_pure(c1: ConfigModel, c2: ConfigModel)
    requires
        c1 == c2,
    ensures
        c1.ready_for_iso() == c2.ready_for_iso(),
        (c1.vmlinuz_path.len() > 0) == (c2.vmlinuz_path.len() > 0),
        (c1.output_dir.len() > 0) == (c2.output_dir.len() > 0),
{
}

} // verus!
