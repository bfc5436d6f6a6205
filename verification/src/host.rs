//! Probes into the running host that the pipeline's decisions consume:
//! whether a path is present on disk, and the current time.
//!
//! Nothing can be promised of their results — they depend on the disk and
//! the clock — so the functions that use them state what holds whatever
//! came back, and every decision taken on a result is made by a verified
//! function that receives it as an argument.

use vstd::prelude::*;

verus! {

/// Relies on std's `Path::is_dir`: whether the path names a directory on
/// disk at this moment.  No contract: the answer depends on the disk.
#[verifier::external_body]
pub fn dir_exists(path: &str) -> bool {
    std::path::Path::new(path).is_dir()
}

/// Relies on std's `Path::exists`: whether the path is present on disk at
/// this moment.  No contract: the answer depends on the disk.
#[verifier::external_body]
pub fn path_exists(path: &str) -> bool {
    std::path::Path::new(path).exists()
}

/// Relies on chrono's `Local::now` and `DateTime::format`: the current
/// local time written as `year-month-day_hourminute`, the stamp carried
/// in ISO file names.  No contract: the answer depends on the clock.
#[verifier::external_body]
pub fn timestamp_now() -> String {
    chrono::Local::now().format("%Y-%m-%d_%H%M").to_string()
}

} // verus!
