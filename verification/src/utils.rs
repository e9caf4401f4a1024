//! Build provenance shown on the control surface beside the status line.

use vstd::prelude::*;

verus! {

/// Identification of the running build: when and from what it was made.
/// The surrounding binary fills it in from its build environment.
#[derive(Debug, PartialEq, Clone)]
pub struct BuildInfo {
    pub build_timestamp: &'static str,
    pub build_date: &'static str,
    pub git_branch: &'static str,
    pub git_timestamp: &'static str,
    pub git_date: &'static str,
    pub git_hash: &'static str,
    pub git_describe: &'static str,
    pub rustc_host_triple: &'static str,
    pub rustc_version: &'static str,
    pub cargo_target_triple: &'static str,
}

} // verus!
