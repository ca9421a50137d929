//! Error taxonomy of the supervisor: configuration errors are fatal at
//! startup, hook-argv errors abort a run, resolution errors abort only the
//! current pipeline run.

use vstd::prelude::*;

verus! {

/// A configuration layer could not be resolved into an effective policy.
#[derive(Debug)]
pub enum ConfigError {
    /// A glob pattern was rejected by the pattern compiler; carries the
    /// offending pattern.
    InvalidGlob(String),
    /// Every pattern parsed, but the combined matcher could not be built.
    GlobSetBuild,
    /// File mode was requested with an empty file list.
    NoFiles,
    /// File mode was given a path that is not a Rust source file; carries
    /// that path.
    NotRustFile(String),
}

/// A hook entry was malformed: its argv was empty. Carries the index of the
/// offending entry in its hook list.
#[derive(Debug, Clone, Copy, PartialEq, Eq, Structural)]
pub struct HookError {
    pub index: usize,
}

/// The run argv could not be derived: no binary name, no package name, and
/// no usable working-directory name.
#[derive(Debug, Clone, Copy, PartialEq, Eq, Structural)]
pub struct ResolutionError {}

} // verus!
