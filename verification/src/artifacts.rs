//! What a cleanup of the workspace artifact tree reports.
use vstd::prelude::*;

verus! {

/// The outcome of an artifact cleanup pass.
#[derive(Debug, Clone)]
pub struct CleanupReport {
    pub artifact_root: String,
    pub today_dir: String,
    pub bytes_before: u64,
    pub bytes_after: u64,
    pub deleted_dirs: Vec<String>,
    pub deleted_files: Vec<String>,
    pub kept_dirs: Vec<String>,
    pub deleted_paths: Vec<String>,
    pub complete: bool,
}

/// The kinds of artifact failures.
#[derive(Debug, Clone, Copy, PartialEq, Eq, Structural)]
pub enum ArtifactErrorKind {
    LockTimeout,
    CleanupPartial,
    CleanupStateUnknown,
    RetentionLimitNotMet,
    Io,
    Db,
    InvalidDay,
}

/// An artifact failure: its kind, its displayed text, and the cleanup report
/// and deleted paths it carries, where it carries them.
#[derive(Debug)]
pub struct ArtifactError {
    pub kind: ArtifactErrorKind,
    pub text: String,
    pub report: Option<CleanupReport>,
    pub deleted_paths: Option<Vec<String>>,
}

impl ArtifactError {
    /// The cleanup report carried by the failure, if any.
    pub fn cleanup_report(&self) -> (r: Option<&CleanupReport>)
        ensures
            r == match self.report { Some(report) => Some(&report), None => None },
    {
        match &self.report {
            Some(report) => Some(report),
            None => None,
        }
    }

    /// The paths already deleted when the failure happened, if it tracks them.
    pub fn deleted_paths(&self) -> (r: Option<&Vec<String>>)
        ensures
            r == match self.deleted_paths { Some(paths) => Some(&paths), None => None },
    {
        match &self.deleted_paths {
            Some(paths) => Some(paths),
            None => None,
        }
    }
}

} // verus!
