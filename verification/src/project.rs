//! Project identity and per-run status.

use vstd::prelude::*;

verus! {

/// Where a project stands within the current run.  Ephemeral: mutated
/// only by the update pipeline and never persisted; durable failure
/// state lives in the resume-state store.
#[derive(Debug, Clone, PartialEq, Eq)]
pub enum ProjectStatus {
    NotProcessed,
    Processing,
    Completed,
    Failed(String),
}

/// A managed project: name and filesystem location.  Produced by
/// discovery or by explicit selection, both outside this library.
#[derive(Debug, Clone)]
pub struct LaravelProject {
    pub name: String,
    pub path: String,
    pub status: ProjectStatus,
}

} // verus!
