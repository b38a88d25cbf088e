//! Source synchronization: a state machine that pulls one project's
//! repository with transient credential injection and computes the set
//! of changed paths between the revisions before and after the pull.
//!
//! The driver runs one source-control command per state and reports
//! its outcome; the machine fixes the order and guarantees that the
//! original remote URL is restored whatever the pull reported.

use vstd::prelude::*;
use crate::git::{Credentials, GitOperations, spec_with_credentials};
use crate::text::str_eq;

verus! {

/// Why a synchronization failed.
#[derive(Clone, Copy, Debug, PartialEq, Eq, Structural)]
pub enum SyncError {
    /// A revision identifier could not be resolved.
    Revision,
    /// The active branch name could not be resolved.
    Branch,
    /// The remote URL could not be read or rewritten.
    RemoteConfig,
    /// The pull itself failed.
    Pull,
    /// The pull succeeded but the original URL could not be restored.
    Restore,
    /// The name-only diff between the two revisions failed.
    Diff,
}

/// The synchronization machine's state.
#[derive(Debug)]
pub enum SyncState {
    /// Best-effort auto-commit of local modifications before pulling.
    PreCommit,
    /// The driver must read the current revision ("before").
    ReadBefore,
    /// The driver must resolve the active branch name.
    ReadBranch { before: String },
    /// The driver must read the remote URL.
    ReadUrl { before: String, branch: String },
    /// The driver must set the remote URL to the credential-injected
    /// form of `url`.
    InjectUrl { before: String, branch: String, url: String },
    /// The driver must pull `branch` from the remote.
    Pulling { before: String, branch: String, url: String },
    /// The driver must restore the original remote URL `url`,
    /// whatever the pull reported.
    Restoring { before: String, url: String, pull_ok: bool },
    /// Best-effort auto-commit of any merge artifact of the pull.
    PostCommit { before: String },
    /// The driver must read the current revision ("after").
    ReadAfter { before: String },
    /// The driver must list the paths differing between the two
    /// revisions.
    Diffing { before: String, after: String },
    /// The revisions were equal: the change set is empty.
    NoChanges,
    /// The synchronization succeeded with these changed paths.
    Finished { changes: Vec<String> },
    Failed { error: SyncError },
}

/// The result of the outside work the current state asked for.
#[derive(Debug)]
pub enum SyncEvent {
    /// An auto-commit was attempted; any outcome proceeds.
    Committed,
    Revision { ok: bool, value: String },
    Branch { ok: bool, value: String },
    RemoteUrl { ok: bool, value: String },
    UrlSet { ok: bool },
    PullDone { ok: bool },
    Restored { ok: bool },
    DiffDone { ok: bool, files: Vec<String> },
}

/// The outside work a state asks for.
#[derive(Debug)]
pub enum SyncAction {
    AutoCommit,
    ReadRevision,
    ReadBranchName,
    ReadRemoteUrl,
    SetRemoteUrl { url: String },
    Pull { branch: String },
    ListChanges { before: String, after: String },
    Idle,
}

/// One synchronization run, authenticated with `credentials`.
pub struct SyncMachine {
    pub credentials: Credentials,
}

/// The transition relation of the synchronization machine.  An event
/// that does not answer the current state leaves the state unchanged.
pub open spec fn spec_sync_next(state: SyncState, event: SyncEvent) -> SyncState {
    match (state, event) {
        (SyncState::PreCommit, SyncEvent::Committed) => SyncState::ReadBefore,
        (SyncState::ReadBefore, SyncEvent::Revision { ok, value }) => if ok {
            SyncState::ReadBranch { before: value }
        } else {
            SyncState::Failed { error: SyncError::Revision }
        },
        (SyncState::ReadBranch { before }, SyncEvent::Branch { ok, value }) => if ok {
            SyncState::ReadUrl { before, branch: value }
        } else {
            SyncState::Failed { error: SyncError::Branch }
        },
        (SyncState::ReadUrl { before, branch }, SyncEvent::RemoteUrl { ok, value }) => if ok {
            SyncState::InjectUrl { before, branch, url: value }
        } else {
            SyncState::Failed { error: SyncError::RemoteConfig }
        },
        (SyncState::InjectUrl { before, branch, url }, SyncEvent::UrlSet { ok }) => if ok {
            SyncState::Pulling { before, branch, url }
        } else {
            SyncState::Failed { error: SyncError::RemoteConfig }
        },
        (SyncState::Pulling { before, branch: _, url }, SyncEvent::PullDone { ok }) => {
            SyncState::Restoring { before, url, pull_ok: ok }
        },
        (SyncState::Restoring { before, url: _, pull_ok }, SyncEvent::Restored { ok }) => {
            if !pull_ok {
                SyncState::Failed { error: SyncError::Pull }
            } else if !ok {
                SyncState::Failed { error: SyncError::Restore }
            } else {
                SyncState::PostCommit { before }
            }
        },
        (SyncState::PostCommit { before }, SyncEvent::Committed) => SyncState::ReadAfter { before },
        (SyncState::ReadAfter { before }, SyncEvent::Revision { ok, value }) => if !ok {
            SyncState::Failed { error: SyncError::Revision }
        } else if value@ == before@ {
            SyncState::NoChanges
        } else {
            SyncState::Diffing { before, after: value }
        },
        (SyncState::Diffing { .. }, SyncEvent::DiffDone { ok, files }) => if ok {
            SyncState::Finished { changes: files }
        } else {
            SyncState::Failed { error: SyncError::Diff }
        },
        (s, _) => s,
    }
}

/// Advance the synchronization machine by one event.
pub fn sync_next(state: SyncState, event: SyncEvent) -> (r: SyncState)
    ensures
        r == spec_sync_next(state, event),
{
    match (state, event) {
        (SyncState::PreCommit, SyncEvent::Committed) => SyncState::ReadBefore,
        (SyncState::ReadBefore, SyncEvent::Revision { ok, value }) => if ok {
            SyncState::ReadBranch { before: value }
        } else {
            SyncState::Failed { error: SyncError::Revision }
        },
        (SyncState::ReadBranch { before }, SyncEvent::Branch { ok, value }) => if ok {
            SyncState::ReadUrl { before, branch: value }
        } else {
            SyncState::Failed { error: SyncError::Branch }
        },
        (SyncState::ReadUrl { before, branch }, SyncEvent::RemoteUrl { ok, value }) => if ok {
            SyncState::InjectUrl { before, branch, url: value }
        } else {
            SyncState::Failed { error: SyncError::RemoteConfig }
        },
        (SyncState::InjectUrl { before, branch, url }, SyncEvent::UrlSet { ok }) => if ok {
            SyncState::Pulling { before, branch, url }
        } else {
            SyncState::Failed { error: SyncError::RemoteConfig }
        },
        (SyncState::Pulling { before, branch: _, url }, SyncEvent::PullDone { ok }) => {
            SyncState::Restoring { before, url, pull_ok: ok }
        },
        (SyncState::Restoring { before, url: _, pull_ok }, SyncEvent::Restored { ok }) => {
            if !pull_ok {
                SyncState::Failed { error: SyncError::Pull }
            } else if !ok {
                SyncState::Failed { error: SyncError::Restore }
            } else {
                SyncState::PostCommit { before }
            }
        },
        (SyncState::PostCommit { before }, SyncEvent::Committed) => SyncState::ReadAfter { before },
        (SyncState::ReadAfter { before }, SyncEvent::Revision { ok, value }) => if !ok {
            SyncState::Failed { error: SyncError::Revision }
        } else if str_eq(value.as_str(), before.as_str()) {
            SyncState::NoChanges
        } else {
            SyncState::Diffing { before, after: value }
        },
        (SyncState::Diffing { before: _, after: _ }, SyncEvent::DiffDone { ok, files }) => if ok {
            SyncState::Finished { changes: files }
        } else {
            SyncState::Failed { error: SyncError::Diff }
        },
        (s, _) => s,
    }
}

impl SyncMachine {
    /// The outside work `state` asks for.  In `InjectUrl` it is
    /// setting the credential-injected URL; in `Restoring` it is
    /// setting the original URL back.
    pub fn action(&self, state: &SyncState) -> (a: SyncAction)
        ensures
            *state is PreCommit ==> a == SyncAction::AutoCommit,
            *state is ReadBefore ==> a == SyncAction::ReadRevision,
            *state matches SyncState::ReadBranch { .. } ==> a == SyncAction::ReadBranchName,
            *state matches SyncState::ReadUrl { .. } ==> a == SyncAction::ReadRemoteUrl,
            (*state matches SyncState::InjectUrl { url, .. } ==> a matches
                SyncAction::SetRemoteUrl { url: u } && u@ == spec_with_credentials(
                url@,
                self.credentials.username@,
                self.credentials.password@,
            )),
            (*state matches SyncState::Pulling { branch, .. } ==> a matches SyncAction::Pull {
                branch: b } && b@ == branch@),
            (*state matches SyncState::Restoring { url, .. } ==> a matches
                SyncAction::SetRemoteUrl { url: u } && u@ == url@),
            *state matches SyncState::PostCommit { .. } ==> a == SyncAction::AutoCommit,
            *state matches SyncState::ReadAfter { .. } ==> a == SyncAction::ReadRevision,
            (*state matches SyncState::Diffing { before, after } ==> a matches
                SyncAction::ListChanges { before: b, after: f } && b@ == before@ && f@ == after@),
            *state is NoChanges ==> a == SyncAction::Idle,
            *state matches SyncState::Finished { .. } ==> a == SyncAction::Idle,
            *state matches SyncState::Failed { .. } ==> a == SyncAction::Idle,
    {
        match state {
            SyncState::PreCommit => SyncAction::AutoCommit,
            SyncState::ReadBefore => SyncAction::ReadRevision,
            SyncState::ReadBranch { .. } => SyncAction::ReadBranchName,
            SyncState::ReadUrl { .. } => SyncAction::ReadRemoteUrl,
            SyncState::InjectUrl { url, .. } => SyncAction::SetRemoteUrl {
                url: GitOperations::with_credentials(url.as_str(), &self.credentials),
            },
            SyncState::Pulling { branch, .. } => SyncAction::Pull { branch: branch.clone() },
            SyncState::Restoring { url, .. } => SyncAction::SetRemoteUrl { url: url.clone() },
            SyncState::PostCommit { .. } => SyncAction::AutoCommit,
            SyncState::ReadAfter { .. } => SyncAction::ReadRevision,
            SyncState::Diffing { before, after } => SyncAction::ListChanges {
                before: before.clone(),
                after: after.clone(),
            },
            SyncState::NoChanges => SyncAction::Idle,
            SyncState::Finished { .. } => SyncAction::Idle,
            SyncState::Failed { .. } => SyncAction::Idle,
        }
    }
}

/// Whatever the pull reported, the machine next enters `Restoring`
/// with the original URL, whose action sets that URL back: the
/// persisted remote configuration never keeps the credentials.  A
/// failed pull is then reported as the pull's own error; a restore
/// failure after a successful pull is reported distinctly.
pub proof fn lemma_pull_always_restores(
    before: String,
    branch: String,
    url: String,
    ok: bool,
    rok: bool,
)
    ensures
        spec_sync_next(
            SyncState::Pulling { before, branch, url },
            SyncEvent::PullDone { ok },
        ) == (SyncState::Restoring { before, url, pull_ok: ok }),
        !ok ==> spec_sync_next(
            SyncState::Restoring { before, url, pull_ok: ok },
            SyncEvent::Restored { ok: rok },
        ) == (SyncState::Failed { error: SyncError::Pull }),
        ok && !rok ==> spec_sync_next(
            SyncState::Restoring { before, url, pull_ok: ok },
            SyncEvent::Restored { ok: rok },
        ) == (SyncState::Failed { error: SyncError::Restore }),
{
}

/// Equal revisions before and after the pull yield the empty change
/// set without running a diff.
pub proof fn lemma_equal_revisions_no_changes(before: String, value: String)
    requires
        value@ == before@,
    ensures
        spec_sync_next(SyncState::ReadAfter { before }, SyncEvent::Revision { ok: true, value })
            == SyncState::NoChanges,
{
}

} // verus!
