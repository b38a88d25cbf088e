//! Shared build cache: a content-addressed store of frontend build
//! output, keyed by the commit of the shared asset source tree, with a
//! rate-limited, reference-counted garbage-collection sweep.
//!
//! `next`/`cache_action` form the fetch-or-build state machine: the
//! unverified driver resolves the key, probes directories, runs the
//! toolchain and reports each outcome back.  The machine guarantees
//! that the single atomic publish of a built entry is requested only
//! after the build succeeded and its scratch output exists, so no
//! partial entry is ever visible under a final key.

use vstd::prelude::*;
use crate::text::{basename, path_basename, seq_views, str_eq};

verus! {

/// Number of seconds in the rolling garbage-collection window.
pub const SWEEP_WINDOW_SECS: u64 = 86400;

/// Why a fetch-or-build run failed.
#[derive(Clone, Copy, Debug, PartialEq, Eq, Structural)]
pub enum CacheError {
    /// The cache key (latest asset commit) could not be resolved.
    KeyResolution,
    /// Fetching the missing commit failed.
    Fetch,
    /// Checking the commit out failed.
    Checkout,
    /// Installing frontend dependencies failed.
    Install,
    /// The asset build itself failed.
    Build,
    /// The toolchain produced no scratch output directory.
    MissingOutput,
    /// Publishing the scratch output under the final key failed.
    Store,
    /// Linking the project's build path to the entry failed.
    Link,
}

/// The fetch-or-build machine's state.
#[derive(Debug)]
pub enum CacheState {
    /// The driver must resolve the cache key.
    ResolveKey,
    /// The driver must probe `cache_root/<key>` for a non-empty entry.
    Probe { key: String },
    /// Cache hit: the driver must link the project to the entry.
    LinkHit { key: String },
    /// Cache miss: the driver must check whether the commit is local.
    CheckCommit { key: String },
    /// The commit is absent: the driver must fetch.
    Fetching { key: String },
    /// The driver must check the commit out in the shared checkout.
    CheckingOut { key: String },
    /// The driver must install frontend dependencies.
    Installing { key: String },
    /// The driver must run the asset build into the scratch directory.
    Building { key: String },
    /// The driver must probe for the scratch output directory.
    VerifyOutput { key: String },
    /// The driver must atomically rename the scratch directory to
    /// `cache_root/<key>`.
    Publishing { key: String },
    /// The driver must link the project to the fresh entry.
    LinkNew { key: String },
    /// The project's build path points at the entry for `key`.
    Complete { key: String },
    Failed { error: CacheError },
}

/// The result of the outside work the current state asked for.
#[derive(Debug)]
pub enum CacheEvent {
    KeyResolved { ok: bool, key: String },
    EntryProbed { present: bool },
    CommitProbed { present: bool },
    FetchDone { ok: bool },
    CheckoutDone { ok: bool },
    InstallDone { ok: bool },
    BuildDone { ok: bool },
    ScratchProbed { present: bool },
    Published { ok: bool },
    LinkDone { ok: bool },
}

/// The outside work a state asks for.
#[derive(Debug)]
pub enum CacheAction {
    ResolveKey,
    ProbeEntry { key: String },
    CheckCommit { key: String },
    Fetch,
    Checkout { key: String },
    InstallDeps,
    RunBuild,
    ProbeScratch,
    PublishScratch { key: String },
    LinkEntry { key: String },
    Idle,
}

/// The transition relation of the fetch-or-build machine.  An event
/// that does not answer the current state leaves the state unchanged.
pub open spec fn spec_cache_next(state: CacheState, event: CacheEvent) -> CacheState {
    match (state, event) {
        (CacheState::ResolveKey, CacheEvent::KeyResolved { ok, key }) => if ok {
            CacheState::Probe { key }
        } else {
            CacheState::Failed { error: CacheError::KeyResolution }
        },
        (CacheState::Probe { key }, CacheEvent::EntryProbed { present }) => if present {
            CacheState::LinkHit { key }
        } else {
            CacheState::CheckCommit { key }
        },
        (CacheState::LinkHit { key }, CacheEvent::LinkDone { ok }) => if ok {
            CacheState::Complete { key }
        } else {
            CacheState::Failed { error: CacheError::Link }
        },
        (CacheState::CheckCommit { key }, CacheEvent::CommitProbed { present }) => if present {
            CacheState::CheckingOut { key }
        } else {
            CacheState::Fetching { key }
        },
        (CacheState::Fetching { key }, CacheEvent::FetchDone { ok }) => if ok {
            CacheState::CheckingOut { key }
        } else {
            CacheState::Failed { error: CacheError::Fetch }
        },
        (CacheState::CheckingOut { key }, CacheEvent::CheckoutDone { ok }) => if ok {
            CacheState::Installing { key }
        } else {
            CacheState::Failed { error: CacheError::Checkout }
        },
        (CacheState::Installing { key }, CacheEvent::InstallDone { ok }) => if ok {
            CacheState::Building { key }
        } else {
            CacheState::Failed { error: CacheError::Install }
        },
        (CacheState::Building { key }, CacheEvent::BuildDone { ok }) => if ok {
            CacheState::VerifyOutput { key }
        } else {
            CacheState::Failed { error: CacheError::Build }
        },
        (CacheState::VerifyOutput { key }, CacheEvent::ScratchProbed { present }) => if present {
            CacheState::Publishing { key }
        } else {
            CacheState::Failed { error: CacheError::MissingOutput }
        },
        (CacheState::Publishing { key }, CacheEvent::Published { ok }) => if ok {
            CacheState::LinkNew { key }
        } else {
            CacheState::Failed { error: CacheError::Store }
        },
        (CacheState::LinkNew { key }, CacheEvent::LinkDone { ok }) => if ok {
            CacheState::Complete { key }
        } else {
            CacheState::Failed { error: CacheError::Link }
        },
        (s, _) => s,
    }
}

/// The outside work `state` asks for.
pub open spec fn spec_cache_action(state: CacheState) -> CacheAction {
    match state {
        CacheState::ResolveKey => CacheAction::ResolveKey,
        CacheState::Probe { key } => CacheAction::ProbeEntry { key },
        CacheState::LinkHit { key } => CacheAction::LinkEntry { key },
        CacheState::CheckCommit { key } => CacheAction::CheckCommit { key },
        CacheState::Fetching { .. } => CacheAction::Fetch,
        CacheState::CheckingOut { key } => CacheAction::Checkout { key },
        CacheState::Installing { .. } => CacheAction::InstallDeps,
        CacheState::Building { .. } => CacheAction::RunBuild,
        CacheState::VerifyOutput { .. } => CacheAction::ProbeScratch,
        CacheState::Publishing { key } => CacheAction::PublishScratch { key },
        CacheState::LinkNew { key } => CacheAction::LinkEntry { key },
        CacheState::Complete { .. } => CacheAction::Idle,
        CacheState::Failed { .. } => CacheAction::Idle,
    }
}

/// Advance the fetch-or-build machine by one event.
pub fn next(state: CacheState, event: CacheEvent) -> (r: CacheState)
    ensures
        r == spec_cache_next(state, event),
{
    match (state, event) {
        (CacheState::ResolveKey, CacheEvent::KeyResolved { ok, key }) => if ok {
            CacheState::Probe { key }
        } else {
            CacheState::Failed { error: CacheError::KeyResolution }
        },
        (CacheState::Probe { key }, CacheEvent::EntryProbed { present }) => if present {
            CacheState::LinkHit { key }
        } else {
            CacheState::CheckCommit { key }
        },
        (CacheState::LinkHit { key }, CacheEvent::LinkDone { ok }) => if ok {
            CacheState::Complete { key }
        } else {
            CacheState::Failed { error: CacheError::Link }
        },
        (CacheState::CheckCommit { key }, CacheEvent::CommitProbed { present }) => if present {
            CacheState::CheckingOut { key }
        } else {
            CacheState::Fetching { key }
        },
        (CacheState::Fetching { key }, CacheEvent::FetchDone { ok }) => if ok {
            CacheState::CheckingOut { key }
        } else {
            CacheState::Failed { error: CacheError::Fetch }
        },
        (CacheState::CheckingOut { key }, CacheEvent::CheckoutDone { ok }) => if ok {
            CacheState::Installing { key }
        } else {
            CacheState::Failed { error: CacheError::Checkout }
        },
        (CacheState::Installing { key }, CacheEvent::InstallDone { ok }) => if ok {
            CacheState::Building { key }
        } else {
            CacheState::Failed { error: CacheError::Install }
        },
        (CacheState::Building { key }, CacheEvent::BuildDone { ok }) => if ok {
            CacheState::VerifyOutput { key }
        } else {
            CacheState::Failed { error: CacheError::Build }
        },
        (CacheState::VerifyOutput { key }, CacheEvent::ScratchProbed { present }) => if present {
            CacheState::Publishing { key }
        } else {
            CacheState::Failed { error: CacheError::MissingOutput }
        },
        (CacheState::Publishing { key }, CacheEvent::Published { ok }) => if ok {
            CacheState::LinkNew { key }
        } else {
            CacheState::Failed { error: CacheError::Store }
        },
        (CacheState::LinkNew { key }, CacheEvent::LinkDone { ok }) => if ok {
            CacheState::Complete { key }
        } else {
            CacheState::Failed { error: CacheError::Link }
        },
        (s, _) => s,
    }
}

/// The outside work `state` asks for.
pub fn cache_action(state: &CacheState) -> (a: CacheAction)
    ensures
        a == spec_cache_action(*state),
{
    match state {
        CacheState::ResolveKey => CacheAction::ResolveKey,
        CacheState::Probe { key } => CacheAction::ProbeEntry { key: key.clone() },
        CacheState::LinkHit { key } => CacheAction::LinkEntry { key: key.clone() },
        CacheState::CheckCommit { key } => CacheAction::CheckCommit { key: key.clone() },
        CacheState::Fetching { .. } => CacheAction::Fetch,
        CacheState::CheckingOut { key } => CacheAction::Checkout { key: key.clone() },
        CacheState::Installing { .. } => CacheAction::InstallDeps,
        CacheState::Building { .. } => CacheAction::RunBuild,
        CacheState::VerifyOutput { .. } => CacheAction::ProbeScratch,
        CacheState::Publishing { key } => CacheAction::PublishScratch { key: key.clone() },
        CacheState::LinkNew { key } => CacheAction::LinkEntry { key: key.clone() },
        CacheState::Complete { .. } => CacheAction::Idle,
        CacheState::Failed { .. } => CacheAction::Idle,
    }
}

/// The remote branch reference the cache key is resolved against.
pub fn remote_ref(branch: &str) -> (r: String)
    ensures
        r@ == "origin/"@ + branch@,
{
    let mut s = String::from_str("origin/");
    s.append(branch);
    s
}

/// The cache-root-relative directory of the entry for `key`.
pub fn entry_subpath(key: &str) -> (r: String)
    ensures
        r@ == ".builds/"@ + key@,
{
    let mut s = String::from_str(".builds/");
    s.append(key);
    s
}

/// The atomic publish is requested only in the `Publishing` state, and
/// `Publishing` is entered only from a verified build: the build step
/// reported success and the scratch output directory exists.  An
/// interruption anywhere earlier therefore leaves `cache_root/<key>`
/// untouched: no partial entry is ever visible under its final key.
pub proof fn lemma_publish_needs_verified_output(state: CacheState, event: CacheEvent)
    ensures
        (spec_cache_action(state) matches CacheAction::PublishScratch { key }
            ==> state == (CacheState::Publishing { key })),
        ({
            let next_state = spec_cache_next(state, event);
            &&& (next_state matches CacheState::Publishing { key } ==> (!(state matches
                CacheState::Publishing { .. }) ==> state == (CacheState::VerifyOutput { key })
                && event == (CacheEvent::ScratchProbed { present: true })))
            &&& (next_state matches CacheState::VerifyOutput { key } ==> (!(state matches
                CacheState::VerifyOutput { .. }) ==> state == (CacheState::Building { key })
                && event == (CacheEvent::BuildDone { ok: true })))
        }),
{
}

/// A cache hit builds nothing: probing an existing non-empty entry
/// leads only to linking that same entry and completing.
pub proof fn lemma_hit_builds_nothing(key: String)
    ensures
        spec_cache_next(CacheState::Probe { key }, CacheEvent::EntryProbed { present: true })
            == (CacheState::LinkHit { key }),
        spec_cache_action(CacheState::LinkHit { key }) == (CacheAction::LinkEntry { key }),
        spec_cache_next(CacheState::LinkHit { key }, CacheEvent::LinkDone { ok: true })
            == (CacheState::Complete { key }),
        spec_cache_action(CacheState::Complete { key }) == CacheAction::Idle,
{
}

/// A finished run is settled: once the machine completes with a key,
/// or fails, no event moves it and no further work is requested.  Two
/// consecutive runs for one key therefore build at most once: the
/// first run's publish makes the second run's probe a hit, and the hit
/// path links the same entry without building.
pub proof fn lemma_finished_run_settled(key: String, error: CacheError, event: CacheEvent)
    ensures
        spec_cache_next(CacheState::Complete { key }, event) == (CacheState::Complete { key }),
        spec_cache_next(CacheState::Failed { error }, event) == (CacheState::Failed { error }),
        spec_cache_action(CacheState::Failed { error }) == CacheAction::Idle,
{
}

/// A sweep is due when no sentinel exists, when the sentinel lies in
/// the future, or when a full window has elapsed since it was written.
pub open spec fn spec_sweep_due(sentinel: Option<u64>, now: u64) -> bool {
    match sentinel {
        None => true,
        Some(t) => !(now >= t && now - t < SWEEP_WINDOW_SECS),
    }
}

/// Whether the rate-limited sweep may run at time `now`.
pub fn sweep_due(sentinel: Option<u64>, now: u64) -> (r: bool)
    ensures
        r == spec_sweep_due(sentinel, now),
{
    match sentinel {
        None => true,
        Some(t) => if now >= t {
            !(now - t < SWEEP_WINDOW_SECS)
        } else {
            true
        },
    }
}

/// After a sweep stamps the sentinel, no second sweep is due within
/// the same rolling window: the second call is a no-op.
pub proof fn lemma_sweep_window(stamped: u64, later: u64)
    requires
        stamped <= later,
        later - stamped < SWEEP_WINDOW_SECS,
    ensures
        !spec_sweep_due(Some(stamped), later),
{
}

/// The keys currently in use: the final path component of each
/// project's build-link target.
pub fn used_keys(targets: &Vec<String>) -> (r: Vec<String>)
    ensures
        r@.len() == targets@.len(),
        forall|i: int| 0 <= i < r@.len() ==> #[trigger] r@[i]@ == basename(targets@[i]@),
{
    let mut out: Vec<String> = Vec::new();
    let mut i: usize = 0;
    while i < targets.len()
        invariant
            i <= targets@.len(),
            out@.len() == i,
            forall|j: int| 0 <= j < i ==> #[trigger] out@[j]@ == basename(targets@[j]@),
        decreases targets@.len() - i,
    {
        out.push(path_basename(targets[i].as_str()));
        i = i + 1;
    }
    out
}

/// Whether `k` occurs in `keys`.
fn in_list(keys: &Vec<String>, k: &str) -> (r: bool)
    ensures
        r == seq_views(keys@).contains(k@),
{
    let mut i: usize = 0;
    while i < keys.len()
        invariant
            i <= keys@.len(),
            forall|j: int| 0 <= j < i ==> #[trigger] seq_views(keys@)[j] != k@,
        decreases keys@.len() - i,
    {
        if str_eq(keys[i].as_str(), k) {
            proof {
                assert(seq_views(keys@)[i as int] == k@);
            }
            return true;
        }
        i = i + 1;
    }
    proof {
        assert(forall|j: int| 0 <= j < seq_views(keys@).len()
            ==> #[trigger] seq_views(keys@)[j] != k@);
    }
    false
}

/// The entries a sweep deletes: exactly those whose key is not in use.
pub open spec fn spec_sweep_plan(entries: Seq<Seq<char>>, used: Seq<Seq<char>>) -> Seq<Seq<char>> {
    entries.filter(|k: Seq<char>| !used.contains(k))
}

/// Plan one garbage-collection sweep: of the entries under the cache
/// root, keep every key some project links to and delete the rest.
pub fn plan_sweep(entries: &Vec<String>, used: &Vec<String>) -> (r: Vec<String>)
    ensures
        seq_views(r@) == spec_sweep_plan(seq_views(entries@), seq_views(used@)),
{
    let ghost evs = seq_views(entries@);
    let ghost uvs = seq_views(used@);
    let mut out: Vec<String> = Vec::new();
    let mut i: usize = 0;
    proof {
        reveal(Seq::filter);
        assert(evs.subrange(0, 0) =~= Seq::<Seq<char>>::empty());
        assert(seq_views(out@) =~= spec_sweep_plan(evs.subrange(0, 0), uvs));
    }
    while i < entries.len()
        invariant
            i <= entries@.len(),
            evs == seq_views(entries@),
            uvs == seq_views(used@),
            evs.len() == entries@.len(),
            forall|k: int| 0 <= k < evs.len() ==> evs[k] == entries@[k]@,
            seq_views(out@) == spec_sweep_plan(evs.subrange(0, i as int), uvs),
        decreases entries@.len() - i,
    {
        let keep = in_list(used, entries[i].as_str());
        let ghost pre = out@;
        proof {
            reveal(Seq::filter);
            assert(evs.subrange(0, i + 1).drop_last() =~= evs.subrange(0, i as int));
            assert(evs.subrange(0, i + 1).last() == evs[i as int]);
        }
        if !keep {
            out.push(entries[i].clone());
            proof {
                assert(seq_views(out@) =~= seq_views(pre).push(entries@[i as int]@));
            }
        }
        proof {
            assert(seq_views(out@) =~= spec_sweep_plan(evs.subrange(0, i + 1), uvs));
        }
        i = i + 1;
    }
    proof {
        assert(evs.subrange(0, entries@.len() as int) =~= evs);
    }
    out
}

/// The sweep never deletes an entry whose key is the link target of
/// some project, and it plans deletion of every other entry.
pub proof fn lemma_sweep_spares_used(entries: Seq<Seq<char>>, used: Seq<Seq<char>>)
    ensures
        forall|k: Seq<char>| used.contains(k)
            ==> !(#[trigger] spec_sweep_plan(entries, used).contains(k)),
        forall|k: Seq<char>| entries.contains(k) && !used.contains(k)
            ==> #[trigger] spec_sweep_plan(entries, used).contains(k),
{
    let plan = spec_sweep_plan(entries, used);
    assert forall|k: Seq<char>| used.contains(k) implies !(#[trigger] plan.contains(k)) by {
        if plan.contains(k) {
            let i = choose|i: int| 0 <= i < plan.len() && plan[i] == k;
            entries.lemma_filter_pred(|x: Seq<char>| !used.contains(x), i);
        }
    }
    assert forall|k: Seq<char>| entries.contains(k) && !used.contains(k)
        implies #[trigger] plan.contains(k) by {
        let i = choose|i: int| 0 <= i < entries.len() && entries[i] == k;
        entries.lemma_filter_contains(|x: Seq<char>| !used.contains(x), i);
    }
}

} // verus!
