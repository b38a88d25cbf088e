//! Change classifier: maps the set of changed paths of one
//! synchronization to the build actions the update pipeline must run.

use vstd::prelude::*;
use crate::text::{contains_seq, ends_with_seq, seq_views, contains_str, ends_with_str, str_eq};

verus! {

/// Which build steps a change set requires.  Derived once per change
/// set and never mutated afterwards.
#[derive(Clone, Copy, Debug, PartialEq, Eq, Structural)]
pub struct BuildAction {
    pub dependency_install: bool,
    pub asset_build: bool,
    pub migration: bool,
}

/// The path names the backend dependency manifest.
pub open spec fn path_needs_backend_install(p: Seq<char>) -> bool {
    contains_seq(p, "composer.json"@)
}

/// The path is the frontend dependency manifest.
pub open spec fn path_needs_frontend_install(p: Seq<char>) -> bool {
    p == "package.json"@
}

/// The path is a frontend source file: script or typed-script source,
/// plain or with the JSX/TSX variants.
pub open spec fn path_needs_asset_build(p: Seq<char>) -> bool {
    ||| ends_with_seq(p, ".js"@)
    ||| ends_with_seq(p, ".jsx"@)
    ||| ends_with_seq(p, ".ts"@)
    ||| ends_with_seq(p, ".tsx"@)
}

/// The path lies in a migrations directory.
pub open spec fn path_needs_migration(p: Seq<char>) -> bool {
    contains_seq(p, "migrations"@)
}

/// The actions a change set requires.  A set `force` flag turns the
/// asset-build and migration steps on unconditionally; dependency
/// installation still depends on a manifest change.
pub open spec fn spec_classify(paths: Seq<Seq<char>>, force: bool) -> BuildAction {
    BuildAction {
        dependency_install: exists|i: int|
            0 <= i < paths.len() && (path_needs_backend_install(#[trigger] paths[i])
                || path_needs_frontend_install(paths[i])),
        asset_build: force || exists|i: int|
            0 <= i < paths.len() && path_needs_asset_build(#[trigger] paths[i]),
        migration: force || exists|i: int|
            0 <= i < paths.len() && path_needs_migration(#[trigger] paths[i]),
    }
}

impl BuildAction {
    /// No step is required.
    pub open spec fn is_empty(self) -> bool {
        !self.dependency_install && !self.asset_build && !self.migration
    }
}

/// Derive the build actions for one change set.
pub fn classify(changes: &Vec<String>, force: bool) -> (r: BuildAction)
    ensures
        r == spec_classify(seq_views(changes@), force),
{
    let ghost cs = seq_views(changes@);
    let mut dependency_install = false;
    let mut asset_build = false;
    let mut migration = false;
    let mut i: usize = 0;
    while i < changes.len()
        invariant
            cs == seq_views(changes@),
            cs.len() == changes@.len(),
            i <= changes@.len(),
            forall|k: int| 0 <= k < cs.len() ==> cs[k] == changes@[k]@,
            dependency_install == exists|k: int|
                0 <= k < i && (path_needs_backend_install(#[trigger] cs[k])
                    || path_needs_frontend_install(cs[k])),
            asset_build == exists|k: int| 0 <= k < i && path_needs_asset_build(#[trigger] cs[k]),
            migration == exists|k: int| 0 <= k < i && path_needs_migration(#[trigger] cs[k]),
        decreases changes@.len() - i,
    {
        let p: &str = changes[i].as_str();
        proof {
            assert(cs[i as int] == p@);
        }
        let dep_here = contains_str(p, "composer.json") || str_eq(p, "package.json");
        let asset_here = ends_with_str(p, ".js") || ends_with_str(p, ".jsx")
            || ends_with_str(p, ".ts") || ends_with_str(p, ".tsx");
        let mig_here = contains_str(p, "migrations");
        proof {
            assert(dep_here == (path_needs_backend_install(cs[i as int])
                || path_needs_frontend_install(cs[i as int])));
            assert(asset_here == path_needs_asset_build(cs[i as int]));
            assert(mig_here == path_needs_migration(cs[i as int]));
        }
        if dep_here {
            dependency_install = true;
        }
        if asset_here {
            asset_build = true;
        }
        if mig_here {
            migration = true;
        }
        i = i + 1;
    }
    BuildAction {
        dependency_install,
        asset_build: force || asset_build,
        migration: force || migration,
    }
}

/// Classification is a pure function of the paths and the force flag:
/// identical inputs yield identical build actions.
pub proof fn lemma_classify_deterministic(a: Seq<Seq<char>>, b: Seq<Seq<char>>, force: bool)
    requires
        a == b,
    ensures
        spec_classify(a, force) == spec_classify(b, force),
{
}

/// A set force flag turns the asset-build and migration steps on
/// whatever the change set holds, and leaves dependency installation
/// to the manifest predicates.
pub proof fn lemma_force_overrides(paths: Seq<Seq<char>>)
    ensures
        spec_classify(paths, true).asset_build,
        spec_classify(paths, true).migration,
        spec_classify(paths, true).dependency_install
            == spec_classify(paths, false).dependency_install,
{
}

} // verus!
