//! Resume-state store: one durable record per project naming the last
//! failed step, written by the pipeline the moment a step fails and
//! cleared the moment the project completes without error.
//!
//! The store here is the authoritative in-memory model with exact
//! contracts; the unverified driver mirrors every change to disk.

use vstd::prelude::*;
use crate::text::str_eq;

verus! {

/// Durable record of the last failed step for one project.
#[derive(Debug)]
pub struct ProjectState {
    pub project_name: String,
    pub failed_step: String,
    pub timestamp: String,
}

impl ProjectState {
    /// A copy with equal fields.
    pub fn duplicate(&self) -> (r: ProjectState)
        ensures
            r == *self,
    {
        ProjectState {
            project_name: self.project_name.clone(),
            failed_step: self.failed_step.clone(),
            timestamp: self.timestamp.clone(),
        }
    }
}

/// The record stored under `name`: the latest one in `s`, if any.
pub open spec fn find_state(s: Seq<ProjectState>, name: Seq<char>) -> Option<ProjectState>
    decreases s.len(),
{
    if s.len() == 0 {
        None
    } else if s.last().project_name@ == name {
        Some(s.last())
    } else {
        find_state(s.drop_last(), name)
    }
}

/// The records of `s` whose project name is not `name`.
pub open spec fn without_name(s: Seq<ProjectState>, name: Seq<char>) -> Seq<ProjectState> {
    s.filter(|e: ProjectState| e.project_name@ != name)
}

/// Appending a record resolves a lookup of its name to it and leaves
/// lookups of other names alone.
proof fn lemma_find_push(s: Seq<ProjectState>, e: ProjectState, name: Seq<char>)
    ensures
        find_state(s.push(e), name) == if e.project_name@ == name {
            Some(e)
        } else {
            find_state(s, name)
        },
{
    assert(s.push(e).drop_last() =~= s);
    assert(s.push(e).last() == e);
}

/// Dropping every record of a name makes lookups of that name fail.
proof fn lemma_find_without_name_self(s: Seq<ProjectState>, name: Seq<char>)
    ensures
        find_state(without_name(s, name), name) is None,
    decreases s.len(),
{
    reveal(Seq::filter);
    if s.len() == 0 {
    } else {
        lemma_find_without_name_self(s.drop_last(), name);
        if s.last().project_name@ != name {
            assert(without_name(s, name) == without_name(s.drop_last(), name).push(s.last()));
            assert(without_name(s, name).drop_last() =~= without_name(s.drop_last(), name));
        } else {
            assert(without_name(s, name) == without_name(s.drop_last(), name));
        }
    }
}

/// Dropping every record of one name leaves lookups of other names
/// unchanged.
proof fn lemma_find_without_other(s: Seq<ProjectState>, name: Seq<char>, other: Seq<char>)
    requires
        other != name,
    ensures
        find_state(without_name(s, name), other) == find_state(s, other),
    decreases s.len(),
{
    reveal(Seq::filter);
    if s.len() == 0 {
    } else {
        lemma_find_without_other(s.drop_last(), name, other);
        if s.last().project_name@ != name {
            assert(without_name(s, name) == without_name(s.drop_last(), name).push(s.last()));
            assert(without_name(s, name).drop_last() =~= without_name(s.drop_last(), name));
            assert(without_name(s, name).last() == s.last());
        } else {
            assert(without_name(s, name) == without_name(s.drop_last(), name));
            assert(s.last().project_name@ != other);
        }
    }
}

/// The resume-state store.
pub struct StateManager {
    entries: Vec<ProjectState>,
}

impl StateManager {
    /// The stored records.
    pub closed spec fn records(self) -> Seq<ProjectState> {
        self.entries@
    }

    /// The record stored for project `name`, if any.
    pub open spec fn stored(self, name: Seq<char>) -> Option<ProjectState> {
        find_state(self.records(), name)
    }

    /// An empty store.
    pub fn new() -> (r: StateManager)
        ensures
            forall|n: Seq<char>| #[trigger] r.stored(n) is None,
    {
        let entries: Vec<ProjectState> = Vec::new();
        let r = StateManager { entries };
        proof {
            assert forall|n: Seq<char>| #[trigger] r.stored(n) is None by {
                assert(r.records().len() == 0);
            }
        }
        r
    }

    /// The records of `entries` whose project name is not `name`.
    fn filtered_without(entries: &Vec<ProjectState>, name: &str) -> (r: Vec<ProjectState>)
        ensures
            r@ == without_name(entries@, name@),
    {
        let mut kept: Vec<ProjectState> = Vec::new();
        let mut i: usize = 0;
        proof {
            reveal(Seq::filter);
            assert(entries@.subrange(0, 0) =~= Seq::<ProjectState>::empty());
        }
        while i < entries.len()
            invariant
                i <= entries@.len(),
                kept@ == without_name(entries@.subrange(0, i as int), name@),
            decreases entries@.len() - i,
        {
            let keep = !str_eq(entries[i].project_name.as_str(), name);
            proof {
                reveal(Seq::filter);
                assert(entries@.subrange(0, i + 1).drop_last() =~= entries@.subrange(0, i as int));
                assert(entries@.subrange(0, i + 1).last() == entries@[i as int]);
            }
            if keep {
                kept.push(entries[i].duplicate());
            }
            proof {
                assert(kept@ == without_name(entries@.subrange(0, i + 1), name@));
            }
            i = i + 1;
        }
        proof {
            assert(entries@.subrange(0, entries@.len() as int) =~= entries@);
        }
        kept
    }

    /// Record that `failed_step` failed for `project_name`, replacing
    /// any earlier record of that project and touching no other.
    pub fn save_state(&mut self, project_name: &str, failed_step: &str, timestamp: &str)
        ensures
            (final(self).stored(project_name@) matches Some(st) && st.project_name@
                == project_name@ && st.failed_step@ == failed_step@ && st.timestamp@
                == timestamp@),
            forall|n: Seq<char>| n != project_name@
                ==> #[trigger] final(self).stored(n) == old(self).stored(n),
    {
        let mut kept = Self::filtered_without(&self.entries, project_name);
        let record = ProjectState {
            project_name: String::from_str(project_name),
            failed_step: String::from_str(failed_step),
            timestamp: String::from_str(timestamp),
        };
        let ghost rec = record;
        kept.push(record);
        self.entries = kept;
        proof {
            lemma_find_push(without_name(old(self).records(), project_name@), rec, project_name@);
            assert forall|n: Seq<char>| n != project_name@ implies #[trigger] final(self).stored(n)
                == old(self).stored(n) by {
                lemma_find_push(without_name(old(self).records(), project_name@), rec, n);
                lemma_find_without_other(old(self).records(), project_name@, n);
            }
        }
    }

    /// The record stored for `project_name`, if any.
    pub fn load_state(&self, project_name: &str) -> (r: Option<ProjectState>)
        ensures
            r == self.stored(project_name@),
    {
        let mut i: usize = self.entries.len();
        proof {
            assert(self.entries@.subrange(0, self.entries@.len() as int) =~= self.entries@);
        }
        while i > 0
            invariant
                i <= self.entries@.len(),
                find_state(self.entries@, project_name@) == find_state(
                    self.entries@.subrange(0, i as int),
                    project_name@,
                ),
            decreases i,
        {
            let e = &self.entries[i - 1];
            let ghost prefix = self.entries@.subrange(0, i as int);
            proof {
                assert(prefix.drop_last() =~= self.entries@.subrange(0, i - 1));
                assert(prefix.last() == self.entries@[i - 1]);
            }
            if str_eq(e.project_name.as_str(), project_name) {
                return Some(e.duplicate());
            }
            i = i - 1;
        }
        proof {
            assert(self.entries@.subrange(0, 0) =~= Seq::<ProjectState>::empty());
        }
        None
    }

    /// Drop the record of `project_name`, touching no other.
    pub fn clear_state(&mut self, project_name: &str)
        ensures
            final(self).stored(project_name@) is None,
            forall|n: Seq<char>| n != project_name@
                ==> #[trigger] final(self).stored(n) == old(self).stored(n),
    {
        let kept = Self::filtered_without(&self.entries, project_name);
        self.entries = kept;
        proof {
            lemma_find_without_name_self(old(self).records(), project_name@);
            assert forall|n: Seq<char>| n != project_name@ implies #[trigger] final(self).stored(n)
                == old(self).stored(n) by {
                lemma_find_without_other(old(self).records(), project_name@, n);
            }
        }
    }
}

/// Resume-state round trip: saving a record makes a lookup of its
/// project return exactly that record, and clearing a project makes a
/// lookup of it return absent, whatever the store held before.
pub proof fn lemma_resume_round_trip(s: Seq<ProjectState>, rec: ProjectState)
    ensures
        find_state(without_name(s, rec.project_name@).push(rec), rec.project_name@) == Some(rec),
        find_state(without_name(s, rec.project_name@), rec.project_name@) is None,
{
    lemma_find_push(without_name(s, rec.project_name@), rec, rec.project_name@);
    lemma_find_without_name_self(s, rec.project_name@);
}

} // verus!
