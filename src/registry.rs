//! The append-only registry of committed batch roots.

use vstd::prelude::*;
use crate::state::BatchCommit;

verus! {

/// Committed batch roots, at most one per batch id, in the order of commit.
pub struct BatchRegistry {
    pub commits: Vec<BatchCommit>,
}

impl BatchRegistry {
    /// No two commits share a batch id.
    pub open spec fn wf(&self) -> bool {
        forall|i: int, j: int|
            0 <= i < j < self.commits@.len() ==> self.commits@[i].batch_id != self.commits@[j].batch_id
    }

    /// Whether a root has been committed under `batch_id`.
    pub open spec fn holds(&self, batch_id: u64) -> bool {
        exists|i: int| 0 <= i < self.commits@.len() && self.commits@[i].batch_id == batch_id
    }

    /// An empty registry.
    pub fn new() -> (r: BatchRegistry)
        ensures
            r.commits@ == Seq::<BatchCommit>::empty(),
            r.wf(),
    {
        BatchRegistry { commits: Vec::new() }
    }

    /// How many roots have been committed.
    pub fn len(&self) -> (r: usize)
        ensures
            r == self.commits@.len(),
    {
        self.commits.len()
    }

    /// The commit stored under `batch_id`, if any.
    pub fn find(&self, batch_id: u64) -> (r: Option<BatchCommit>)
        ensures
            r is None <==> !self.holds(batch_id),
            r is Some ==> r->0.batch_id == batch_id && self.commits@.contains(r->0),
    {
        let mut i: usize = 0;
        while i < self.commits.len()
            invariant
                i <= self.commits@.len(),
                forall|j: int| 0 <= j < i ==> self.commits@[j].batch_id != batch_id,
            decreases self.commits@.len() - i,
        {
            if self.commits[i].batch_id == batch_id {
                return Some(self.commits[i]);
            }
            i = i + 1;
        }
        None
    }

    /// Whether a root has been committed under `batch_id`.
    pub fn contains(&self, batch_id: u64) -> (r: bool)
        ensures
            r == self.holds(batch_id),
    {
        self.find(batch_id).is_some()
    }

    /// Appends `commit`, whose batch id is not yet taken.
    pub fn insert_new(&mut self, commit: BatchCommit)
        requires
            old(self).wf(),
            !old(self).holds(commit.batch_id),
        ensures
            final(self).wf(),
            final(self).commits@ == old(self).commits@.push(commit),
    {
        self.commits.push(commit);
        assert forall|i: int, j: int|
            0 <= i < j < self.commits@.len() implies self.commits@[i].batch_id != self.commits@[j].batch_id by {
            if j == self.commits@.len() - 1 {
                assert(old(self).commits@[i] == self.commits@[i]);
            }
        }
    }
}

} // verus!
