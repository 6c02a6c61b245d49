//! The task supersession slot: at most one background job is live at a time,
//! and submitting a new one unconditionally supersedes whichever job held the
//! slot, whatever its kind. A job may only write shared state while its
//! token is still the current one, so a superseded job's late result is never
//! observed.

use vstd::prelude::*;

verus! {

/// The kinds of background work that compete for the slot.
#[derive(Clone, Copy, PartialEq, Eq, Structural)]
pub enum JobKind {
    CatalogSearch,
    InfoFetch,
}

/// The single-occupancy holder for the one live background job.
pub struct TaskSlot {
    pub generation: u64,
    pub job: Option<JobKind>,
}

/// A token may commit its result only while it names the slot's current
/// generation.
pub open spec fn can_commit(slot: TaskSlot, token: u64) -> bool {
    token == slot.generation
}

impl TaskSlot {
    /// An empty slot: no job yet, generation zero.
    pub fn new() -> (s: TaskSlot)
        ensures
            s.generation == 0,
            s.job is None,
    {
        TaskSlot { generation: 0, job: None }
    }

    /// Put a new job in the slot, superseding the previous occupant whatever
    /// its kind. Returns the new job's token; every earlier token can no
    /// longer commit.
    pub fn submit(&mut self, job: JobKind) -> (token: u64)
        requires
            old(self).generation < u64::MAX,
        ensures
            final(self).generation == old(self).generation + 1,
            final(self).job == Some(job),
            token == final(self).generation,
            can_commit(*final(self), token),
            forall|t: u64| t <= old(self).generation ==> !can_commit(*final(self), t),
    {
        self.generation = self.generation + 1;
        self.job = Some(job);
        self.generation
    }

    /// Whether the job holding this token is still the current one.
    pub fn is_current(&self, token: u64) -> (r: bool)
        ensures
            r == can_commit(*self, token),
    {
        token == self.generation
    }
}

/// Write a job's result into the info cache, but only when the job's token
/// is still current: a superseded job's result is discarded unread.
pub fn commit_info<T>(slot: &TaskSlot, token: u64, cache: &mut Vec<T>, result: Vec<T>) -> (stored:
    bool)
    ensures
        stored == can_commit(*slot, token),
        stored ==> final(cache)@ == result@,
        !stored ==> final(cache)@ == old(cache)@,
{
    if slot.is_current(token) {
        *cache = result;
        true
    } else {
        false
    }
}

/// Supersession: once job B is submitted after job A, A's token can never
/// commit again, however the slot's generation moves on afterwards — a late
/// result of A never overwrites state observed after B.
pub proof fn lemma_supersession(before: TaskSlot, after: TaskSlot, token_a: u64, token_b: u64)
    requires
        token_a <= before.generation,
        after.generation == before.generation + 1,
        token_b == after.generation,
    ensures
        !can_commit(after, token_a),
        can_commit(after, token_b),
        token_a < token_b,
{
}

} // verus!
