use vstd::prelude::*;
use crate::walker::{clamp_u64, lemma_clamp_add};

verus! {

/// What became of one path of a deletion batch. `size` is the size read
/// before the removal was attempted.
pub enum RemovalOutcome {
    /// The path did not exist (or its metadata could not be read).
    Missing,
    /// The path was removed.
    Removed { size: u64 },
    /// The removal failed; nothing was reclaimed.
    Failed { size: u64 },
}

/// One progress record: `current` paths of `total` processed, with
/// `deleted_size` bytes reclaimed so far.
#[derive(Clone, Copy, Debug, PartialEq, Eq, Structural)]
pub struct DeleteProgress {
    pub current: usize,
    pub total: usize,
    pub deleted_size: u64,
}

/// Bytes one outcome reclaims.
pub open spec fn reclaimed_by(o: RemovalOutcome) -> nat {
    match o {
        RemovalOutcome::Removed { size } => size as nat,
        _ => 0,
    }
}

/// Sum of the sizes of the successfully removed paths.
pub open spec fn removed_sum(h: Seq<RemovalOutcome>) -> nat
    decreases h.len(),
{
    if h.len() == 0 {
        0
    } else {
        removed_sum(h.drop_last()) + reclaimed_by(h.last())
    }
}

/// The progress records of a batch of `total` paths whose first outcomes
/// are `h`: one per outcome, in order.
pub open spec fn progress_trace(total: usize, h: Seq<RemovalOutcome>) -> Seq<DeleteProgress>
    decreases h.len(),
{
    if h.len() == 0 {
        Seq::empty()
    } else {
        progress_trace(total, h.drop_last()).push(
            DeleteProgress { current: h.len() as usize, total, deleted_size: clamp_u64(removed_sum(h)) },
        )
    }
}

/// The bookkeeping of one deletion batch: the caller removes each path in
/// order, reports the outcome to `record` and forwards the progress record
/// it returns.
pub struct DeletionTracker {
    total: usize,
    processed: usize,
    deleted_size: u64,
    history: Ghost<Seq<RemovalOutcome>>,
}

impl DeletionTracker {
    pub closed spec fn total_spec(&self) -> usize {
        self.total
    }

    /// The outcomes recorded so far, in order.
    pub closed spec fn history(&self) -> Seq<RemovalOutcome> {
        self.history@
    }

    pub closed spec fn deleted_spec(&self) -> u64 {
        self.deleted_size
    }

    pub closed spec fn wf(&self) -> bool {
        &&& self.processed as nat == self.history@.len()
        &&& self.processed <= self.total
        &&& self.deleted_size == clamp_u64(removed_sum(self.history@))
    }

    /// Starts a batch of `total` paths.
    pub fn new(total: usize) -> (t: DeletionTracker)
        ensures
            t.wf(),
            t.total_spec() == total,
            t.history() == Seq::<RemovalOutcome>::empty(),
            t.deleted_spec() == 0,
    {
        DeletionTracker { total, processed: 0, deleted_size: 0, history: Ghost(Seq::empty()) }
    }

    /// Number of paths of the batch.
    pub fn total(&self) -> (n: usize)
        ensures
            n == self.total_spec(),
    {
        self.total
    }

    /// Number of outcomes recorded so far.
    pub fn processed(&self) -> (n: usize)
        requires
            self.wf(),
        ensures
            n == self.history().len(),
    {
        self.processed
    }

    /// Whether every path of the batch has been recorded.
    pub fn is_complete(&self) -> (b: bool)
        requires
            self.wf(),
        ensures
            b == (self.history().len() == self.total_spec()),
    {
        self.processed == self.total
    }

    /// Bytes reclaimed so far (saturating at `u64::MAX`).
    pub fn deleted_size(&self) -> (n: u64)
        requires
            self.wf(),
        ensures
            n == self.deleted_spec(),
            n == clamp_u64(removed_sum(self.history())),
    {
        self.deleted_size
    }

    /// Records the outcome for the next path and returns its progress
    /// record. Only a removal that succeeded adds to the reclaimed bytes.
    pub fn record(&mut self, outcome: RemovalOutcome) -> (p: DeleteProgress)
        requires
            old(self).wf(),
            old(self).history().len() < old(self).total_spec(),
        ensures
            final(self).wf(),
            final(self).total_spec() == old(self).total_spec(),
            final(self).history() == old(self).history().push(outcome),
            final(self).deleted_spec() == clamp_u64((old(self).deleted_spec() + reclaimed_by(outcome)) as nat),
            p == progress_trace(final(self).total_spec(), final(self).history()).last(),
            p.current == final(self).history().len(),
            p.total == final(self).total_spec(),
            p.deleted_size == final(self).deleted_spec(),
    {
        let ghost h0 = self.history@;
        proof {
            self.history = Ghost(h0.push(outcome));
            assert(self.history@.drop_last() =~= h0);
            lemma_clamp_add(removed_sum(h0), reclaimed_by(outcome));
        }
        match outcome {
            RemovalOutcome::Removed { size } => {
                self.deleted_size = self.deleted_size.saturating_add(size);
            },
            _ => {},
        }
        self.processed = self.processed + 1;
        DeleteProgress { current: self.processed, total: self.total, deleted_size: self.deleted_size }
    }
}

/// Progress records come one per recorded path, in order: the i-th carries
/// index i + 1 (so indices run 1, 2, ... up to the number recorded, never
/// past the batch size, which is therefore never zero in a record), the
/// batch size, and a reclaimed count that never decreases.
pub proof fn lemma_progress_trace(total: usize, h: Seq<RemovalOutcome>)
    requires
        h.len() <= total,
    ensures
        progress_trace(total, h).len() == h.len(),
        forall|i: int|
            0 <= i < h.len() ==> {
                &&& #[trigger] progress_trace(total, h)[i].current == i + 1
                &&& progress_trace(total, h)[i].total == total
                &&& 1 <= progress_trace(total, h)[i].current <= total
                &&& progress_trace(total, h)[i].deleted_size == clamp_u64(removed_sum(h.subrange(0, i + 1)))
            },
        forall|i: int, j: int|
            #![trigger progress_trace(total, h)[i], progress_trace(total, h)[j]]
            0 <= i < j < h.len() ==> {
                &&& progress_trace(total, h)[i].deleted_size <= progress_trace(total, h)[j].deleted_size
                &&& progress_trace(total, h)[i].current < progress_trace(total, h)[j].current
            },
    decreases h.len(),
{
    if h.len() > 0 {
        let p = h.drop_last();
        lemma_progress_trace(total, p);
        assert(h.subrange(0, h.len() as int) =~= h);
        assert forall|i: int| 0 <= i < p.len() implies h.subrange(0, i + 1) == #[trigger] p.subrange(0, i + 1) by {
            assert(h.subrange(0, i + 1) =~= p.subrange(0, i + 1));
        }
        assert forall|i: int| 0 <= i < h.len() implies removed_sum(#[trigger] h.subrange(0, i + 1)) <= removed_sum(h) by {
            lemma_removed_sum_prefix(h, i + 1);
        }
    }
}

/// Reclaimed bytes never shrink as a batch grows.
proof fn lemma_removed_sum_prefix(h: Seq<RemovalOutcome>, k: int)
    requires
        0 <= k <= h.len(),
    ensures
        removed_sum(h.subrange(0, k)) <= removed_sum(h),
    decreases h.len() - k,
{
    if k < h.len() {
        lemma_removed_sum_prefix(h, k + 1);
        assert(h.subrange(0, k + 1).drop_last() =~= h.subrange(0, k));
    } else {
        assert(h.subrange(0, k) =~= h);
    }
}

/// The reclaimed count of a batch is at most the total size of the paths
/// that were actually removed; failed and missing paths add exactly 0.
pub proof fn lemma_reclaimed_bounded(t: DeletionTracker, size: u64)
    requires
        t.wf(),
    ensures
        t.deleted_spec() <= removed_sum(t.history()),
        removed_sum(t.history().push(RemovalOutcome::Failed { size })) == removed_sum(t.history()),
        removed_sum(t.history().push(RemovalOutcome::Missing)) == removed_sum(t.history()),
{
    assert(t.history().push(RemovalOutcome::Failed { size }).drop_last() =~= t.history());
    assert(t.history().push(RemovalOutcome::Missing).drop_last() =~= t.history());
}

/// A batch of no paths admits no record, emits no progress and reclaims
/// nothing.
pub proof fn lemma_empty_batch(t: DeletionTracker)
    requires
        t.wf(),
        t.total_spec() == 0,
    ensures
        t.history().len() == 0,
        progress_trace(0, t.history()).len() == 0,
        t.deleted_spec() == 0,
{
}

} // verus!
