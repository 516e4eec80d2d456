//! The engine state machine: how a clipboard-changed notification and a
//! hotkey press update the history, the pending self-write and the
//! suppression flag.

use vstd::prelude::*;

use crate::classify::{compare_data, spec_classify, ComparisonResult};
use crate::history::{bounded_push, HistoryStore};
use crate::item::{clone_snapshot, Snapshot, SnapshotModel};

verus! {

/// Mathematical model of the engine state.
#[verifier::ext_equal]
pub struct EngineModel {
    /// Most-recent-first history of confirmed distinct snapshots.
    pub history: Seq<SnapshotModel>,
    /// Capacity of the history.
    pub max_history: nat,
    /// Content the engine itself last wrote to the clipboard, if any.
    pub pending: Option<SnapshotModel>,
    /// Whether the very next clipboard-changed notification is to be
    /// discarded as the echo of the engine's own write.
    pub skip: bool,
    /// Similarity threshold handed to the classifier.
    pub threshold: u8,
}

/// The classifier verdict against an optional reference snapshot; a missing
/// reference counts as `Different`.
pub open spec fn classify_or_different(
    snap: SnapshotModel,
    reference: Option<SnapshotModel>,
    threshold: u8,
) -> ComparisonResult {
    match reference {
        Some(r) => spec_classify(snap, r, threshold),
        None => ComparisonResult::Different,
    }
}

/// How one clipboard-changed notification carrying `snap` updates the
/// engine: a pending suppression discards the notification and is cleared;
/// an empty snapshot is discarded; otherwise the snapshot is classified
/// against the pending self-write and against the history front, and the
/// verdict pair decides between no change, replacing the front, and pushing
/// a new front.
pub open spec fn clipboard_change_step(pre: EngineModel, snap: SnapshotModel) -> EngineModel {
    if pre.skip {
        EngineModel { skip: false, ..pre }
    } else if snap.len() == 0 {
        pre
    } else {
        let prev_sim = classify_or_different(snap, pre.pending, pre.threshold);
        let curr_sim = if pre.history.len() > 0 {
            spec_classify(snap, pre.history[0], pre.threshold)
        } else {
            ComparisonResult::Different
        };
        if prev_sim == ComparisonResult::Same || curr_sim == ComparisonResult::Same {
            pre
        } else if prev_sim == ComparisonResult::Similar || curr_sim == ComparisonResult::Similar {
            EngineModel {
                history: if pre.history.len() > 0 {
                    pre.history.update(0, snap)
                } else {
                    pre.history
                },
                pending: None,
                ..pre
            }
        } else {
            EngineModel {
                history: bounded_push(pre.history, snap, pre.max_history),
                pending: None,
                ..pre
            }
        }
    }
}

/// How one successful paste injection updates the engine: the front of the
/// history moves into the pending self-write; if an entry is left in front,
/// suppression is armed for the clipboard write that follows.
pub open spec fn cycle_step(pre: EngineModel) -> EngineModel {
    if pre.history.len() > 0 {
        let rest = pre.history.drop_first();
        EngineModel {
            history: rest,
            pending: Some(pre.history[0]),
            skip: if rest.len() > 0 {
                true
            } else {
                pre.skip
            },
            ..pre
        }
    } else {
        EngineModel { pending: None, ..pre }
    }
}

/// What a successful paste injection writes back to the clipboard: the entry
/// that becomes the new front, if any.
pub open spec fn cycle_write(pre: EngineModel) -> Option<SnapshotModel> {
    if pre.history.len() > 1 {
        Some(pre.history[1])
    } else {
        None
    }
}

/// The engine state: the history, the pending self-write and the
/// suppression flag, together with the classifier threshold.
pub struct EngineState {
    /// Bounded history of confirmed distinct snapshots.
    pub history: HistoryStore,
    /// Content the engine itself last wrote to the clipboard, if any.
    pub last_internal_update: Option<Snapshot>,
    /// Whether the next clipboard-changed notification is to be discarded.
    pub skip_clipboard: bool,
    /// Similarity threshold handed to the classifier.
    pub threshold: u8,
}

impl View for EngineState {
    type V = EngineModel;

    open spec fn view(&self) -> EngineModel {
        EngineModel {
            history: self.history@,
            max_history: self.history.cap(),
            pending: self.last_internal_update.deep_view(),
            skip: self.skip_clipboard,
            threshold: self.threshold,
        }
    }
}

impl EngineState {
    /// Well-formed: the history respects its capacity.
    pub open spec fn wf(&self) -> bool {
        self.history.wf()
    }

    /// A fresh engine: empty history of the given capacity, no pending
    /// self-write, no suppression.
    pub fn new(max_history: usize, threshold: u8) -> (r: EngineState)
        requires
            max_history >= 1,
        ensures
            r.wf(),
            r@.history == Seq::<SnapshotModel>::empty(),
            r@.max_history == max_history,
            r@.pending is None,
            !r@.skip,
            r@.threshold == threshold,
    {
        EngineState {
            history: HistoryStore::new(max_history),
            last_internal_update: None,
            skip_clipboard: false,
            threshold,
        }
    }

    /// Handle one clipboard-changed notification whose captured snapshot is
    /// `cb_data`.
    pub fn on_clipboard_change(&mut self, cb_data: Snapshot)
        requires
            old(self).wf(),
        ensures
            final(self).wf(),
            final(self)@ == clipboard_change_step(old(self)@, cb_data.deep_view()),
    {
        if self.skip_clipboard {
            self.skip_clipboard = false;
            proof {
                assert(self@ =~= clipboard_change_step(old(self)@, cb_data.deep_view()));
            }
            return;
        }
        if cb_data.len() == 0 {
            proof {
                assert(self@ =~= clipboard_change_step(old(self)@, cb_data.deep_view()));
            }
            return;
        }
        let prev_sim = match &self.last_internal_update {
            Some(last_update) => compare_data(&cb_data, last_update, self.threshold),
            None => ComparisonResult::Different,
        };
        let curr_sim = match self.history.front() {
            Some(last_update) => compare_data(&cb_data, last_update, self.threshold),
            None => ComparisonResult::Different,
        };
        match (prev_sim, curr_sim) {
            (_, ComparisonResult::Same) | (ComparisonResult::Same, _) => {},
            (_, ComparisonResult::Similar) | (ComparisonResult::Similar, _) => {
                self.history.replace_front(cb_data);
                self.last_internal_update = None;
            },
            (ComparisonResult::Different, ComparisonResult::Different) => {
                self.history.push_front(cb_data);
                self.last_internal_update = None;
            },
        }
        proof {
            assert(self@ =~= clipboard_change_step(old(self)@, cb_data.deep_view()));
        }
    }

    /// Handle one successful paste injection: move the history front into
    /// the pending self-write and, when an entry is left in front, arm
    /// suppression and hand back a copy of that entry for the caller to
    /// write to the clipboard (best effort).
    pub fn on_paste_injected(&mut self) -> (r: Option<Snapshot>)
        requires
            old(self).wf(),
        ensures
            final(self).wf(),
            final(self)@ == cycle_step(old(self)@),
            r.deep_view() == cycle_write(old(self)@),
    {
        let popped = self.history.pop_front();
        self.last_internal_update = popped;
        let next = match self.history.front() {
            Some(front_item) => Some(clone_snapshot(front_item)),
            None => None,
        };
        match next {
            Some(s) => {
                self.skip_clipboard = true;
                proof {
                    assert(self@ =~= cycle_step(old(self)@));
                }
                Some(s)
            },
            None => {
                proof {
                    assert(self@ =~= cycle_step(old(self)@));
                }
                None
            },
        }
    }
}

/// A suppressed notification only clears the suppression flag: history,
/// pending self-write and configuration stay as they were.
pub proof fn lemma_change_suppressed(pre: EngineModel, snap: SnapshotModel)
    requires
        pre.skip,
    ensures
        clipboard_change_step(pre, snap) == (EngineModel { skip: false, ..pre }),
{
    assert(clipboard_change_step(pre, snap) =~= (EngineModel { skip: false, ..pre }));
}

/// A snapshot that classifies `Same` against the history front (or against
/// the pending self-write) leaves the whole engine state unchanged.
pub proof fn lemma_change_same_is_noop(pre: EngineModel, snap: SnapshotModel)
    requires
        !pre.skip,
        snap.len() > 0,
        (pre.history.len() > 0 && spec_classify(snap, pre.history[0], pre.threshold)
            == ComparisonResult::Same) || classify_or_different(snap, pre.pending, pre.threshold)
            == ComparisonResult::Same,
    ensures
        clipboard_change_step(pre, snap) == pre,
{
}

/// A snapshot that classifies `Similar` against the history front (while
/// the pending self-write does not claim it as `Same`) replaces only the
/// front entry; the length is unchanged.
pub proof fn lemma_change_similar_replaces_front(pre: EngineModel, snap: SnapshotModel)
    requires
        !pre.skip,
        snap.len() > 0,
        pre.history.len() > 0,
        spec_classify(snap, pre.history[0], pre.threshold) == ComparisonResult::Similar,
        classify_or_different(snap, pre.pending, pre.threshold) != ComparisonResult::Same,
    ensures
        clipboard_change_step(pre, snap).history == pre.history.update(0, snap),
        clipboard_change_step(pre, snap).history.len() == pre.history.len(),
        clipboard_change_step(pre, snap).history[0] == snap,
        forall|i: int| 1 <= i < pre.history.len() ==> clipboard_change_step(pre, snap).history[i]
            == pre.history[i],
{
}

/// A snapshot that classifies `Different` both against the history front
/// and against the pending self-write is pushed: the length grows by one
/// (capped at the capacity), the new snapshot is the front, and the previous
/// front is now second.
pub proof fn lemma_change_different_pushes(pre: EngineModel, snap: SnapshotModel)
    requires
        !pre.skip,
        snap.len() > 0,
        pre.history.len() <= pre.max_history,
        pre.max_history >= 1,
        classify_or_different(snap, pre.pending, pre.threshold) == ComparisonResult::Different,
        pre.history.len() == 0 || spec_classify(snap, pre.history[0], pre.threshold)
            == ComparisonResult::Different,
    ensures
        clipboard_change_step(pre, snap).history.len() == (if pre.history.len() + 1
            <= pre.max_history {
            pre.history.len() + 1
        } else {
            pre.max_history
        }),
        clipboard_change_step(pre, snap).history[0] == snap,
        pre.history.len() >= 1 && pre.max_history >= 2 ==> clipboard_change_step(pre, snap)
            .history[1] == pre.history[0],
{
    crate::history::lemma_bounded_push_len(pre.history, snap, pre.max_history);
}

/// Cycling with an empty history is a no-op: nothing is written to the
/// clipboard, the history stays empty, no suppression is armed.
pub proof fn lemma_cycle_empty_is_noop(pre: EngineModel)
    requires
        pre.history.len() == 0,
    ensures
        cycle_step(pre).history == pre.history,
        cycle_step(pre).skip == pre.skip,
        cycle_step(pre).pending is None,
        cycle_write(pre) is None,
{
}

/// The engine after `k` successive hotkey cycles.
pub open spec fn cycle_many(pre: EngineModel, k: nat) -> EngineModel
    decreases k,
{
    if k == 0 {
        pre
    } else {
        cycle_many(cycle_step(pre), (k - 1) as nat)
    }
}

/// Cycling `k` times through a history of length at least `k`, with no
/// intervening distinct clipboard change, removes exactly the first `k`
/// entries; the pending self-write is then the `k`-th most recent entry,
/// and the last cycle wrote the `(k+1)`-th most recent entry to the
/// clipboard (no write when the store ran out).
pub proof fn lemma_cycle_many(pre: EngineModel, k: nat)
    requires
        k <= pre.history.len(),
    ensures
        cycle_many(pre, k).history == pre.history.skip(k as int),
        cycle_many(pre, k).history.len() == pre.history.len() - k,
        k >= 1 ==> cycle_many(pre, k).pending == Some(pre.history[k - 1]),
        k >= 1 && k < pre.history.len() ==> cycle_write(cycle_many(pre, (k - 1) as nat)) == Some(
            pre.history[k as int],
        ),
        k >= 1 && k == pre.history.len() ==> cycle_write(cycle_many(pre, (k - 1) as nat)) is None,
    decreases k,
{
    if k == 0 {
        assert(pre.history.skip(0) =~= pre.history);
    } else {
        let next = cycle_step(pre);
        assert(next.history =~= pre.history.skip(1));
        lemma_cycle_many(next, (k - 1) as nat);
        assert(next.history.skip(k - 1) =~= pre.history.skip(k as int));
        if k >= 2 {
            assert(next.history[k - 2] == pre.history[k - 1]);
        }
    }
}

} // verus!
