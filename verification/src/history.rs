//! The bounded, most-recent-first history of snapshots.

use std::collections::VecDeque;

use vstd::prelude::*;

use crate::item::{Snapshot, SnapshotModel};

verus! {

/// A push to the front of a bounded history: the new entry goes in front and
/// the sequence is truncated from the back to `max` entries.
pub open spec fn bounded_push(h: Seq<SnapshotModel>, s: SnapshotModel, max: nat) -> Seq<
    SnapshotModel,
> {
    let grown = seq![s] + h;
    if grown.len() <= max {
        grown
    } else {
        grown.take(max as int)
    }
}

/// After a bounded push the history never exceeds its capacity.
pub proof fn lemma_bounded_push_len(h: Seq<SnapshotModel>, s: SnapshotModel, max: nat)
    requires
        h.len() <= max,
        max >= 1,
    ensures
        bounded_push(h, s, max).len() <= max,
        bounded_push(h, s, max).len() == (if h.len() + 1 <= max {
            h.len() + 1
        } else {
            max
        }),
        bounded_push(h, s, max)[0] == s,
        forall|i: int| 1 <= i < bounded_push(h, s, max).len() ==> bounded_push(h, s, max)[i] == h[i
            - 1],
{
}

/// Bounded, ordered collection of snapshots; the front (index 0) is the most
/// recently confirmed distinct content.
pub struct HistoryStore {
    items: VecDeque<Snapshot>,
    max_history: usize,
}

impl View for HistoryStore {
    type V = Seq<SnapshotModel>;

    closed spec fn view(&self) -> Seq<SnapshotModel> {
        self.items.deep_view()
    }
}

impl HistoryStore {
    /// The configured capacity.
    pub closed spec fn cap(&self) -> nat {
        self.max_history as nat
    }

    /// Well-formed: positive capacity, never more entries than the capacity.
    pub open spec fn wf(&self) -> bool {
        self.cap() >= 1 && self@.len() <= self.cap()
    }

    /// An empty history with the given capacity.
    pub fn new(max_history: usize) -> (r: HistoryStore)
        requires
            max_history >= 1,
        ensures
            r.wf(),
            r.cap() == max_history,
            r@ == Seq::<SnapshotModel>::empty(),
    {
        let r = HistoryStore { items: VecDeque::new(), max_history };
        proof {
            assert(r@ =~= Seq::<SnapshotModel>::empty());
        }
        r
    }

    /// The configured capacity.
    pub fn capacity(&self) -> (r: usize)
        ensures
            r == self.cap(),
    {
        self.max_history
    }

    /// How many snapshots the history currently holds.
    pub fn len(&self) -> (r: usize)
        ensures
            r == self@.len(),
    {
        self.items.len()
    }

    /// Peek the most recent snapshot without touching the history.
    pub fn front(&self) -> (r: Option<&Snapshot>)
        ensures
            match r {
                Some(s) => self@.len() > 0 && s.deep_view() == self@[0],
                None => self@.len() == 0,
            },
    {
        if self.items.len() > 0 {
            Some(&self.items[0])
        } else {
            None
        }
    }

    /// The snapshot at position `i`, front first.
    pub fn get(&self, i: usize) -> (r: &Snapshot)
        requires
            i < self@.len(),
        ensures
            r.deep_view() == self@[i as int],
    {
        &self.items[i]
    }

    /// Insert a snapshot as the most recent entry, then truncate from the
    /// back so the capacity is kept.
    pub fn push_front(&mut self, s: Snapshot)
        requires
            old(self).wf(),
        ensures
            final(self).wf(),
            final(self).cap() == old(self).cap(),
            final(self)@ == bounded_push(old(self)@, s.deep_view(), old(self).cap()),
    {
        let ghost snap = s.deep_view();
        let ghost pre = self.items.deep_view();
        self.items.push_front(s);
        proof {
            assert(self.items.deep_view() =~= seq![snap] + pre);
        }
        let ghost grown = self.items.deep_view();
        self.items.truncate(self.max_history);
        proof {
            if grown.len() <= self.max_history {
                assert(self.items.deep_view() =~= grown);
            } else {
                assert(self.items.deep_view() =~= grown.take(self.max_history as int));
            }
        }
    }

    /// Overwrite the most recent entry; a no-op when the history is empty.
    pub fn replace_front(&mut self, s: Snapshot)
        requires
            old(self).wf(),
        ensures
            final(self).wf(),
            final(self).cap() == old(self).cap(),
            final(self)@ == (if old(self)@.len() > 0 {
                old(self)@.update(0, s.deep_view())
            } else {
                old(self)@
            }),
    {
        let ghost pre = self.items.deep_view();
        if self.items.len() > 0 {
            let _ = self.items.pop_front();
            proof {
                assert(self.items.deep_view() =~= pre.drop_first());
            }
            let ghost rest = self.items.deep_view();
            self.items.push_front(s);
            proof {
                assert(self.items.deep_view() =~= seq![s.deep_view()] + rest);
                assert(seq![s.deep_view()] + pre.drop_first() =~= pre.update(0, s.deep_view()));
            }
        }
    }

    /// Remove and return the most recent entry; the next entry, if any,
    /// becomes the front.
    pub fn pop_front(&mut self) -> (r: Option<Snapshot>)
        requires
            old(self).wf(),
        ensures
            final(self).wf(),
            final(self).cap() == old(self).cap(),
            match r {
                Some(s) => old(self)@.len() > 0 && s.deep_view() == old(self)@[0] && final(self)@
                    == old(self)@.drop_first(),
                None => old(self)@.len() == 0 && final(self)@ == old(self)@,
            },
    {
        let ghost pre = self.items.deep_view();
        let r = self.items.pop_front();
        proof {
            if pre.len() > 0 {
                assert(self.items.deep_view() =~= pre.drop_first());
            } else {
                assert(self.items.deep_view() =~= pre);
            }
        }
        r
    }
}

} // verus!
