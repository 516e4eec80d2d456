//! The snapshot classifier: decides whether a freshly captured snapshot is
//! the same content as a reference snapshot, a minor redraw of it, or a true
//! change.

use vstd::prelude::*;

use crate::item::{ClipboardItem, ItemModel, Snapshot, SnapshotModel};
use crate::item::bytes_equal;

verus! {

/// Default similarity threshold: the weighted fraction of matching formats,
/// out of 255, that a snapshot must reach to count as a redraw of the
/// reference rather than new content.
pub const SIMILARITY_THRESHOLD: u8 = 230;

/// Three-way verdict of the classifier.
#[derive(Debug, PartialEq, Eq, Structural, Clone, Copy)]
pub enum ComparisonResult {
    Same,
    Similar,
    Different,
}

/// Whether the first item of `prev` that carries `x`'s format also carries
/// `x`'s exact bytes. False when no item of `prev` has that format.
pub open spec fn item_matches(x: ItemModel, prev: SnapshotModel) -> bool
    decreases prev.len(),
{
    if prev.len() == 0 {
        false
    } else if prev[0].0 == x.0 {
        prev[0].1 == x.1
    } else {
        item_matches(x, prev.drop_first())
    }
}

/// How many items of `a` are matched in `prev` (format present with
/// byte-identical content).
pub open spec fn match_count(a: SnapshotModel, prev: SnapshotModel) -> nat
    decreases a.len(),
{
    if a.len() == 0 {
        0nat
    } else {
        match_count(a.drop_last(), prev) + (if item_matches(a.last(), prev) {
            1nat
        } else {
            0nat
        })
    }
}

/// The larger of the two snapshot sizes: the denominator of the similarity
/// fraction.
pub open spec fn upper_len(a: SnapshotModel, b: SnapshotModel) -> nat {
    if a.len() >= b.len() {
        a.len()
    } else {
        b.len()
    }
}

/// The classifier verdict, exactly as the engine uses it: both snapshots
/// empty is `Same`; exactly one empty is `Different`; otherwise every item of
/// the larger side matched means `Same`, a matching fraction of at least
/// `threshold / 255` means `Similar`, and anything less means `Different`.
/// The count is always driven by `a`'s items, so the verdict is not
/// symmetric in general.
pub open spec fn spec_classify(a: SnapshotModel, b: SnapshotModel, threshold: u8) -> ComparisonResult {
    if a.len() == 0 && b.len() == 0 {
        ComparisonResult::Same
    } else if a.len() == 0 || b.len() == 0 {
        ComparisonResult::Different
    } else if match_count(a, b) == upper_len(a, b) {
        ComparisonResult::Same
    } else if match_count(a, b) * 255 >= upper_len(a, b) * threshold {
        ComparisonResult::Similar
    } else {
        ComparisonResult::Different
    }
}

/// Whether the first item of `prev` carrying `x`'s format also carries its
/// bytes.
fn item_matched_in(x: &ClipboardItem, prev: &Snapshot) -> (r: bool)
    ensures
        r == item_matches(x.deep_view(), prev.deep_view()),
{
    let mut j: usize = 0;
    proof {
        assert(prev.deep_view().skip(0) =~= prev.deep_view());
    }
    while j < prev.len()
        invariant
            j <= prev.len(),
            item_matches(x.deep_view(), prev.deep_view()) == item_matches(
                x.deep_view(),
                prev.deep_view().skip(j as int),
            ),
        decreases prev.len() - j,
    {
        proof {
            assert(prev.deep_view().skip(j as int)[0] == prev.deep_view()[j as int]);
        }
        if prev[j].format == x.format {
            return bytes_equal(&prev[j].content, &x.content);
        }
        j += 1;
        proof {
            assert(prev.deep_view().skip(j - 1).drop_first() =~= prev.deep_view().skip(j as int));
        }
    }
    false
}

/// Classify a freshly captured snapshot `cb_data` against a reference
/// snapshot `prev_cb_data`.
pub fn compare_data(cb_data: &Snapshot, prev_cb_data: &Snapshot, threshold: u8) -> (r:
    ComparisonResult)
    ensures
        r == spec_classify(cb_data.deep_view(), prev_cb_data.deep_view(), threshold),
{
    if cb_data.len() == 0 && prev_cb_data.len() == 0 {
        return ComparisonResult::Same;
    }
    if cb_data.len() == 0 || prev_cb_data.len() == 0 {
        return ComparisonResult::Different;
    }
    let mut count_eq: usize = 0;
    let mut i: usize = 0;
    while i < cb_data.len()
        invariant
            i <= cb_data.len(),
            count_eq <= i,
            count_eq == match_count(cb_data.deep_view().take(i as int), prev_cb_data.deep_view()),
        decreases cb_data.len() - i,
    {
        let ghost taken = cb_data.deep_view().take(i as int);
        if item_matched_in(&cb_data[i], prev_cb_data) {
            count_eq += 1;
        }
        i += 1;
        proof {
            assert(cb_data.deep_view().take(i as int).drop_last() =~= taken);
            assert(cb_data.deep_view().take(i as int).last() == cb_data.deep_view()[i - 1]);
        }
    }
    proof {
        assert(cb_data.deep_view().take(cb_data.deep_view().len() as int) =~= cb_data.deep_view());
    }
    let max_eq: usize = if cb_data.len() >= prev_cb_data.len() {
        cb_data.len()
    } else {
        prev_cb_data.len()
    };
    proof {
        assert((count_eq as u128) * 255 <= (u64::MAX as u128) * 255) by (nonlinear_arith)
            requires
                count_eq as u128 <= u64::MAX as u128,
        ;
        assert((max_eq as u128) * (threshold as u128) <= (u64::MAX as u128) * 255)
            by (nonlinear_arith)
            requires
                max_eq as u128 <= u64::MAX as u128,
                threshold as u128 <= 255,
        ;
    }
    if count_eq == max_eq {
        ComparisonResult::Same
    } else if (count_eq as u128) * 255 >= (max_eq as u128) * (threshold as u128) {
        ComparisonResult::Similar
    } else {
        ComparisonResult::Different
    }
}

/// Two empty snapshots always classify as `Same`, whatever the threshold.
pub proof fn lemma_classify_both_empty(t: u8)
    ensures
        spec_classify(Seq::<ItemModel>::empty(), Seq::<ItemModel>::empty(), t)
            == ComparisonResult::Same,
{
}

/// An empty snapshot against a non-empty one classifies as `Different` in
/// both directions, whatever the threshold.
pub proof fn lemma_classify_one_empty(s: SnapshotModel, t: u8)
    requires
        s.len() > 0,
    ensures
        spec_classify(Seq::<ItemModel>::empty(), s, t) == ComparisonResult::Different,
        spec_classify(s, Seq::<ItemModel>::empty(), t) == ComparisonResult::Different,
{
}

/// A snapshot holds one item per format: no two items share a format.
pub open spec fn distinct_formats(s: SnapshotModel) -> bool {
    forall|i: int, j: int| 0 <= i < j < s.len() ==> s[i].0 != s[j].0
}

proof fn lemma_item_matches_first(x: ItemModel, prev: SnapshotModel, j: int)
    requires
        0 <= j < prev.len(),
        prev[j].0 == x.0,
        forall|k: int| 0 <= k < j ==> prev[k].0 != x.0,
    ensures
        item_matches(x, prev) == (prev[j].1 == x.1),
    decreases j,
{
    if j > 0 {
        lemma_item_matches_first(x, prev.drop_first(), j - 1);
    }
}

proof fn lemma_match_count_all(a: SnapshotModel, prev: SnapshotModel)
    requires
        forall|i: int| 0 <= i < a.len() ==> item_matches(#[trigger] a[i], prev),
    ensures
        match_count(a, prev) == a.len(),
    decreases a.len(),
{
    if a.len() > 0 {
        lemma_match_count_all(a.drop_last(), prev);
    }
}

/// A non-empty snapshot classifies as `Same` against itself, whatever the
/// threshold.
pub proof fn lemma_classify_self(s: SnapshotModel, t: u8)
    requires
        s.len() > 0,
        distinct_formats(s),
    ensures
        spec_classify(s, s, t) == ComparisonResult::Same,
{
    assert forall|i: int| 0 <= i < s.len() implies item_matches(#[trigger] s[i], s) by {
        lemma_item_matches_first(s[i], s, i);
    }
    lemma_match_count_all(s, s);
}

} // verus!
