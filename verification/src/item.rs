//! Clipboard items and snapshots: the data the engine works on.

use vstd::prelude::*;

verus! {

/// One representation of the clipboard's content: a format identifier
/// together with the raw bytes the clipboard held for that format.
#[derive(Debug, PartialEq, Eq, Clone)]
pub struct ClipboardItem {
    pub format: u32,
    pub content: Vec<u8>,
}

/// Mathematical model of one clipboard item: the format identifier paired
/// with the byte sequence.
pub type ItemModel = (u32, Seq<u8>);

/// A snapshot: every per-format payload captured from one clipboard-changed
/// notification. An empty snapshot stands for "nothing readable".
pub type Snapshot = Vec<ClipboardItem>;

/// Mathematical model of a snapshot.
pub type SnapshotModel = Seq<ItemModel>;

impl View for ClipboardItem {
    type V = ItemModel;

    open spec fn view(&self) -> ItemModel {
        (self.format, self.content@)
    }
}

impl DeepView for ClipboardItem {
    type V = ItemModel;

    open spec fn deep_view(&self) -> ItemModel {
        self.view()
    }
}

/// Byte-for-byte equality of two buffers.
pub fn bytes_equal(a: &Vec<u8>, b: &Vec<u8>) -> (r: bool)
    ensures
        r == (a@ == b@),
{
    if a.len() != b.len() {
        return false;
    }
    let mut i: usize = 0;
    while i < a.len()
        invariant
            i <= a.len(),
            a@.len() == b@.len(),
            forall|k: int| 0 <= k < i ==> a@[k] == b@[k],
        decreases a.len() - i,
    {
        if a[i] != b[i] {
            return false;
        }
        i += 1;
    }
    proof {
        assert(a@ =~= b@);
    }
    true
}

/// Copy of a byte buffer.
pub fn clone_bytes(src: &Vec<u8>) -> (r: Vec<u8>)
    ensures
        r@ == src@,
{
    let mut out: Vec<u8> = Vec::new();
    let mut i: usize = 0;
    while i < src.len()
        invariant
            i <= src.len(),
            out@ == src@.take(i as int),
        decreases src.len() - i,
    {
        out.push(src[i]);
        i += 1;
        proof {
            assert(src@.take(i as int) =~= src@.take(i - 1).push(src@[i - 1]));
        }
    }
    proof {
        assert(src@.take(src@.len() as int) =~= src@);
    }
    out
}

/// Copy of a snapshot: every item, format and content alike.
pub fn clone_snapshot(src: &Snapshot) -> (r: Snapshot)
    ensures
        r.deep_view() == src.deep_view(),
{
    let mut out: Snapshot = Vec::new();
    let mut i: usize = 0;
    while i < src.len()
        invariant
            i <= src.len(),
            out.deep_view() =~= src.deep_view().take(i as int),
        decreases src.len() - i,
    {
        let ghost pre = out.deep_view();
        let content = clone_bytes(&src[i].content);
        let item = ClipboardItem { format: src[i].format, content };
        proof {
            assert(item.deep_view() == src.deep_view()[i as int]);
        }
        out.push(item);
        i += 1;
        proof {
            assert(out.deep_view() =~= pre.push(src.deep_view()[i - 1]));
            assert(pre.push(src.deep_view()[i - 1]) =~= src.deep_view().take(i as int));
        }
    }
    proof {
        assert(src.deep_view().take(src.deep_view().len() as int) =~= src.deep_view());
        assert(out.deep_view() =~= src.deep_view());
    }
    out
}

} // verus!
