//! Plain-text extraction from a snapshot: the payload of the plain-text
//! clipboard format, decoded as UTF-8.

use vstd::prelude::*;

use crate::item::{clone_bytes, Snapshot, SnapshotModel};

verus! {

/// Format identifier of the plain-text clipboard format.
pub const CF_TEXT: u32 = 1;

/// What decoding a byte sequence as UTF-8 yields: the character sequence
/// when the bytes are valid UTF-8, nothing otherwise. The result depends on
/// the bytes alone.
pub uninterp spec fn utf8_decode(bytes: Seq<u8>) -> Option<Seq<char>>;

/// Relies on String::from_utf8: returns the string holding exactly the
/// given bytes when they are valid UTF-8, and an error otherwise; the
/// outcome depends on the bytes alone.
#[verifier::external_body]
fn decode_utf8(bytes: Vec<u8>) -> (r: Option<String>)
    ensures
        match r {
            Some(s) => utf8_decode(bytes@) == Some(s@),
            None => utf8_decode(bytes@) is None,
        },
{
    String::from_utf8(bytes).ok()
}

/// The content bytes of the first plain-text item of a snapshot, if any.
pub open spec fn spec_text_content(items: SnapshotModel) -> Option<Seq<u8>>
    decreases items.len(),
{
    if items.len() == 0 {
        None
    } else if items[0].0 == CF_TEXT {
        Some(items[0].1)
    } else {
        spec_text_content(items.drop_first())
    }
}

/// The plain text of a snapshot: the decoded bytes of its first plain-text
/// item, or the empty text when it has none.
pub open spec fn spec_cb_text(items: SnapshotModel) -> Seq<char> {
    match spec_text_content(items) {
        Some(bytes) => match utf8_decode(bytes) {
            Some(s) => s,
            None => Seq::<char>::empty(),
        },
        None => Seq::<char>::empty(),
    }
}

/// A copy of the content bytes of the first plain-text item, if any.
fn find_text_content(cb_data: &Snapshot) -> (r: Option<Vec<u8>>)
    ensures
        match r {
            Some(bytes) => spec_text_content(cb_data.deep_view()) == Some(bytes@),
            None => spec_text_content(cb_data.deep_view()) is None,
        },
{
    let mut i: usize = 0;
    proof {
        assert(cb_data.deep_view().skip(0) =~= cb_data.deep_view());
    }
    while i < cb_data.len()
        invariant
            i <= cb_data.len(),
            spec_text_content(cb_data.deep_view()) == spec_text_content(
                cb_data.deep_view().skip(i as int),
            ),
        decreases cb_data.len() - i,
    {
        proof {
            assert(cb_data.deep_view().skip(i as int)[0] == cb_data.deep_view()[i as int]);
        }
        if cb_data[i].format == CF_TEXT {
            return Some(clone_bytes(&cb_data[i].content));
        }
        i += 1;
        proof {
            assert(cb_data.deep_view().skip(i - 1).drop_first() =~= cb_data.deep_view().skip(
                i as int,
            ));
        }
    }
    None
}

/// The plain text a snapshot carries: the decoded payload of its first
/// plain-text item, or the empty string when it has none. The snapshot must
/// not carry a plain-text payload that is invalid UTF-8.
pub fn get_cb_text(cb_data: &Snapshot) -> (r: String)
    requires
        match spec_text_content(cb_data.deep_view()) {
            Some(bytes) => utf8_decode(bytes) is Some,
            None => true,
        },
    ensures
        r@ == spec_cb_text(cb_data.deep_view()),
{
    match find_text_content(cb_data) {
        Some(bytes) => match decode_utf8(bytes) {
            Some(s) => s,
            None => {
                proof {
                    assert(false);
                }
                String::new()
            },
        },
        None => String::new(),
    }
}

/// The plain text a snapshot carries, or nothing when its plain-text
/// payload is not valid UTF-8.
pub fn try_get_cb_text(cb_data: &Snapshot) -> (r: Option<String>)
    ensures
        match spec_text_content(cb_data.deep_view()) {
            Some(bytes) => match utf8_decode(bytes) {
                Some(text) => r matches Some(s) && s@ == text,
                None => r is None,
            },
            None => r matches Some(s) && s@ == Seq::<char>::empty(),
        },
{
    match find_text_content(cb_data) {
        Some(bytes) => match decode_utf8(bytes) {
            Some(_) => Some(get_cb_text(cb_data)),
            None => None,
        },
        None => Some(get_cb_text(cb_data)),
    }
}

} // verus!
