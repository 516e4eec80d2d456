use filo_clipboard::engine::EngineState;
use filo_clipboard::item::ClipboardItem;

fn item(format: u32, bytes: &[u8]) -> ClipboardItem {
    ClipboardItem { format, content: bytes.to_vec() }
}

fn snap(text: &[u8]) -> Vec<ClipboardItem> {
    vec![item(1, text)]
}

#[test]
fn identical_copy_twice_keeps_one_entry() {
    // Threshold 230, "hello" copied twice as a single plain-text item: the
    // second notification classifies Same against the front.
    let mut e = EngineState::new(10, 230);
    e.on_clipboard_change(snap(b"hello"));
    assert_eq!(e.history.len(), 1);
    e.on_clipboard_change(snap(b"hello"));
    assert_eq!(e.history.len(), 1);
    assert_eq!(e.history.get(0), &snap(b"hello"));
}

#[test]
fn three_distinct_copies_evict_oldest() {
    // Capacity 2: after copying "a", "b", "c" the history is ["c", "b"].
    let mut e = EngineState::new(2, 230);
    e.on_clipboard_change(snap(b"a"));
    e.on_clipboard_change(snap(b"b"));
    e.on_clipboard_change(snap(b"c"));
    assert_eq!(e.history.len(), 2);
    assert_eq!(e.history.get(0), &snap(b"c"));
    assert_eq!(e.history.get(1), &snap(b"b"));
}

#[test]
fn empty_snapshot_is_discarded() {
    let mut e = EngineState::new(4, 230);
    e.on_clipboard_change(snap(b"a"));
    e.on_clipboard_change(vec![]);
    assert_eq!(e.history.len(), 1);
    assert_eq!(e.history.get(0), &snap(b"a"));
}

#[test]
fn similar_snapshot_replaces_front() {
    // Two formats, one of them changed: 1/2 matching with threshold 100
    // classifies Similar, so the front is replaced and the length is kept.
    let mut e = EngineState::new(4, 100);
    let first = vec![item(1, b"text"), item(2, b"old")];
    let redraw = vec![item(1, b"text"), item(2, b"new")];
    e.on_clipboard_change(snap(b"earlier"));
    e.on_clipboard_change(first);
    assert_eq!(e.history.len(), 2);
    e.on_clipboard_change(redraw.clone());
    assert_eq!(e.history.len(), 2);
    assert_eq!(e.history.get(0), &redraw);
    assert_eq!(e.history.get(1), &snap(b"earlier"));
}

#[test]
fn different_snapshot_pushes_new_front() {
    let mut e = EngineState::new(4, 230);
    e.on_clipboard_change(snap(b"a"));
    e.on_clipboard_change(snap(b"b"));
    assert_eq!(e.history.len(), 2);
    assert_eq!(e.history.get(0), &snap(b"b"));
    assert_eq!(e.history.get(1), &snap(b"a"));
}

#[test]
fn hotkey_cycle_swaps_and_suppresses() {
    // History ["A", "B", "C"] with "A" in front: one hotkey press moves "A"
    // into the pending self-write, writes "B" to the clipboard and arms
    // suppression; the echoed notification for "B" is discarded and the
    // history is then ["B", "C"].
    let mut e = EngineState::new(10, 230);
    e.on_clipboard_change(snap(b"C"));
    e.on_clipboard_change(snap(b"B"));
    e.on_clipboard_change(snap(b"A"));
    let written = e.on_paste_injected();
    assert_eq!(written, Some(snap(b"B")));
    assert_eq!(e.last_internal_update, Some(snap(b"A")));
    assert!(e.skip_clipboard);
    e.on_clipboard_change(snap(b"B"));
    assert!(!e.skip_clipboard);
    assert_eq!(e.history.len(), 2);
    assert_eq!(e.history.get(0), &snap(b"B"));
    assert_eq!(e.history.get(1), &snap(b"C"));
}

#[test]
fn cycling_walks_history_until_empty() {
    let mut e = EngineState::new(10, 230);
    e.on_clipboard_change(snap(b"B"));
    e.on_clipboard_change(snap(b"A"));
    let first = e.on_paste_injected();
    assert_eq!(first, Some(snap(b"B")));
    assert_eq!(e.history.len(), 1);
    e.on_clipboard_change(snap(b"B"));
    let second = e.on_paste_injected();
    assert_eq!(second, None);
    assert_eq!(e.history.len(), 0);
    assert_eq!(e.last_internal_update, Some(snap(b"B")));
}

#[test]
fn cycling_empty_history_is_noop() {
    let mut e = EngineState::new(10, 230);
    let written = e.on_paste_injected();
    assert_eq!(written, None);
    assert_eq!(e.history.len(), 0);
    assert_eq!(e.last_internal_update, None);
    assert!(!e.skip_clipboard);
}

#[test]
fn copy_matching_pending_self_write_is_not_recorded() {
    // Cycling a single-entry history leaves the entry only in the pending
    // self-write; copying the same content again classifies Same against it
    // and is not recorded.
    let mut e = EngineState::new(10, 230);
    e.on_clipboard_change(snap(b"A"));
    let written = e.on_paste_injected();
    assert_eq!(written, None);
    assert!(!e.skip_clipboard);
    assert_eq!(e.last_internal_update, Some(snap(b"A")));
    e.on_clipboard_change(snap(b"A"));
    assert_eq!(e.history.len(), 0);
    assert_eq!(e.last_internal_update, Some(snap(b"A")));
}

#[test]
fn similar_to_pending_with_empty_history_stays_empty() {
    // A snapshot similar only to the pending self-write, with an empty
    // history, has no front to replace: the history stays empty and the
    // pending self-write is cleared.
    let mut e = EngineState::new(10, 100);
    let pending = vec![item(1, b"text"), item(2, b"old")];
    let redraw = vec![item(1, b"text"), item(2, b"new")];
    e.on_clipboard_change(pending);
    let written = e.on_paste_injected();
    assert_eq!(written, None);
    e.on_clipboard_change(redraw);
    assert_eq!(e.history.len(), 0);
    assert_eq!(e.last_internal_update, None);
}
