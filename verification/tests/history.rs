use filo_clipboard::history::HistoryStore;
use filo_clipboard::item::ClipboardItem;

fn snap(text: &[u8]) -> Vec<ClipboardItem> {
    vec![ClipboardItem { format: 1, content: text.to_vec() }]
}

#[test]
fn push_front_keeps_capacity() {
    let mut h = HistoryStore::new(2);
    h.push_front(snap(b"a"));
    h.push_front(snap(b"b"));
    h.push_front(snap(b"c"));
    assert_eq!(h.len(), 2);
    assert_eq!(h.get(0), &snap(b"c"));
    assert_eq!(h.get(1), &snap(b"b"));
}

#[test]
fn push_front_many_never_exceeds_capacity() {
    let mut h = HistoryStore::new(3);
    for i in 0u8..20 {
        h.push_front(snap(&[i]));
        assert!(h.len() <= 3);
    }
    assert_eq!(h.len(), 3);
    assert_eq!(h.get(0), &snap(&[19]));
}

#[test]
fn replace_front_on_empty_is_noop() {
    let mut h = HistoryStore::new(4);
    h.replace_front(snap(b"x"));
    assert_eq!(h.len(), 0);
    assert!(h.front().is_none());
}

#[test]
fn replace_front_replaces_only_front() {
    let mut h = HistoryStore::new(4);
    h.push_front(snap(b"a"));
    h.push_front(snap(b"b"));
    h.replace_front(snap(b"c"));
    assert_eq!(h.len(), 2);
    assert_eq!(h.get(0), &snap(b"c"));
    assert_eq!(h.get(1), &snap(b"a"));
}

#[test]
fn pop_front_returns_most_recent_first() {
    let mut h = HistoryStore::new(4);
    h.push_front(snap(b"a"));
    h.push_front(snap(b"b"));
    assert_eq!(h.pop_front(), Some(snap(b"b")));
    assert_eq!(h.pop_front(), Some(snap(b"a")));
    assert_eq!(h.pop_front(), None);
    assert_eq!(h.len(), 0);
}

#[test]
fn capacity_is_kept() {
    let h = HistoryStore::new(7);
    assert_eq!(h.capacity(), 7);
    assert_eq!(h.len(), 0);
}
