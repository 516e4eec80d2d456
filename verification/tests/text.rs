use filo_clipboard::item::ClipboardItem;
use filo_clipboard::text::{get_cb_text, try_get_cb_text, CF_TEXT};

fn item(format: u32, bytes: &[u8]) -> ClipboardItem {
    ClipboardItem { format, content: bytes.to_vec() }
}

#[test]
fn text_of_plain_text_item() {
    let snap = vec![item(7, b"\x00\x01"), item(CF_TEXT, b"hello")];
    assert_eq!(get_cb_text(&snap), "hello".to_string());
}

#[test]
fn text_decodes_multibyte_utf8() {
    let snap = vec![item(CF_TEXT, "héllo ✓".as_bytes())];
    assert_eq!(get_cb_text(&snap), "héllo ✓".to_string());
}

#[test]
fn text_of_snapshot_without_text_is_empty() {
    let snap = vec![item(7, b"payload")];
    assert_eq!(get_cb_text(&snap), String::new());
    assert_eq!(try_get_cb_text(&snap), Some(String::new()));
}

#[test]
fn text_of_empty_snapshot_is_empty() {
    let snap: Vec<ClipboardItem> = vec![];
    assert_eq!(get_cb_text(&snap), String::new());
}

#[test]
fn invalid_utf8_text_yields_nothing() {
    let snap = vec![item(CF_TEXT, b"\xff\xfe")];
    assert_eq!(try_get_cb_text(&snap), None);
}

#[test]
fn first_text_item_wins() {
    let snap = vec![item(CF_TEXT, b"first"), item(CF_TEXT, b"second")];
    assert_eq!(try_get_cb_text(&snap), Some("first".to_string()));
}
