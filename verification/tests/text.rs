use codex_gateway::text::{is_blank, same_bytes, same_text, white_space};

#[test]
fn white_space_is_that_of_unicode() {
    for c in '\0'..=char::MAX {
        assert_eq!(white_space(c), c.is_whitespace(), "{c:?}");
    }
}

#[test]
fn blank_texts_leave_nothing() {
    for text in ["", " ", "\t\n\u{3000}\u{a0}", "a", " a ", "\u{200b}"] {
        assert_eq!(is_blank(text), text.trim().is_empty(), "{text:?}");
    }
}

#[test]
fn texts_are_compared_by_content() {
    assert!(same_text("h\u{e9}", "h\u{e9}"));
    assert!(!same_text("a", "b"));
    assert!(!same_text("a", "ab"));
    assert!(same_bytes(b"", b""));
    assert!(!same_bytes(b"a", b"b"));
}
