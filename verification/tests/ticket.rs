use alter_sendme::ticket::{
    byte_to_utf16_range, trim_whitespace, utf16_to_byte_range, TicketInput, MAX_TICKET_LEN,
};

#[test]
fn utf16_ranges_handle_non_bmp_ticket_text() {
    let text = "a😀b";
    assert_eq!(utf16_to_byte_range(text, 1..3), 1..5);
    assert_eq!(byte_to_utf16_range(text, 1..5), 1..3);
}

#[test]
fn utf16_offsets_round_up_and_cap() {
    let text = "a😀b";
    assert_eq!(utf16_to_byte_range(text, 2..2), 5..5);
    assert_eq!(utf16_to_byte_range(text, 0..99), 0..6);
    assert_eq!(utf16_to_byte_range("", 3..4), 0..0);
    assert_eq!(utf16_to_byte_range("héllo", 2..5), 3..6);
    assert_eq!(byte_to_utf16_range("héllo", 3..6), 2..5);
}

#[test]
fn typing_replaces_the_selection_and_moves_the_caret() {
    let mut input = TicketInput::new();
    input.replace(None, "abc");
    assert_eq!(input.as_str(), "abc");
    assert_eq!(input.selection(), 3..3);
    input.replace(Some(1..2), "ZZ");
    assert_eq!(input.as_str(), "aZZc");
    assert_eq!(input.selection(), 3..3);
    input.replace(Some(3..1), "x");
    assert_eq!(input.as_str(), "aZZc");
    assert_eq!(input.selected_utf16_range(), 3..3);
    assert_eq!(input.utf16_count(), 4);
}

#[test]
fn edits_past_the_length_limit_are_dropped() {
    let mut input = TicketInput::new();
    let long = "x".repeat(MAX_TICKET_LEN);
    input.replace(None, &long);
    assert_eq!(input.as_str().len(), MAX_TICKET_LEN);
    input.replace(None, "y");
    assert_eq!(input.as_str().len(), MAX_TICKET_LEN);
    input.replace(Some(0..1), "y");
    assert!(input.as_str().starts_with('y'));
}

#[test]
fn pasting_and_marking_set_the_selection() {
    let mut input = TicketInput::new();
    input.paste("😀😀".to_string());
    assert_eq!(input.selection(), 8..8);
    assert_eq!(input.selected_utf16_range(), 4..4);
    input.replace_and_mark(Some(0..2), "é", Some(0..1));
    assert_eq!(input.as_str(), "é😀");
    assert_eq!(input.selection(), 0..2);
    let (text, adjusted) = input.text_for_range(1..2);
    assert_eq!(text, Some("😀".to_string()));
    assert_eq!(adjusted, 1..3);
    let (none, _) = input.text_for_range(3..1);
    assert_eq!(none, None);
}

#[test]
fn clearing_keeps_a_stale_selection() {
    let mut input = TicketInput::new();
    input.paste("abcdef".to_string());
    input.clear();
    assert_eq!(input.as_str(), "");
    assert_eq!(input.selection(), 6..6);
    assert!(!input.selection_in_bounds());
    input.replace(None, "q");
    assert_eq!(input.as_str(), "q");
    assert_eq!(input.selection(), 1..1);
    assert!(input.selection_in_bounds());
}

#[test]
fn trimming_removes_unicode_white_space() {
    assert_eq!(trim_whitespace("  ticket\t\n"), "ticket");
    assert_eq!(trim_whitespace("\u{3000}a b\u{2009}"), "a b");
    assert_eq!(trim_whitespace(" \u{85} "), "");
    let mut input = TicketInput::new();
    input.paste(" sendme \n".to_string());
    assert_eq!(input.trimmed(), "sendme");
}
