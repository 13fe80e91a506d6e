use rmail::state::{AppState, FocusedPane};
use rmail::types::{Label, LoadingStage, Message, MessageHeadersDisplay};
use rmail::ui::{available_width, body_cursor_offset, content_text, date_line_of, header_text};
use rmail::ui::{help_text, label_item, loading_message, message_item, scroll_text};
use rmail::ui::{send_button_text, side_margin};

fn msg(id: Option<&str>, snippet: Option<&str>) -> Message {
    Message {
        id: id.map(|i| i.to_string()),
        snippet: snippet.map(|s| s.to_string()),
        payload: None,
        thread_id: None,
        label_ids: None,
    }
}

#[test]
fn list_item_shows_headers_where_they_are_known() {
    let mut state = AppState::new("t".to_string());
    state.messages = vec![msg(Some("a"), Some("snip a")), msg(Some("b"), None), msg(None, Some("s"))];
    state.message_headers.insert("a".to_string(), ("Hello".to_string(), "x@y".to_string()));
    assert_eq!(
        message_item(&state, 0, "Jun 10", 30),
        format!("From: x@y{}Jun 10\nSubject: Hello", " ".repeat(15))
    );
    assert_eq!(message_item(&state, 0, "Jun 10", 15), "From: x@y Jun 10\nSubject: Hello");
    assert_eq!(message_item(&state, 0, "Jun 10", 16), "From: x@y Jun 10\nSubject: Hello");
    assert_eq!(message_item(&state, 0, "Jun 10", 17), "From: x@y  Jun 10\nSubject: Hello");
    assert_eq!(message_item(&state, 0, "", 0), "From: x@y \nSubject: Hello");
    assert_eq!(message_item(&state, 1, "Jun 10", 30), "#2: (no snippet)");
    assert_eq!(message_item(&state, 2, "", 30), "#3: s");
    assert_eq!(message_item(&state, 3, "", 30), "");
    state.message_headers.insert("".to_string(), ("S".to_string(), "F".to_string()));
    assert_eq!(message_item(&state, 2, "d", 9), "From: F d\nSubject: S");
}

#[test]
fn list_item_numbers_are_decimal() {
    let mut state = AppState::new("t".to_string());
    state.messages = (0..120).map(|_| msg(Some("m"), Some("x"))).collect();
    assert_eq!(message_item(&state, 0, "", 0), "#1: x");
    assert_eq!(message_item(&state, 8, "", 0), "#9: x");
    assert_eq!(message_item(&state, 9, "", 0), "#10: x");
    assert_eq!(message_item(&state, 99, "", 0), "#100: x");
    assert_eq!(message_item(&state, 108, "", 0), "#109: x");
}

#[test]
fn date_lines_come_from_the_bodies_cache() {
    let mut state = AppState::new("t".to_string());
    state.messages = vec![msg(Some("a"), None), msg(None, None)];
    assert_eq!(date_line_of(&state, 0), None);
    state.message_bodies.insert("a_date".to_string(), "Tue".to_string());
    state.message_bodies.insert("_date".to_string(), "Wed".to_string());
    state.message_bodies.insert("a".to_string(), "body".to_string());
    assert_eq!(date_line_of(&state, 0), Some("Tue".to_string()));
    assert_eq!(date_line_of(&state, 1), Some("Wed".to_string()));
    assert_eq!(date_line_of(&state, 2), None);
}

#[test]
fn widths_and_margins() {
    assert_eq!(available_width(0), 0);
    assert_eq!(available_width(5), 0);
    assert_eq!(available_width(6), 0);
    assert_eq!(available_width(46), 40);
    assert_eq!(side_margin(60), 20);
    assert_eq!(side_margin(85), 7);
    assert_eq!(side_margin(100), 0);
    assert_eq!(side_margin(0), 50);
    assert_eq!(side_margin(101), 0);
}

#[test]
fn header_panel_lists_the_four_lines() {
    let shown = Some(MessageHeadersDisplay {
        subject: "S".to_string(),
        from: "F".to_string(),
        to: "T".to_string(),
        date: "raw".to_string(),
    });
    assert_eq!(header_text(&shown, "Jun 10, 2025"), "From: F\nTo: T\nDate: Jun 10, 2025\nSubject: S");
    assert_eq!(header_text(&None, "x"), "No message selected or headers loaded.");
    assert_eq!(label_item(&Label { id: None, name: Some("Inbox".to_string()) }), "Inbox");
    assert_eq!(label_item(&Label { id: Some("x".to_string()), name: None }), "(unnamed)");
}

#[test]
fn content_is_scrolled_by_lines() {
    assert_eq!(scroll_text("a\nb\r\nc", 0), "a\nb\nc");
    assert_eq!(scroll_text("a\nb\r\nc\n", 1), "b\nc");
    assert_eq!(scroll_text("a\nb\nc", 2), "c");
    assert_eq!(scroll_text("a\nb\nc", 3), "");
    assert_eq!(scroll_text("", 0), "");
    assert_eq!(scroll_text("\n\nx", 1), "\nx");
    assert_eq!(scroll_text("only", usize::MAX), "");
    assert_eq!(scroll_text("a\r", 0), "a\r");
    assert_eq!(scroll_text("a\r\n", 0), "a");
    assert_eq!(scroll_text("a\rb\n\r\nc", 0), "a\rb\n\nc");
    let mut state = AppState::new("t".to_string());
    assert_eq!(content_text(&state), "No message selected");
    state.messages = vec![msg(Some("a"), None)];
    assert_eq!(content_text(&state), "Press Enter to load message body...");
    state.message_bodies.insert("a".to_string(), "one\ntwo\nthree".to_string());
    state.content_scroll_offset = 1;
    assert_eq!(content_text(&state), "two\nthree");
    state.content_scroll_offset = 5;
    assert_eq!(content_text(&state), "");
    state.selected_message = 1;
    state.content_scroll_offset = 1;
    assert_eq!(content_text(&state), "");
}

#[test]
fn body_cursor_is_placed_by_line() {
    assert_eq!(body_cursor_offset("hello\nworld", 0), (0, 0));
    assert_eq!(body_cursor_offset("hello\nworld", 5), (5, 0));
    assert_eq!(body_cursor_offset("hello\nworld", 6), (0, 1));
    assert_eq!(body_cursor_offset("hello\nworld", 11), (5, 1));
    assert_eq!(body_cursor_offset("hello\nworld", 12), (0, 0));
    assert_eq!(body_cursor_offset("hello\nworld", 20), (8, 0));
    assert_eq!(body_cursor_offset("", 0), (0, 0));
    assert_eq!(body_cursor_offset("", 3), (3, 0));
    assert_eq!(body_cursor_offset("a\n\nb", 2), (0, 1));
    assert_eq!(body_cursor_offset("a\n\nb", 3), (0, 2));
    assert_eq!(body_cursor_offset("\u{e9}x\ny", 4), (0, 1));
}

#[test]
fn fixed_texts() {
    assert_eq!(loading_message(LoadingStage::Authenticating), "🔐 Authenticating with Gmail...");
    assert_eq!(loading_message(LoadingStage::FetchingLabels), "📁 Loading folders...");
    assert_eq!(loading_message(LoadingStage::FetchingMessages), "📧 Loading messages...");
    assert_eq!(loading_message(LoadingStage::Complete), "");
    assert_eq!(send_button_text(true), "Sending...");
    assert_eq!(send_button_text(false), "[ Send Email ]");
    assert_eq!(help_text(FocusedPane::Labels).lines().count(), 4);
    assert_eq!(help_text(FocusedPane::Messages).lines().count(), 5);
    assert_eq!(help_text(FocusedPane::Content).lines().count(), 5);
    assert!(help_text(FocusedPane::Labels).starts_with("j/k or ↑/↓: Navigate up/down through folders"));
    assert!(help_text(FocusedPane::Content).contains("Esc: Back to folders pane"));
}
