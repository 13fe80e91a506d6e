use rmail::database::Database;
use rmail::gmail_api::labels_of_response;
use rmail::gmail_api::messages::{cached_from_fetched, find_header, header_of, ids_to_fetch};
use rmail::gmail_api::messages::{listing_size, next_page_request, wants_more_messages};
use rmail::gmail_api::operations::{archive_removes, list_url, list_url_for, message_url};
use rmail::gmail_api::operations::{modify_url, trash_url};
use rmail::gmail_api::{build_raw_email, encode_email};
use rmail::gmail_api::{fetch_full_message, fetch_messages_for_label, load_more_messages};
use rmail::state::AppState;
use rmail::types::{Header, Label, LabelsResponse, Message, MessagePart, MessagePartBody, MessageRef};

fn header(name: &str, value: &str) -> Header {
    Header { name: Some(name.to_string()), value: Some(value.to_string()) }
}

fn fetched(id: &str, subject: Option<&str>, from: Option<&str>, date: Option<&str>) -> Message {
    let mut headers = Vec::new();
    if let Some(s) = subject {
        headers.push(header("Subject", s));
    }
    if let Some(f) = from {
        headers.push(header("From", f));
    }
    if let Some(d) = date {
        headers.push(header("Date", d));
    }
    Message {
        id: Some(id.to_string()),
        snippet: Some(format!("snippet {}", id)),
        payload: Some(MessagePart { mime_type: None, headers: Some(headers), body: None, parts: None }),
        thread_id: Some(format!("t_{}", id)),
        label_ids: Some(vec!["INBOX".to_string(), "UNREAD".to_string()]),
    }
}

fn state_with(label_id: &str) -> AppState {
    let mut state = AppState::new("tok".to_string());
    state.labels = vec![Label { id: Some(label_id.to_string()), name: Some("L".to_string()) }];
    state.selected_label = 0;
    state.set_database(Database::new());
    state
}

fn stored_ids(state: &AppState, label: &str) -> Vec<String> {
    state
        .database
        .as_ref()
        .unwrap()
        .get_messages_for_label(label, -1, 0)
        .iter()
        .map(|m| m.id.clone())
        .collect()
}

#[test]
fn test_error_message_on_api_failure_after_database_removal() {
    let mut state = AppState::new("invalid_token_will_fail".to_string());
    state.set_database(Database::new());
    state.labels = vec![Label { id: Some("INBOX".to_string()), name: Some("Inbox".to_string()) }];
    state.selected_label = 0;
    state.update_label_state();
    state.load_messages_from_cache("INBOX");
    assert!(state.messages.is_empty(), "Messages should be empty when cache is empty");
    assert!(state.error_message.is_none(), "No error message should be set from empty cache");
    fetch_messages_for_label(&mut state, None, 1_000);
    assert!(state.error_message.is_some(), "Error message should be set after API failure");
    let error_msg = state.error_message.as_ref().unwrap();
    assert!(
        error_msg.contains("Failed to fetch messages"),
        "Error message should mention fetch failure"
    );
    assert_eq!(
        error_msg,
        "Failed to fetch messages. Please check your internet connection and try again."
    );
    assert!(state.messages.is_empty(), "Messages should remain empty after API failure");
    assert_eq!(state.selected_message, 0, "Selected message should remain 0");
    assert!(state.message_headers.is_empty(), "Message headers should remain empty");
    assert!(state.database.as_ref().unwrap().get_sync_state("INBOX").is_none());
}

#[test]
fn test_message_fetch_error_handling() {
    let mut state = AppState::new("invalid_token".to_string());
    state.labels = vec![Label { id: Some("INBOX".to_string()), name: Some("Inbox".to_string()) }];
    state.selected_label = 0;
    state.update_label_state();
    fetch_messages_for_label(&mut state, None, 5);
    assert!(state.messages.is_empty(), "Messages should remain empty after API failure");
    assert_eq!(state.selected_message, 0, "Selected message should remain 0");
}

#[test]
fn test_fetch_messages_for_label_with_empty_response() {
    let mut state = AppState::new("invalid_token".to_string());
    state.labels = vec![Label { id: Some("INBOX".to_string()), name: Some("Inbox".to_string()) }];
    state.selected_label = 0;
    fetch_messages_for_label(&mut state, None, 5);
    assert!(state.messages.is_empty(), "Messages should be empty after API failure");
    assert_eq!(state.selected_message, 0, "Selected message should be 0");
    assert!(state.message_headers.is_empty(), "Message headers should be empty");
}

#[test]
fn a_failed_refresh_keeps_the_list_on_display() {
    let mut state = state_with("INBOX");
    state.messages = vec![fetched("kept", None, None, None)];
    fetch_messages_for_label(&mut state, None, 5);
    assert_eq!(state.messages.len(), 1);
    assert!(state.error_message.is_some());
}

#[test]
fn refresh_enters_view_caches_and_store() {
    let now: i64 = 1_750_000_000_000;
    let mut state = state_with("INBOX");
    let list = vec![
        fetched("a", Some("Sub a"), Some("from a"), Some("Tue, 10 Jun 2025 22:00:00 -0600")),
        fetched("b", Some("Sub b"), None, Some("not a date")),
        fetched("c", None, Some("from c"), None),
        fetched("d", Some("Sub d"), Some("from d"), Some("Tue, 10 Jun 2025 14:00:00 -0600")),
    ];
    fetch_messages_for_label(&mut state, Some(list), now);
    assert!(state.error_message.is_none());
    assert_eq!(state.messages.len(), 4);
    assert_eq!(state.selected_message, 0);
    assert_eq!(
        state.message_headers.get("a").unwrap(),
        &("Sub a".to_string(), "from a".to_string())
    );
    assert!(!state.message_headers.contains_key("b"));
    assert!(!state.message_headers.contains_key("c"));
    assert!(state.message_headers.contains_key("d"));
    assert_eq!(state.message_bodies.get("a_date").unwrap(), "Tue, 10 Jun 2025 22:00:00 -0600");
    assert_eq!(state.message_bodies.get("b_date").unwrap(), "not a date");
    assert!(!state.message_bodies.contains_key("c_date"));
    assert!(!state.message_bodies.contains_key("a"));

    let db = state.database.as_ref().unwrap();
    let stored = db.get_messages_for_label("INBOX", -1, 0);
    assert_eq!(stored.len(), 4);
    let order: Vec<&str> = stored.iter().map(|m| m.id.as_str()).collect();
    assert_eq!(order, vec!["b", "c", "a", "d"]);
    let a = &stored[2];
    assert_eq!(a.internal_date, 1_749_614_400_000);
    assert_eq!(stored[3].internal_date, 1_749_585_600_000);
    assert_eq!(stored[0].internal_date, now);
    assert_eq!(stored[1].internal_date, now);
    assert_eq!(a.received_date, now);
    assert_eq!(a.cache_timestamp, now);
    assert_eq!(a.label_ids, vec!["INBOX"]);
    assert_eq!(a.subject, Some("Sub a".to_string()));
    assert_eq!(a.from_addr, Some("from a".to_string()));
    assert_eq!(a.to_addr, None);
    assert_eq!(a.body_text, None);
    assert_eq!(a.thread_id, Some("t_a".to_string()));
    assert_eq!(a.snippet, Some("snippet a".to_string()));
    assert!(!a.is_unread && !a.is_starred);
    assert!(db.get_messages_for_label("UNREAD", -1, 0).is_empty());
    let record = db.get_sync_state("INBOX").unwrap();
    assert_eq!(record.last_synced_at, now);
    assert_eq!(record.history_cursor, None);
    assert!(state.is_label_loaded(0));
    assert_eq!(state.get_messages_for_label(0).len(), 4);
    assert!(!state.is_cache_stale("INBOX", now + 1));
}

#[test]
fn refresh_of_all_mail_keeps_each_message_with_its_own_labels() {
    let mut state = state_with("AllMail");
    fetch_messages_for_label(&mut state, Some(vec![fetched("a", None, None, None)]), 10);
    assert_eq!(stored_ids(&state, "INBOX"), vec!["a"]);
    assert_eq!(stored_ids(&state, "UNREAD"), vec!["a"]);
    assert!(state.database.as_ref().unwrap().get_sync_state("AllMail").is_some());
}

#[test]
fn refresh_keeps_the_selection_on_the_same_message() {
    let mut state = state_with("INBOX");
    state.messages = vec![fetched("x", None, None, None), fetched("y", None, None, None)];
    state.selected_message = 1;
    let list = vec![
        fetched("n", None, None, None),
        fetched("x", None, None, None),
        fetched("y", None, None, None),
    ];
    fetch_messages_for_label(&mut state, Some(list), 10);
    assert_eq!(state.selected_message, 2);
    fetch_messages_for_label(&mut state, Some(vec![fetched("x", None, None, None)]), 20);
    assert_eq!(state.selected_message, 0);
}

#[test]
fn refresh_without_store_or_label_still_updates_the_view() {
    let mut state = AppState::new("t".to_string());
    fetch_messages_for_label(&mut state, Some(vec![fetched("a", Some("s"), Some("f"), None)]), 10);
    assert_eq!(state.messages.len(), 1);
    assert!(state.message_headers.contains_key("a"));
    assert!(!state.is_label_loaded(0));
    let mut state = state_with("INBOX");
    state.labels[0].id = None;
    fetch_messages_for_label(&mut state, Some(vec![fetched("a", None, None, None)]), 10);
    assert!(stored_ids(&state, "ALLMAIL").is_empty());
    let mut no_id = fetched("z", Some("s"), Some("f"), None);
    no_id.id = None;
    let mut state = state_with("INBOX");
    fetch_messages_for_label(&mut state, Some(vec![no_id]), 10);
    assert_eq!(state.messages.len(), 1);
    assert!(state.message_headers.is_empty());
    assert!(stored_ids(&state, "ALLMAIL").is_empty());
    assert!(state.database.as_ref().unwrap().get_sync_state("INBOX").is_some());
}

#[test]
fn cached_row_takes_the_parsed_date_as_given() {
    let m = fetched("a", Some("s"), None, Some("whatever"));
    let row = cached_from_fetched(&m, &"a".to_string(), &"SENT".to_string(), false, Some(42), 7);
    assert_eq!(row.internal_date, 42);
    assert_eq!(row.received_date, 7);
    assert_eq!(row.label_ids, vec!["SENT"]);
    let row = cached_from_fetched(&m, &"a".to_string(), &"ALLMAIL".to_string(), true, None, 7);
    assert_eq!(row.internal_date, 7);
    assert_eq!(row.label_ids, vec!["INBOX", "UNREAD"]);
    assert_eq!(row.date_str, Some("whatever".to_string()));
}

#[test]
fn headers_are_found_by_exact_name_first_match() {
    let headers = vec![
        header("subject", "lower"),
        Header { name: None, value: Some("none".to_string()) },
        Header { name: Some("Subject".to_string()), value: None },
        header("Subject", "second"),
        header("From", "me"),
    ];
    assert_eq!(find_header(&headers, "Subject"), None);
    assert_eq!(find_header(&headers, "subject"), Some("lower".to_string()));
    assert_eq!(find_header(&headers, "From"), Some("me".to_string()));
    assert_eq!(find_header(&headers, "Date"), None);
    assert_eq!(find_header(&Vec::new(), "From"), None);
    let mut m = fetched("a", None, Some("f"), None);
    assert_eq!(header_of(&m, "From"), Some("f".to_string()));
    m.payload.as_mut().unwrap().headers = None;
    assert_eq!(header_of(&m, "From"), None);
    m.payload = None;
    assert_eq!(header_of(&m, "From"), None);
}

#[test]
fn full_message_enters_bodies_display_and_store() {
    let mut state = state_with("INBOX");
    let message = Message {
        id: Some("full".to_string()),
        snippet: Some("snip".to_string()),
        payload: Some(MessagePart {
            mime_type: Some("multipart/alternative".to_string()),
            headers: Some(vec![
                header("Subject", "Hi"),
                header("From", "a@x"),
                header("To", "b@y"),
                header("Date", "Tue, 10 Jun 2025 14:00:00 -0600"),
            ]),
            body: None,
            parts: Some(vec![
                MessagePart {
                    mime_type: Some("text/plain".to_string()),
                    headers: None,
                    body: Some(MessagePartBody { data: Some("SGVsbG8sIHdvcmxkIQ==".to_string()) }),
                    parts: None,
                },
                MessagePart {
                    mime_type: Some("text/html".to_string()),
                    headers: None,
                    body: Some(MessagePartBody { data: Some("PGI-w7w_Pj48L2I-".to_string()) }),
                    parts: None,
                },
            ]),
        }),
        thread_id: Some("th".to_string()),
        label_ids: Some(vec!["INBOX".to_string()]),
    };
    fetch_full_message(&mut state, "full", &message, 99);
    assert_eq!(state.message_bodies.get("full").unwrap(), "Hello, world!");
    assert_eq!(state.message_bodies.get("full_date").unwrap(), "Tue, 10 Jun 2025 14:00:00 -0600");
    let shown = state.current_message_display_headers.as_ref().unwrap();
    assert_eq!(shown.subject, "Hi");
    assert_eq!(shown.from, "a@x");
    assert_eq!(shown.to, "b@y");
    assert_eq!(shown.date, "Tue, 10 Jun 2025 14:00:00 -0600");
    let stored = state.database.as_ref().unwrap().get_messages_for_label("INBOX", -1, 0);
    assert_eq!(stored.len(), 1);
    assert_eq!(stored[0].id, "full");
    assert_eq!(stored[0].body_text, Some("Hello, world!".to_string()));
    assert_eq!(stored[0].body_html, Some("<b>\u{fc}?>></b>".to_string()));
    assert_eq!(stored[0].to_addr, Some("b@y".to_string()));
    assert_eq!(stored[0].internal_date, 99);
}

#[test]
fn full_message_without_content_gets_fallback_texts() {
    let mut state = state_with("INBOX");
    let message = Message { id: None, snippet: None, payload: None, thread_id: None, label_ids: None };
    fetch_full_message(&mut state, "bare", &message, 1);
    assert_eq!(state.message_bodies.get("bare").unwrap(), "");
    assert_eq!(state.message_bodies.get("bare_date").unwrap(), "(unknown date)");
    let shown = state.current_message_display_headers.as_ref().unwrap();
    assert_eq!(shown.subject, "(no subject)");
    assert_eq!(shown.from, "(unknown sender)");
    assert_eq!(shown.to, "(unknown recipient)");
    let stored = state.database.as_ref().unwrap().get_messages_for_label("ALLMAIL", -1, 0);
    assert_eq!(stored[0].id, "bare");
    assert_eq!(stored[0].subject, Some("(no subject)".to_string()));
    assert_eq!(stored[0].body_text, Some("".to_string()));
    assert_eq!(stored[0].body_html, None);
    assert!(stored[0].label_ids.is_empty());
}

#[test]
fn more_messages_are_appended_and_empty_pages_tolerated() {
    let mut state = state_with("INBOX");
    state.messages = vec![fetched("a", None, None, None)];
    assert_eq!(next_page_request(&state), (1, 10));
    load_more_messages(&mut state, Some(vec![]));
    load_more_messages(&mut state, None);
    assert_eq!(state.messages.len(), 1);
    assert!(!state.label_messages_cache.contains_key("INBOX"));
    load_more_messages(
        &mut state,
        Some(vec![fetched("b", None, None, None), fetched("c", None, None, None)]),
    );
    let got: Vec<String> = state.messages.iter().map(|m| m.id.clone().unwrap()).collect();
    assert_eq!(got, vec!["a", "b", "c"]);
    assert_eq!(next_page_request(&state), (3, 10));
    assert_eq!(state.label_messages_cache.get("INBOX").unwrap().len(), 3);
    assert_eq!(state.selected_message, 0);
}

#[test]
fn more_is_wanted_within_a_screen_of_the_end() {
    let mut state = AppState::new("t".to_string());
    assert!(wants_more_messages(&state));
    state.messages = (0..25).map(|i| fetched(&i.to_string(), None, None, None)).collect();
    state.selected_message = 14;
    assert!(!wants_more_messages(&state));
    state.selected_message = 15;
    assert!(wants_more_messages(&state));
    state.selected_message = usize::MAX;
    state.messages_per_screen = usize::MAX;
    assert!(wants_more_messages(&state));
}

#[test]
fn page_of_a_listing_skips_and_takes() {
    let refs: Vec<MessageRef> = ["a", "b", "", "d", "e"]
        .iter()
        .map(|i| MessageRef { id: if i.is_empty() { None } else { Some(i.to_string()) } })
        .collect();
    assert_eq!(ids_to_fetch(&refs, 0, 2), vec!["a", "b"]);
    assert_eq!(ids_to_fetch(&refs, 1, 3), vec!["b", "d"]);
    assert_eq!(ids_to_fetch(&refs, 3, 10), vec!["d", "e"]);
    assert_eq!(ids_to_fetch(&refs, 5, 10), Vec::<String>::new());
    assert_eq!(ids_to_fetch(&refs, 9, 1), Vec::<String>::new());
    assert_eq!(ids_to_fetch(&refs, 0, 0), Vec::<String>::new());
    assert_eq!(ids_to_fetch(&refs, 2, usize::MAX), vec!["d", "e"]);
    assert_eq!(ids_to_fetch(&refs, usize::MAX, usize::MAX), Vec::<String>::new());
    assert_eq!(listing_size(20, 10), 30);
    assert_eq!(listing_size(usize::MAX, 1), usize::MAX);
    assert_eq!(listing_size(0, 0), 0);
}

#[test]
fn urls_are_built_as_the_service_expects() {
    assert_eq!(
        list_url("INBOX", 20),
        "https://gmail.googleapis.com/gmail/v1/users/me/messages?labelIds=INBOX&maxResults=20&orderBy=date_desc"
    );
    assert_eq!(
        list_url("allmail", 105),
        "https://gmail.googleapis.com/gmail/v1/users/me/messages?maxResults=105&orderBy=date_desc"
    );
    assert_eq!(
        list_url_for("X", true, 0),
        "https://gmail.googleapis.com/gmail/v1/users/me/messages?maxResults=0&orderBy=date_desc"
    );
    assert_eq!(
        list_url_for("ALLMAIL", false, 7),
        "https://gmail.googleapis.com/gmail/v1/users/me/messages?labelIds=ALLMAIL&maxResults=7&orderBy=date_desc"
    );
    assert_eq!(
        message_url("abc", false),
        "https://gmail.googleapis.com/gmail/v1/users/me/messages/abc?format=metadata"
    );
    assert_eq!(
        message_url("abc", true),
        "https://gmail.googleapis.com/gmail/v1/users/me/messages/abc?format=full"
    );
    assert_eq!(modify_url("m1"), "https://gmail.googleapis.com/gmail/v1/users/me/messages/m1/modify");
    assert_eq!(trash_url("m1"), "https://gmail.googleapis.com/gmail/v1/users/me/messages/m1/trash");
    assert_eq!(archive_removes(), vec!["INBOX"]);
}

#[test]
fn raw_email_has_the_documented_lines() {
    assert_eq!(
        build_raw_email("a@b.c", "", "", "Hi", "Hello"),
        "To: a@b.c\r\nSubject: Hi\r\nContent-Type: text/plain; charset=utf-8\r\n\r\nHello"
    );
    assert_eq!(
        build_raw_email("a@b.c", "c@d.e", "f@g.h", "Hi?", "Body>>>"),
        "To: a@b.c\r\nCc: c@d.e\r\nBcc: f@g.h\r\nSubject: Hi?\r\nContent-Type: text/plain; charset=utf-8\r\n\r\nBody>>>"
    );
    assert_eq!(
        build_raw_email("", "", "x", "", ""),
        "To: \r\nBcc: x\r\nSubject: \r\nContent-Type: text/plain; charset=utf-8\r\n\r\n"
    );
}

#[test]
fn email_is_encoded_url_safe_without_padding() {
    assert_eq!(
        encode_email("a@b.c", "", "", "Hi", "Hello"),
        Some("VG86IGFAYi5jDQpTdWJqZWN0OiBIaQ0KQ29udGVudC1UeXBlOiB0ZXh0L3BsYWluOyBjaGFyc2V0PXV0Zi04DQoNCkhlbGxv".to_string())
    );
    assert_eq!(
        encode_email("a@b.c", "c@d.e", "f@g.h", "Hi?", "Body>>>"),
        Some("VG86IGFAYi5jDQpDYzogY0BkLmUNCkJjYzogZkBnLmgNClN1YmplY3Q6IEhpPw0KQ29udGVudC1UeXBlOiB0ZXh0L3BsYWluOyBjaGFyc2V0PXV0Zi04DQoNCkJvZHk-Pj4".to_string())
    );
}

#[test]
fn labels_of_an_answer_default_to_none() {
    assert!(labels_of_response(LabelsResponse { labels: None }).is_empty());
    let got = labels_of_response(LabelsResponse {
        labels: Some(vec![Label { id: Some("a".to_string()), name: None }]),
    });
    assert_eq!(got.len(), 1);
    assert_eq!(got[0].id, Some("a".to_string()));
}
