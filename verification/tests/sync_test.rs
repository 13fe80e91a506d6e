use rmail::app::{labels_fetched, load_cached_labels};
use rmail::background_tasks::{begin_background_fetch, begin_cache_first_fetch, finish_fetch};
use rmail::background_tasks::{finish_user_fetch, FetchCoordinator};
use rmail::cli::{handle_keyring_clear, Cli};
use rmail::database::{CachedMessage, Database};
use rmail::gmail_api::{AuthResult, KEYRING_SERVICE_NAME, KEYRING_USERNAME};
use rmail::notifications::{asks_for_refresh, setup_real_time_notifications, GmailHistorySync};
use rmail::notifications::{GmailPushNotifications, NotificationConfig, NotificationEvent, PushSetup};
use rmail::state::AppState;
use rmail::sync::{convert_to_cached_message, RemoteRequest, RemoteResponse, StorageError};
use rmail::sync::{SyncCommand, SyncEvent, SyncOutcome, SyncService, SYNC_BATCH};
use rmail::types::{Header, Label, LoadingStage, Message, MessagePart};

fn label(id: &str, name: &str) -> Label {
    Label { id: Some(id.to_string()), name: Some(name.to_string()) }
}

fn create_sample_cached_messages() -> Vec<CachedMessage> {
    vec![
        CachedMessage {
            id: "msg1".to_string(),
            thread_id: Some("thread1".to_string()),
            label_ids: vec!["INBOX".to_string()],
            snippet: Some("Test message 1".to_string()),
            subject: Some("Subject 1".to_string()),
            from_addr: Some("sender@example.com".to_string()),
            to_addr: Some("recipient@example.com".to_string()),
            date_str: Some("Tue, 10 Jun 2025 14:00:00 -0600".to_string()),
            body_text: Some("Body 1".to_string()),
            body_html: None,
            received_date: 1_000,
            internal_date: 1_000,
            is_unread: true,
            is_starred: false,
            cache_timestamp: 1_000,
        },
        CachedMessage {
            id: "msg2".to_string(),
            thread_id: Some("thread2".to_string()),
            label_ids: vec!["INBOX".to_string()],
            snippet: Some("Test message 2".to_string()),
            subject: Some("Subject 2".to_string()),
            from_addr: Some("sender2@example.com".to_string()),
            to_addr: Some("recipient@example.com".to_string()),
            date_str: Some("Tue, 10 Jun 2025 15:00:00 -0600".to_string()),
            body_text: Some("Body 2".to_string()),
            body_html: None,
            received_date: 1_000,
            internal_date: 1_000,
            is_unread: false,
            is_starred: true,
            cache_timestamp: 1_000,
        },
    ]
}

fn remote(id: &str, labels: &[&str]) -> Message {
    Message {
        id: Some(id.to_string()),
        snippet: Some(format!("snippet {}", id)),
        payload: Some(MessagePart {
            mime_type: None,
            headers: Some(vec![
                Header { name: Some("From".to_string()), value: Some("f@x".to_string()) },
                Header { name: Some("Subject".to_string()), value: Some("S".to_string()) },
            ]),
            body: None,
            parts: None,
        }),
        thread_id: None,
        label_ids: Some(labels.iter().map(|l| l.to_string()).collect()),
    }
}

fn state_with_store(messages: Vec<CachedMessage>, synced_at: Option<i64>) -> AppState {
    let mut db = Database::new();
    for m in &messages {
        db.upsert_message(m);
    }
    if let Some(t) = synced_at {
        db.update_sync_state("INBOX", None, t);
    }
    let mut state = AppState::new("test_token".to_string());
    state.labels = vec![label("INBOX", "Inbox")];
    state.selected_label = 0;
    state.set_database(db);
    state
}

fn labels_of(state: &AppState, id: &str) -> Vec<String> {
    state
        .database
        .as_ref()
        .unwrap()
        .get_messages_for_label("ALLMAIL", -1, 0)
        .into_iter()
        .find(|m| m.id == id)
        .map(|m| m.label_ids)
        .unwrap_or_default()
}

fn is_empty(outcome: &SyncOutcome) -> bool {
    outcome.events.is_empty() && outcome.requests.is_empty() && !outcome.stop
}

#[test]
fn test_cache_first_avoids_unnecessary_api_calls() {
    let now = 1_000;
    let mut state = state_with_store(create_sample_cached_messages(), Some(now));
    let mut coordinator = FetchCoordinator::new();
    let to_fetch = begin_cache_first_fetch(&mut state, &mut coordinator, now + 10);
    assert_eq!(state.messages.len(), 2);
    assert_eq!(state.messages[0].id, Some("msg1".to_string()));
    assert_eq!(state.messages[1].id, Some("msg2".to_string()));
    assert!(to_fetch.is_none(), "API should not be called when cache is fresh");
    assert!(!coordinator.is_in_flight("INBOX"));
    assert!(state.message_headers.contains_key("msg1"));
    assert!(state.message_headers.contains_key("msg2"));
    assert_eq!(state.message_headers.get("msg1").unwrap().0, "Subject 1");
    assert_eq!(state.message_headers.get("msg1").unwrap().1, "sender@example.com");
}

#[test]
fn test_api_call_when_cache_empty() {
    let mut state = state_with_store(vec![], Some(1_000));
    let mut coordinator = FetchCoordinator::new();
    let to_fetch = begin_cache_first_fetch(&mut state, &mut coordinator, 1_001);
    assert_eq!(to_fetch, Some("INBOX".to_string()), "API should be called when cache is empty");
    assert_eq!(state.messages.len(), 0);
    assert!(coordinator.is_in_flight("INBOX"));
}

#[test]
fn test_api_call_when_cache_stale() {
    let mut state = state_with_store(create_sample_cached_messages(), None);
    let mut coordinator = FetchCoordinator::new();
    let to_fetch = begin_cache_first_fetch(&mut state, &mut coordinator, 1_001);
    assert_eq!(state.messages.len(), 2);
    assert_eq!(to_fetch, Some("INBOX".to_string()), "API should be called when cache is stale");
    let mut state = state_with_store(create_sample_cached_messages(), Some(1_000));
    let mut coordinator = FetchCoordinator::new();
    assert!(begin_cache_first_fetch(&mut state, &mut coordinator, 301_000).is_some());
}

#[test]
fn test_background_sync_updates_cache() {
    let mut state = state_with_store(vec![], None);
    let service = SyncService::new();
    let outcome = service.handle_command(&mut state, SyncCommand::SyncLabel("INBOX".to_string()), 50);
    assert!(outcome.events.is_empty());
    assert_eq!(outcome.requests.len(), 1);
    let request = &outcome.requests[0];
    match request {
        RemoteRequest::FetchMessages { label_id, limit, announce } => {
            assert_eq!(label_id, "INBOX");
            assert_eq!(*limit, SYNC_BATCH);
            assert_eq!(*limit, 100);
            assert!(!announce);
        }
        _ => panic!("expected a request for messages"),
    }
    let response = RemoteResponse::Messages(Some(vec![remote("msg1", &["INBOX"]), remote("msg2", &["INBOX"])]));
    let outcome = service.handle_response(&mut state, request, response, 60);
    assert_eq!(outcome.events.len(), 1);
    match &outcome.events[0] {
        SyncEvent::LabelSynced(label_id, count) => {
            assert_eq!(label_id, "INBOX");
            assert_eq!(*count, 2);
        }
        _ => panic!("Expected LabelSynced event"),
    }
    let cached_messages = state.database.as_ref().unwrap().get_messages_for_label("INBOX", -1, 0);
    assert_eq!(cached_messages.len(), 2);
    assert_eq!(cached_messages[0].id, "msg1");
    assert_eq!(cached_messages[1].id, "msg2");
    assert_eq!(state.database.as_ref().unwrap().get_sync_state("INBOX").unwrap().last_synced_at, 60);
}

#[test]
fn test_frontend_works_off_cache_only() {
    let mut state = state_with_store(create_sample_cached_messages(), Some(1_000));
    let mut coordinator = FetchCoordinator::new();
    assert!(begin_cache_first_fetch(&mut state, &mut coordinator, 1_001).is_none());
    assert_eq!(state.messages.len(), 2);
    state.selected_message = 1;
    state.update_message_state();
    assert_eq!(state.messages[1].id, Some("msg2".to_string()));
    let body = state.message_bodies.get("msg2");
    assert_eq!(body, Some(&"Body 2".to_string()));
}

#[test]
fn test_ui_never_blocks_on_cached_data() {
    let mut state = state_with_store(create_sample_cached_messages(), Some(1_000));
    state.set_loading_messages(true);
    let mut coordinator = FetchCoordinator::new();
    let to_fetch = begin_cache_first_fetch(&mut state, &mut coordinator, 1_001);
    state.set_loading_messages(false);
    assert_eq!(state.messages.len(), 2, "Messages should be loaded from cache immediately");
    assert!(!state.loading_messages, "UI should not be in loading state when cache is available");
    assert!(to_fetch.is_none());
    assert!(state.message_headers.contains_key("msg1"));
    assert_eq!(state.message_bodies.get("msg1").unwrap(), "Body 1");
}

#[test]
fn test_no_concurrent_fetch_loops() {
    let mut state = state_with_store(create_sample_cached_messages(), None);
    let mut coordinator = FetchCoordinator::new();
    let mut started = 0;
    for _ in 0..5 {
        if begin_cache_first_fetch(&mut state, &mut coordinator, 2_000).is_some() {
            started += 1;
        }
        assert_eq!(state.messages.len(), 2, "Cached messages should be available immediately");
    }
    if begin_background_fetch(&state, &mut coordinator).is_some() {
        started += 1;
    }
    assert_eq!(started, 1);
    finish_fetch(&mut state, &mut coordinator, "INBOX", Some(vec![remote("n", &["INBOX"])]), 2_500);
    assert!(!coordinator.is_in_flight("INBOX"));
    assert!(begin_cache_first_fetch(&mut state, &mut coordinator, 2_600).is_none());
    assert!(begin_background_fetch(&state, &mut coordinator).is_some());
}

#[test]
fn test_ui_shows_cached_data_during_background_fetch() {
    let mut state = state_with_store(create_sample_cached_messages(), None);
    let mut coordinator = FetchCoordinator::new();
    let label = begin_cache_first_fetch(&mut state, &mut coordinator, 2_000).unwrap();
    assert_eq!(state.messages.len(), 2);
    assert_eq!(state.messages[0].id, Some("msg1".to_string()));
    assert!(!state.loading_messages);
    state.selected_message = 1;
    finish_fetch(
        &mut state,
        &mut coordinator,
        &label,
        Some(vec![remote("new", &["INBOX"]), remote("msg2", &["INBOX"]), remote("msg1", &["INBOX"])]),
        2_100,
    );
    assert_eq!(state.messages.len(), 3);
    assert_eq!(state.selected_message, 1);
    assert_eq!(state.messages[1].id, Some("msg2".to_string()));
    assert!(!coordinator.is_in_flight("INBOX"));
}

#[test]
fn test_rapid_label_switching_no_blocking() {
    let mut db = Database::new();
    for l in ["INBOX", "SENT", "DRAFT"] {
        let mut m = create_sample_cached_messages().remove(0);
        m.id = format!("msg_{}", l);
        m.label_ids = vec![l.to_string()];
        m.snippet = Some(format!("Message in {}", l));
        db.upsert_message(&m);
        db.update_sync_state(l, Some("fresh"), 1_000);
    }
    let mut state = AppState::new("test_token".to_string());
    state.labels = vec![label("INBOX", "Inbox"), label("SENT", "Sent"), label("DRAFT", "Drafts")];
    state.set_database(db);
    let mut coordinator = FetchCoordinator::new();
    for round in 0..3 {
        for (i, l) in ["INBOX", "SENT", "DRAFT"].iter().enumerate() {
            state.selected_label = i;
            let to_fetch = begin_cache_first_fetch(&mut state, &mut coordinator, 1_100 + round);
            assert!(to_fetch.is_none());
            assert_eq!(state.messages.len(), 1, "Messages should be available immediately for label {}", l);
            assert_eq!(state.messages[0].id, Some(format!("msg_{}", l)));
        }
    }
}

#[test]
fn first_visit_of_a_label_fetches_once_and_records_the_sync() {
    let now: i64 = 1_749_585_600_000;
    let mut state = state_with_store(vec![], None);
    let mut coordinator = FetchCoordinator::new();
    assert!(state.database.as_ref().unwrap().get_sync_state("INBOX").is_none());
    assert!(state.is_cache_stale("INBOX", now));
    let mut fetches = Vec::new();
    for _ in 0..4 {
        if let Some(label) = begin_cache_first_fetch(&mut state, &mut coordinator, now) {
            fetches.push(label);
        }
    }
    assert_eq!(fetches, vec!["INBOX"]);
    finish_fetch(&mut state, &mut coordinator, "INBOX", Some(vec![remote("m1", &["INBOX"])]), now + 5);
    let db = state.database.as_ref().unwrap();
    let record = db.get_sync_state("INBOX").unwrap();
    assert_eq!(record.last_synced_at, now + 5);
    assert!(db.get_sync_state("SENT").is_none());
    assert!(db.get_sync_state("ALLMAIL").is_none());
    assert_eq!(db.get_messages_for_label("INBOX", -1, 0).len(), 1);
    assert!(!state.is_cache_stale("INBOX", now + 10));
}

#[test]
fn a_failed_fetch_releases_the_label() {
    let mut state = state_with_store(vec![], None);
    let mut coordinator = FetchCoordinator::new();
    let label = begin_cache_first_fetch(&mut state, &mut coordinator, 10).unwrap();
    finish_fetch(&mut state, &mut coordinator, &label, None, 20);
    assert!(state.error_message.is_some());
    assert!(!coordinator.is_in_flight("INBOX"));
    assert!(begin_cache_first_fetch(&mut state, &mut coordinator, 30).is_some());
    state.loading_messages = true;
    finish_user_fetch(&mut state, Some(vec![remote("a", &[])]), 40);
    assert!(!state.loading_messages);
    assert_eq!(state.messages.len(), 1);
}

#[test]
fn without_a_selected_label_nothing_is_fetched() {
    let mut state = AppState::new("t".to_string());
    let mut coordinator = FetchCoordinator::new();
    assert!(begin_cache_first_fetch(&mut state, &mut coordinator, 10).is_none());
    assert!(begin_background_fetch(&state, &mut coordinator).is_none());
    state.labels = vec![Label { id: None, name: None }];
    assert!(begin_cache_first_fetch(&mut state, &mut coordinator, 10).is_none());
}

#[test]
fn sync_of_a_recently_synced_label_is_skipped() {
    let mut state = state_with_store(vec![], Some(1_000));
    let service = SyncService::new();
    let outcome = service.handle_command(&mut state, SyncCommand::SyncLabel("INBOX".to_string()), 300_999);
    assert!(outcome.requests.is_empty());
    assert_eq!(outcome.events.len(), 1);
    assert!(matches!(outcome.events[0], SyncEvent::CacheUpdated));
    let outcome = service.handle_command(&mut state, SyncCommand::SyncLabel("INBOX".to_string()), 301_000);
    assert_eq!(outcome.requests.len(), 1);
    assert!(outcome.events.is_empty());
    let outcome = service.handle_command(&mut state, SyncCommand::RefreshMessages("INBOX".to_string()), 2_000);
    assert_eq!(outcome.events.len(), 2);
    let outcome = service.handle_command(&mut state, SyncCommand::RefreshMessages("SENT".to_string()), 2_000);
    assert!(outcome.events.is_empty());
    assert!(matches!(&outcome.requests[0], RemoteRequest::FetchMessages { announce: true, .. }));
    let request = RemoteRequest::FetchMessages { label_id: "SENT".to_string(), limit: 100, announce: true };
    let outcome = service.handle_response(&mut state, &request, RemoteResponse::Messages(Some(vec![])), 3_000);
    assert_eq!(outcome.events.len(), 2);
    assert!(matches!(&outcome.events[0], SyncEvent::LabelSynced(l, 0) if l == "SENT"));
    assert!(matches!(outcome.events[1], SyncEvent::CacheUpdated));
}

#[test]
fn shutdown_stops_and_sync_all_asks_for_labels() {
    let mut state = state_with_store(vec![], None);
    let service = SyncService::new();
    let outcome = service.handle_command(&mut state, SyncCommand::Shutdown, 0);
    assert!(outcome.stop && outcome.events.is_empty() && outcome.requests.is_empty());
    let outcome = service.handle_command(&mut state, SyncCommand::SyncAllLabels, 0);
    assert!(!outcome.stop);
    assert!(matches!(outcome.requests[0], RemoteRequest::FetchLabels));
    let labels = vec![label("INBOX", "Inbox"), label("Label_1", "Mine")];
    state.database.as_mut().unwrap().update_sync_state("SENT", None, 10);
    let outcome =
        service.handle_response(&mut state, &RemoteRequest::FetchLabels, RemoteResponse::Labels(Some(labels)), 20);
    assert_eq!(state.database.as_ref().unwrap().get_labels().len(), 2);
    let asked: Vec<String> = outcome
        .requests
        .iter()
        .map(|r| match r {
            RemoteRequest::FetchMessages { label_id, .. } => label_id.clone(),
            _ => String::new(),
        })
        .collect();
    assert_eq!(asked, vec!["INBOX", "IMPORTANT", "DRAFT"]);
    assert_eq!(outcome.events.len(), 1);
    assert!(matches!(outcome.events[0], SyncEvent::CacheUpdated));
}

#[test]
fn failures_of_the_remote_service_are_reported() {
    let mut state = state_with_store(create_sample_cached_messages(), None);
    let service = SyncService::new();
    let request = RemoteRequest::FetchMessages { label_id: "INBOX".to_string(), limit: 100, announce: false };
    let outcome = service.handle_response(&mut state, &request, RemoteResponse::Messages(None), 5);
    assert!(matches!(&outcome.events[0], SyncEvent::SyncError(e) if e == "Failed to sync INBOX"));
    assert_eq!(state.error_message, Some("Failed to sync INBOX".to_string()));
    assert_eq!(state.database.as_ref().unwrap().get_messages_for_label("INBOX", -1, 0).len(), 2);
    assert!(state.database.as_ref().unwrap().get_sync_state("INBOX").is_none());
    let outcome = service.handle_response(&mut state, &RemoteRequest::FetchLabels, RemoteResponse::Labels(None), 5);
    assert!(matches!(&outcome.events[0], SyncEvent::SyncError(e) if e == "Failed to fetch labels"));
    assert_eq!(state.error_message, Some("Failed to fetch labels".to_string()));
    let outcome = service.handle_response(&mut state, &RemoteRequest::FetchLabels, RemoteResponse::Messages(None), 5);
    assert!(is_empty(&outcome));
    let outcome = service.report_failure(&mut state, "x".to_string(), true);
    assert_eq!(outcome.events.len(), 2);
}

#[test]
fn archive_is_applied_locally_before_the_remote_call() {
    let mut messages = create_sample_cached_messages();
    messages[0].label_ids = vec!["INBOX".to_string(), "IMPORTANT".to_string()];
    let mut state = state_with_store(messages, None);
    let service = SyncService::new();
    let outcome = service.handle_command(&mut state, SyncCommand::ArchiveMessage("msg1".to_string()), 5);
    assert_eq!(labels_of(&state, "msg1"), vec!["IMPORTANT"]);
    assert_eq!(labels_of(&state, "msg2"), vec!["INBOX"]);
    assert!(matches!(&outcome.events[0], SyncEvent::MessageArchived(id) if id == "msg1"));
    assert!(matches!(&outcome.requests[0], RemoteRequest::Archive { message_id } if message_id == "msg1"));
    assert!(state.error_message.is_none());

    let outcome = service.handle_response(
        &mut state,
        &outcome.requests[0],
        RemoteResponse::Done(Err("HTTP 500".to_string())),
        6,
    );
    assert!(is_empty(&outcome));
    assert_eq!(state.error_message, Some("Failed to archive message on server: HTTP 500".to_string()));
    assert_eq!(labels_of(&state, "msg1"), vec!["IMPORTANT"]);

    service.archive_message(&mut state, "msg1");
    assert_eq!(labels_of(&state, "msg1"), vec!["IMPORTANT"]);
    state.clear_error_message();
    let request = RemoteRequest::Archive { message_id: "msg1".to_string() };
    let outcome = service.handle_response(&mut state, &request, RemoteResponse::Done(Ok(())), 7);
    assert!(is_empty(&outcome));
    assert!(state.error_message.is_none());
}

#[test]
fn delete_is_applied_locally_before_the_remote_call() {
    let mut state = state_with_store(create_sample_cached_messages(), None);
    let service = SyncService::new();
    let outcome = service.handle_command(&mut state, SyncCommand::DeleteMessage("msg2".to_string()), 5);
    assert_eq!(labels_of(&state, "msg2"), vec!["TRASH"]);
    assert_eq!(labels_of(&state, "msg1"), vec!["INBOX"]);
    assert!(matches!(&outcome.events[0], SyncEvent::MessageDeleted(id) if id == "msg2"));
    assert!(matches!(&outcome.requests[0], RemoteRequest::Trash { message_id } if message_id == "msg2"));
    service.handle_response(&mut state, &outcome.requests[0], RemoteResponse::Done(Err("gone".to_string())), 6);
    assert_eq!(state.error_message, Some("Failed to delete message on server: gone".to_string()));
    assert_eq!(labels_of(&state, "msg2"), vec!["TRASH"]);
    service.delete_message(&mut state, "msg2");
    assert_eq!(labels_of(&state, "msg2"), vec!["TRASH"]);
    service.archive_message(&mut state, "msg2");
    assert_eq!(labels_of(&state, "msg2"), vec!["TRASH"]);
}

#[test]
fn without_a_store_local_steps_fail_and_nothing_is_sent() {
    let mut state = AppState::new("t".to_string());
    let service = SyncService::new();
    let outcome = service.archive_message(&mut state, "m");
    assert!(is_empty(&outcome));
    assert_eq!(
        state.error_message,
        Some("Failed to mark message as archived locally: no local store is attached".to_string())
    );
    let outcome = service.delete_message(&mut state, "m");
    assert!(is_empty(&outcome));
    assert_eq!(
        state.error_message,
        Some("Failed to mark message as deleted locally: no local store is attached".to_string())
    );
    let outcome = service.store_messages(&mut state, "INBOX", false, &vec![remote("a", &[])], 5);
    assert!(matches!(&outcome.events[0], SyncEvent::LabelSynced(l, 0) if l == "INBOX"));
    assert_eq!(
        state.error_message,
        Some("Failed to update sync state for INBOX: no local store is attached".to_string())
    );
    let outcome = service.store_labels(&mut state, &vec![label("a", "A"), Label { id: None, name: None }], 5);
    assert_eq!(outcome.requests.len(), 4);
    assert_eq!(
        state.error_message,
        Some("Failed to cache label unknown: no local store is attached".to_string())
    );
    assert_eq!(StorageError::Io("disk full".to_string()).message(), "disk full");
    assert_eq!(StorageError::Unavailable.message(), "no local store is attached");
}

#[test]
fn converted_message_carries_headers_and_flags() {
    let mut m = remote("id1", &["INBOX", "UNREAD", "STARRED"]);
    m.thread_id = Some("th".to_string());
    let row = convert_to_cached_message(&m, 77);
    assert_eq!(row.id, "id1");
    assert_eq!(row.thread_id, Some("th".to_string()));
    assert_eq!(row.label_ids, vec!["INBOX", "UNREAD", "STARRED"]);
    assert_eq!(row.snippet, Some("snippet id1".to_string()));
    assert_eq!(row.subject, Some("S".to_string()));
    assert_eq!(row.from_addr, Some("f@x".to_string()));
    assert_eq!(row.to_addr, None);
    assert_eq!(row.date_str, None);
    assert_eq!(row.body_text, Some("snippet id1".to_string()));
    assert_eq!(row.body_html, None);
    assert_eq!((row.received_date, row.internal_date, row.cache_timestamp), (77, 77, 77));
    assert!(row.is_unread && row.is_starred);
    let bare = Message { id: None, snippet: None, payload: None, thread_id: None, label_ids: None };
    let row = convert_to_cached_message(&bare, 1);
    assert_eq!(row.id, "");
    assert!(row.label_ids.is_empty());
    assert!(!row.is_unread && !row.is_starred);
    let row = convert_to_cached_message(&remote("x", &["unread", "STARRED "]), 1);
    assert!(!row.is_unread && !row.is_starred);
}

#[test]
fn start_goes_on_with_cached_labels_where_there_are_any() {
    let mut state = AppState::new("t".to_string());
    state.set_database(Database::new());
    state.set_error_message("old".to_string());
    assert!(!load_cached_labels(&mut state));
    assert_eq!(state.error_message, Some("old".to_string()));
    state.database.as_mut().unwrap().upsert_label(&label("SENT", "Sent"));
    state.selected_label = 3;
    assert!(load_cached_labels(&mut state));
    assert!(state.error_message.is_none());
    assert_eq!(state.selected_label, 0);
    assert_eq!(state.labels.len(), 2);
}

#[test]
fn fetched_labels_are_shown_and_stored() {
    let mut state = AppState::new("t".to_string());
    state.set_database(Database::new());
    state.selected_label = 2;
    state.set_error_message("old".to_string());
    let fetched = vec![
        label("Label_1", "Work"),
        label("c1", "Chat/Team"),
        label("INBOX", "Inbox"),
        Label { id: Some("noname".to_string()), name: None },
    ];
    assert!(labels_fetched(&mut state, Ok(fetched)));
    let shown: Vec<String> = state.labels.iter().map(|l| l.id.clone().unwrap()).collect();
    assert_eq!(shown, vec!["INBOX", "ALLMAIL", "Label_1", "noname"]);
    assert_eq!(state.selected_label, 0);
    assert_eq!(state.label_state.selected, Some(0));
    assert!(state.error_message.is_none());
    let stored: Vec<String> = state.database.as_ref().unwrap().get_labels().iter().map(|l| l.id.clone()).collect();
    assert_eq!(stored, vec!["INBOX", "Label_1"]);
    state.load_labels_from_cache();
    let shown: Vec<String> = state.labels.iter().map(|l| l.id.clone().unwrap()).collect();
    assert_eq!(shown, vec!["INBOX", "ALLMAIL", "Label_1"]);
}

#[test]
fn start_reports_why_labels_are_missing() {
    let mut state = AppState::new("t".to_string());
    assert!(!labels_fetched(&mut state, Ok(vec![label("c", "chat")])));
    assert_eq!(
        state.error_message,
        Some("No email labels found. Your Gmail account may be empty.".to_string())
    );
    assert!(!labels_fetched(&mut state, Err("Failed to fetch labels: 401 Unauthorized".to_string())));
    assert!(state.error_message.as_ref().unwrap().starts_with("Authentication expired or invalid."));
    assert!(!labels_fetched(&mut state, Err("Unauthorized".to_string())));
    assert!(state.error_message.as_ref().unwrap().starts_with("Authentication expired or invalid."));
    assert!(!labels_fetched(&mut state, Err("dns error".to_string())));
    assert_eq!(
        state.error_message,
        Some("Failed to load email labels: dns error. Please check your internet connection and try restarting the app.".to_string())
    );
}

#[test]
fn notification_types_hold_what_they_are_given() {
    let push = GmailPushNotifications::new("p".to_string(), "t".to_string(), "s".to_string());
    assert_eq!(push.project_id(), "p");
    assert_eq!(push.topic_name(), "t");
    assert_eq!(push.subscription_name(), "s");
    let mut history = GmailHistorySync::new();
    assert!(history.last_history_id().is_none());
    let events = history.sync_history("12345".to_string());
    assert_eq!(events.len(), 1);
    assert!(asks_for_refresh(&events[0]));
    assert_eq!(history.last_history_id(), &Some("12345".to_string()));
    assert!(!asks_for_refresh(&NotificationEvent::NewMessage("m".to_string())));
    assert!(!asks_for_refresh(&NotificationEvent::LabelUpdated("l".to_string()).clone()));
    assert!(matches!(NotificationEvent::MessageUpdated("m".to_string()).clone(), NotificationEvent::MessageUpdated(m) if m == "m"));
}

#[test]
fn notification_setup_follows_the_configuration() {
    let config = NotificationConfig::default();
    assert!(!config.enable_push_notifications);
    assert!(config.enable_history_sync);
    assert_eq!(config.poll_interval_seconds, 15);
    assert_eq!(config.google_cloud_project_id, None);
    assert_eq!(config.pubsub_topic_name, Some("gmail-notifications".to_string()));
    assert_eq!(config.pubsub_subscription_name, Some("rmail-subscription".to_string()));
    assert!(matches!(setup_real_time_notifications(config), Ok(PushSetup::Off)));
    let mut config = NotificationConfig::default();
    config.enable_push_notifications = true;
    match setup_real_time_notifications(config) {
        Err(e) => assert_eq!(e, "Missing Google Cloud configuration for push notifications"),
        Ok(_) => panic!("a configuration without a project must be refused"),
    }
    let mut config = NotificationConfig::default();
    config.enable_push_notifications = true;
    config.google_cloud_project_id = Some("proj".to_string());
    match setup_real_time_notifications(config) {
        Ok(PushSetup::On(push)) => {
            assert_eq!(push.project_id(), "proj");
            assert_eq!(push.topic_name(), "gmail-notifications");
            assert_eq!(push.subscription_name(), "rmail-subscription");
        }
        _ => panic!("a complete configuration must be accepted"),
    }
}

#[test]
fn small_types_and_reports() {
    assert!(Cli { clear_keyring: true }.clear_keyring);
    assert_eq!(
        handle_keyring_clear(Ok(())),
        ("Credentials removed from keyring. Exiting.".to_string(), false)
    );
    assert_eq!(
        handle_keyring_clear(Err("locked".to_string())),
        ("Failed to delete credentials from keyring: locked".to_string(), true)
    );
    assert_eq!(KEYRING_SERVICE_NAME, "rmail-gmail-credentials");
    assert_eq!(KEYRING_USERNAME, "default_user");
    let auth = AuthResult { token: "t".to_string(), client_secret_loaded_from_file: true };
    assert!(auth.client_secret_loaded_from_file && auth.token == "t");
    assert_ne!(LoadingStage::Authenticating, LoadingStage::Complete);
}
