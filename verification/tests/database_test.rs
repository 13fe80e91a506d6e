use rmail::database::{CachedMessage, Database};
use rmail::types::Label;

fn label(id: &str, name: &str) -> Label {
    Label { id: Some(id.to_string()), name: Some(name.to_string()) }
}

fn message(id: &str, labels: &[&str], internal_date: i64) -> CachedMessage {
    CachedMessage {
        id: id.to_string(),
        thread_id: Some(format!("thread_{}", id)),
        label_ids: labels.iter().map(|l| l.to_string()).collect(),
        snippet: Some("This is a test snippet.".to_string()),
        subject: Some("Test Subject".to_string()),
        from_addr: Some("sender@example.com".to_string()),
        to_addr: Some("recipient@example.com".to_string()),
        date_str: Some("Tue, 10 Jun 2025 14:00:00 -0600".to_string()),
        body_text: Some("This is the plain text body.".to_string()),
        body_html: Some("This is the HTML body.".to_string()),
        received_date: internal_date,
        internal_date,
        is_unread: true,
        is_starred: false,
        cache_timestamp: internal_date,
    }
}

fn ids(messages: &[CachedMessage]) -> Vec<String> {
    messages.iter().map(|m| m.id.clone()).collect()
}

#[test]
fn test_database_creation() {
    let db = Database::new();
    assert!(db.get_labels().is_empty());
}

#[test]
fn test_upsert_and_get_label() {
    let mut db = Database::new();
    db.upsert_label(&label("INBOX", "Inbox"));

    let fetched_labels = db.get_labels();
    assert_eq!(fetched_labels.len(), 1);
    assert_eq!(fetched_labels[0].id, "INBOX");
    assert_eq!(fetched_labels[0].name, "Inbox");
}

#[test]
fn test_upsert_and_get_message() {
    let mut db = Database::new();
    db.upsert_label(&label("INBOX", "Inbox"));
    db.upsert_label(&label("IMPORTANT", "Important"));

    let m = message("test_msg_1", &["INBOX", "IMPORTANT"], 1_000);
    db.upsert_message(&m);

    let messages_inbox = db.get_messages_for_label("INBOX", 10, 0);
    assert_eq!(messages_inbox.len(), 1);
    assert_eq!(messages_inbox[0].id, "test_msg_1");

    let messages_allmail = db.get_messages_for_label("ALLMAIL", 10, 0);
    assert_eq!(messages_allmail.len(), 1);
    assert_eq!(messages_allmail[0].id, "test_msg_1");
}

#[test]
fn test_app_initialization_with_missing_database() {
    let db = Database::new();
    let labels = db.get_labels();
    assert!(labels.is_empty(), "Labels should be empty in new database");
    let messages = db.get_messages_for_label("INBOX", 10, 0);
    assert!(messages.is_empty(), "Messages should be empty in new database");
}

#[test]
fn test_database_recreated_after_removal() {
    let mut db = Database::new();
    db.upsert_label(&label("INBOX", "Inbox"));
    db.upsert_message(&message("m", &["INBOX"], 5));
    drop(db);
    let db = Database::new();
    assert!(db.get_labels().is_empty(), "New database should have empty labels");
    assert!(
        db.get_messages_for_label("INBOX", 10, 0).is_empty(),
        "New database should have empty messages"
    );
}

#[test]
fn labels_come_back_ordered_by_name() {
    let mut db = Database::new();
    db.upsert_label(&label("SENT", "Sent"));
    db.upsert_label(&label("INBOX", "Inbox"));
    db.upsert_label(&label("L1", "alpha"));
    db.upsert_label(&label("DRAFT", "Drafts"));
    let names: Vec<String> = db.get_labels().iter().map(|l| l.name.clone()).collect();
    assert_eq!(names, vec!["Drafts", "Inbox", "Sent", "alpha"]);
}

#[test]
fn upsert_label_is_idempotent_and_renames() {
    let mut db = Database::new();
    db.upsert_label(&label("INBOX", "Inbox"));
    db.upsert_label(&label("INBOX", "Inbox"));
    assert_eq!(db.get_labels().len(), 1);
    db.upsert_label(&label("A", "Zebra"));
    db.upsert_label(&label("INBOX", "Zulu"));
    let labels = db.get_labels();
    assert_eq!(labels.len(), 2);
    assert_eq!(labels[0].id, "A");
    assert_eq!(labels[1].id, "INBOX");
    assert_eq!(labels[1].name, "Zulu");
}

#[test]
fn label_without_id_or_name_is_kept_with_empty_text() {
    let mut db = Database::new();
    db.upsert_label(&Label { id: None, name: None });
    let labels = db.get_labels();
    assert_eq!(labels.len(), 1);
    assert_eq!(labels[0].id, "");
    assert_eq!(labels[0].name, "");
}

#[test]
fn messages_come_back_most_recent_first() {
    let mut db = Database::new();
    db.upsert_message(&message("old", &["INBOX"], 100));
    db.upsert_message(&message("new", &["INBOX"], 300));
    db.upsert_message(&message("mid", &["INBOX"], 200));
    db.upsert_message(&message("tie", &["INBOX"], 200));
    let got = db.get_messages_for_label("INBOX", 10, 0);
    assert_eq!(ids(&got), vec!["new", "mid", "tie", "old"]);
}

#[test]
fn limit_and_offset_cut_a_window() {
    let mut db = Database::new();
    for (i, id) in ["a", "b", "c", "d", "e"].iter().enumerate() {
        db.upsert_message(&message(id, &["INBOX"], 1_000 - i as i64));
    }
    assert_eq!(ids(&db.get_messages_for_label("INBOX", 2, 0)), vec!["a", "b"]);
    assert_eq!(ids(&db.get_messages_for_label("INBOX", 2, 1)), vec!["b", "c"]);
    assert_eq!(ids(&db.get_messages_for_label("INBOX", 10, 3)), vec!["d", "e"]);
    assert_eq!(ids(&db.get_messages_for_label("INBOX", 0, 0)), Vec::<String>::new());
    assert_eq!(ids(&db.get_messages_for_label("INBOX", 3, 7)), Vec::<String>::new());
    assert_eq!(ids(&db.get_messages_for_label("INBOX", -1, 3)), vec!["d", "e"]);
    assert_eq!(ids(&db.get_messages_for_label("INBOX", 2, -5)), vec!["a", "b"]);
    assert_eq!(ids(&db.get_messages_for_label("INBOX", i64::MAX, i64::MAX)), Vec::<String>::new());
}

#[test]
fn all_mail_aggregates_every_label() {
    let mut db = Database::new();
    db.upsert_message(&message("in", &["INBOX"], 20));
    db.upsert_message(&message("out", &["SENT"], 10));
    assert_eq!(ids(&db.get_messages_for_label("ALLMAIL", 10, 0)), vec!["in", "out"]);
    assert_eq!(ids(&db.get_messages_for_label("INBOX", 10, 0)), vec!["in"]);
    assert_eq!(ids(&db.get_messages_for_label("SENT", 10, 0)), vec!["out"]);
    assert_eq!(ids(&db.get_messages_for_label("TRASH", 10, 0)), Vec::<String>::new());
}

#[test]
fn all_mail_is_recognised_in_any_letter_case() {
    let mut db = Database::new();
    db.upsert_message(&message("in", &["INBOX"], 20));
    db.upsert_message(&message("none", &[], 10));
    assert_eq!(ids(&db.get_messages_for_label("allmail", 10, 0)), vec!["in", "none"]);
    assert_eq!(ids(&db.get_messages_for_label("AllMail", 10, 0)), vec!["in", "none"]);
    assert_eq!(ids(&db.get_messages_for_label("inbox", 10, 0)), Vec::<String>::new());
}

#[test]
fn select_messages_takes_the_flag_as_given() {
    let mut db = Database::new();
    db.upsert_message(&message("in", &["INBOX"], 20));
    db.upsert_message(&message("out", &["SENT"], 10));
    assert_eq!(ids(&db.select_messages("INBOX", true, 10, 0)), vec!["in", "out"]);
    assert_eq!(ids(&db.select_messages("ALLMAIL", false, 10, 0)), Vec::<String>::new());
    assert_eq!(ids(&db.select_messages("SENT", false, 10, 0)), vec!["out"]);
}

#[test]
fn round_trip_returns_every_field() {
    let mut db = Database::new();
    let mut m = message("rt", &["INBOX", "IMPORTANT", "Label_7"], 77);
    m.thread_id = None;
    m.body_html = None;
    m.is_starred = true;
    m.received_date = 55;
    m.cache_timestamp = 99;
    db.upsert_message(&m);
    for l in ["INBOX", "IMPORTANT", "Label_7", "ALLMAIL"] {
        let got = db.get_messages_for_label(l, -1, 0);
        assert_eq!(got.len(), 1);
        let g = &got[0];
        assert_eq!(g.id, m.id);
        assert_eq!(g.thread_id, m.thread_id);
        assert_eq!(g.label_ids, m.label_ids);
        assert_eq!(g.snippet, m.snippet);
        assert_eq!(g.subject, m.subject);
        assert_eq!(g.from_addr, m.from_addr);
        assert_eq!(g.to_addr, m.to_addr);
        assert_eq!(g.date_str, m.date_str);
        assert_eq!(g.body_text, m.body_text);
        assert_eq!(g.body_html, m.body_html);
        assert_eq!(g.received_date, m.received_date);
        assert_eq!(g.internal_date, m.internal_date);
        assert_eq!(g.is_unread, m.is_unread);
        assert_eq!(g.is_starred, m.is_starred);
        assert_eq!(g.cache_timestamp, m.cache_timestamp);
    }
}

#[test]
fn upsert_message_replaces_row_and_labels() {
    let mut db = Database::new();
    db.upsert_message(&message("m", &["INBOX", "A"], 10));
    let mut changed = message("m", &["B"], 30);
    changed.subject = Some("Changed".to_string());
    db.upsert_message(&changed);
    assert!(db.get_messages_for_label("INBOX", 10, 0).is_empty());
    assert!(db.get_messages_for_label("A", 10, 0).is_empty());
    let got = db.get_messages_for_label("B", 10, 0);
    assert_eq!(got.len(), 1);
    assert_eq!(got[0].subject, Some("Changed".to_string()));
    assert_eq!(got[0].internal_date, 30);
    assert_eq!(got[0].label_ids, vec!["B"]);
    assert_eq!(db.get_messages_for_label("ALLMAIL", 10, 0).len(), 1);
}

#[test]
fn a_label_named_twice_counts_once() {
    let mut db = Database::new();
    db.upsert_message(&message("m", &["INBOX", "A", "INBOX"], 10));
    let got = db.get_messages_for_label("INBOX", 10, 0);
    assert_eq!(got.len(), 1);
    assert_eq!(got[0].label_ids, vec!["INBOX", "A"]);
}

#[test]
fn archive_removes_inbox_only_and_is_idempotent() {
    let mut db = Database::new();
    db.upsert_message(&message("m", &["INBOX", "IMPORTANT"], 10));
    db.upsert_message(&message("other", &["INBOX"], 5));
    db.mark_archived("m");
    let once = db.get_messages_for_label("ALLMAIL", 10, 0);
    assert_eq!(once[0].label_ids, vec!["IMPORTANT"]);
    assert_eq!(once[1].label_ids, vec!["INBOX"]);
    assert_eq!(ids(&db.get_messages_for_label("INBOX", 10, 0)), vec!["other"]);
    db.mark_archived("m");
    let twice = db.get_messages_for_label("ALLMAIL", 10, 0);
    assert_eq!(twice[0].label_ids, vec!["IMPORTANT"]);
    assert_eq!(twice[1].label_ids, vec!["INBOX"]);
    assert_eq!(ids(&db.get_messages_for_label("IMPORTANT", 10, 0)), vec!["m"]);
}

#[test]
fn archive_of_an_unknown_message_changes_nothing() {
    let mut db = Database::new();
    db.upsert_message(&message("m", &["INBOX"], 10));
    db.mark_archived("nobody");
    assert_eq!(ids(&db.get_messages_for_label("INBOX", 10, 0)), vec!["m"]);
}

#[test]
fn delete_leaves_trash_only_and_is_idempotent() {
    let mut db = Database::new();
    db.upsert_message(&message("m", &["INBOX", "IMPORTANT"], 10));
    db.upsert_message(&message("other", &["INBOX"], 5));
    db.mark_deleted("m");
    assert_eq!(ids(&db.get_messages_for_label("TRASH", 10, 0)), vec!["m"]);
    assert_eq!(db.get_messages_for_label("TRASH", 10, 0)[0].label_ids, vec!["TRASH"]);
    assert_eq!(ids(&db.get_messages_for_label("INBOX", 10, 0)), vec!["other"]);
    assert!(db.get_messages_for_label("IMPORTANT", 10, 0).is_empty());
    db.mark_deleted("m");
    assert_eq!(db.get_messages_for_label("TRASH", 10, 0).len(), 1);
    assert_eq!(db.get_messages_for_label("TRASH", 10, 0)[0].label_ids, vec!["TRASH"]);
}

#[test]
fn sync_state_is_absent_until_recorded() {
    let mut db = Database::new();
    assert!(db.get_sync_state("INBOX").is_none());
    db.update_sync_state("INBOX", Some("12345"), 1_000);
    let s = db.get_sync_state("INBOX").unwrap();
    assert_eq!(s.label_id, "INBOX");
    assert_eq!(s.history_cursor, Some("12345".to_string()));
    assert_eq!(s.last_synced_at, 1_000);
    assert!(db.get_sync_state("SENT").is_none());
    db.update_sync_state("INBOX", None, 2_000);
    let s = db.get_sync_state("INBOX").unwrap();
    assert_eq!(s.history_cursor, None);
    assert_eq!(s.last_synced_at, 2_000);
}

#[test]
fn cleanup_removes_old_messages_with_their_labels() {
    let mut db = Database::new();
    let mut old = message("old", &["INBOX"], 500);
    old.cache_timestamp = 1_000;
    let mut edge = message("edge", &["INBOX"], 400);
    edge.cache_timestamp = 4_000;
    let mut fresh = message("fresh", &["INBOX", "A"], 300);
    fresh.cache_timestamp = 9_000;
    db.upsert_message(&old);
    db.upsert_message(&edge);
    db.upsert_message(&fresh);
    let removed = db.cleanup_older_than(6_000, 10_000);
    assert_eq!(removed, 1);
    assert_eq!(ids(&db.get_messages_for_label("INBOX", 10, 0)), vec!["edge", "fresh"]);
    db.upsert_message(&message("old", &[], 1));
    assert!(db.get_messages_for_label("INBOX", 10, 0).iter().all(|m| m.id != "old"));
    assert_eq!(db.cleanup_older_than(0, 10_000), 3);
    assert!(db.get_messages_for_label("ALLMAIL", 10, 0).is_empty());
    assert_eq!(db.cleanup_older_than(0, 10_000), 0);
}
