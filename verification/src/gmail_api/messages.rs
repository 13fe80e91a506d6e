//! Message listings of the remote service: which messages to ask for, and
//! how a retrieved list enters the view, the caches and the store.
use vstd::prelude::*;
use crate::database::{or_empty, CachedMessage, CachedMessageView, DatabaseView, Millis};
use crate::email_content::{body_of_kind, extract_html_body, extract_plain_text_body};
use crate::state::{or_text, AppState, AppStateView};
use crate::table::{first_index, lemma_first_index_is, page};
use crate::text::{is_all_mail, spec_is_all_mail, str_eq};
use crate::types::{clone_messages, clone_strings};
use crate::types::{Header, HeaderView, Message, MessageHeadersDisplay, MessageHeadersDisplayView};
use crate::types::{MessageRef, MessageView};

verus! {

/// The instant that a date line in the format of RFC 2822 names, in
/// milliseconds since the Unix epoch, as chrono's
/// `DateTime::parse_from_rfc2822` reads it; none where chrono rejects the
/// line.
pub uninterp spec fn rfc2822_millis(line: Seq<char>) -> Option<i64>;

/// `DateTime::parse_from_rfc2822` of chrono, with the instant taken as
/// milliseconds since the Unix epoch.
#[verifier::external_body]
fn parse_rfc2822_millis(line: &str) -> (r: Option<i64>)
    ensures
        r == rfc2822_millis(line@),
{
    match chrono::DateTime::parse_from_rfc2822(line) {
        Ok(instant) => Some(instant.timestamp_millis()),
        Err(_) => None,
    }
}

/// Headers with the given name.
pub open spec fn has_name(name: Seq<char>) -> spec_fn(HeaderView) -> bool {
    |h: HeaderView| h.name == Some(name)
}

/// The value of the first header with the given name; none where no header
/// has the name or the first one that has it lacks a value.
pub open spec fn header_value(headers: Seq<HeaderView>, name: Seq<char>) -> Option<Seq<char>> {
    let i = first_index(headers, has_name(name));
    if i < headers.len() {
        headers[i].value
    } else {
        None
    }
}

/// The value of a header of a message's top part.
pub open spec fn message_header(message: MessageView, name: Seq<char>) -> Option<Seq<char>> {
    match message.payload {
        Some(part) => match part.headers {
            Some(headers) => header_value(headers, name),
            None => None,
        },
        None => None,
    }
}

/// The time that a date line names, if there is a line and it can be read.
pub open spec fn parsed_date(line: Option<Seq<char>>) -> Option<i64> {
    match line {
        Some(l) => rfc2822_millis(l),
        None => None,
    }
}

/// The row that a refresh of `label` writes for a retrieved message: under
/// a real label the message is tied to that label alone, under the virtual
/// all-mail label, where `all_mail` is set, to the labels it carries. Its
/// internal date is the date that its date line names, or `now` where that
/// cannot be told.
pub open spec fn cached_of_fetched(
    message: MessageView,
    id: Seq<char>,
    label: Seq<char>,
    all_mail: bool,
    parsed: Option<i64>,
    now: Millis,
) -> CachedMessageView {
    CachedMessageView {
        id,
        thread_id: message.thread_id,
        label_ids: if all_mail {
            match message.label_ids {
                Some(ids) => ids,
                None => Seq::empty(),
            }
        } else {
            seq![label]
        },
        snippet: message.snippet,
        subject: message_header(message, "Subject"@),
        from_addr: message_header(message, "From"@),
        to_addr: None,
        date_str: message_header(message, "Date"@),
        body_text: None,
        body_html: None,
        received_date: now,
        internal_date: match parsed {
            Some(t) => t,
            None => now,
        },
        is_unread: false,
        is_starred: false,
        cache_timestamp: now,
    }
}

/// The headers cache after subject and sender of each retrieved message
/// that has an id and both headers were entered.
pub open spec fn fetched_headers_with(
    headers: Map<Seq<char>, (Seq<char>, Seq<char>)>,
    messages: Seq<MessageView>,
) -> Map<Seq<char>, (Seq<char>, Seq<char>)>
    decreases messages.len(),
{
    if messages.len() == 0 {
        headers
    } else {
        let before = fetched_headers_with(headers, messages.drop_last());
        let m = messages.last();
        match (m.id, message_header(m, "Subject"@), message_header(m, "From"@)) {
            (Some(id), Some(subject), Some(from)) => before.insert(id, (subject, from)),
            _ => before,
        }
    }
}

/// The bodies cache after the date line of each retrieved message that has
/// an id and a date header was entered.
pub open spec fn fetched_dates_with(
    bodies: Map<Seq<char>, Seq<char>>,
    messages: Seq<MessageView>,
) -> Map<Seq<char>, Seq<char>>
    decreases messages.len(),
{
    if messages.len() == 0 {
        bodies
    } else {
        let before = fetched_dates_with(bodies, messages.drop_last());
        let m = messages.last();
        match (m.id, message_header(m, "Date"@)) {
            (Some(id), Some(date)) => before.insert(id + "_date"@, date),
            _ => before,
        }
    }
}

/// The store after each retrieved message that has an id was written for
/// `label` at `now`, in order.
pub open spec fn store_fetched(
    db: DatabaseView,
    messages: Seq<MessageView>,
    label: Seq<char>,
    now: Millis,
) -> DatabaseView
    decreases messages.len(),
{
    if messages.len() == 0 {
        db
    } else {
        let before = store_fetched(db, messages.drop_last(), label, now);
        let m = messages.last();
        match m.id {
            Some(id) => before.upsert_message(
                cached_of_fetched(
                    m,
                    id,
                    label,
                    spec_is_all_mail(label),
                    parsed_date(message_header(m, "Date"@)),
                    now,
                ),
            ),
            None => before,
        }
    }
}

/// The store after a refresh of the selected label brought `messages`: the
/// messages are written and the label's sync record is renewed. Nothing is
/// written where no label is selected or it has no id.
pub open spec fn store_after_refresh(
    db: Option<DatabaseView>,
    label: Option<Seq<char>>,
    messages: Seq<MessageView>,
    now: Millis,
) -> Option<DatabaseView> {
    match (db, label) {
        (Some(d), Some(l)) => Some(store_fetched(d, messages, l, now).update_sync_state(l, None, now)),
        _ => db,
    }
}

/// The message shown when a refresh failed.
pub open spec fn fetch_failure_text() -> Seq<char> {
    "Failed to fetch messages. Please check your internet connection and try again."@
}

/// The state after a refresh of the selected label ended. With messages
/// retrieved, the list is reconciled with them, their headers and dates
/// enter the caches, they are written to the store for the selected label,
/// the label's sync record is renewed, and the list is kept for the label.
/// With nothing retrieved, the failure is put into the status slot and
/// nothing else changes.
pub open spec fn after_refresh(
    state: AppStateView,
    fetched: Option<Seq<MessageView>>,
    now: Millis,
) -> AppStateView {
    match fetched {
        None => AppStateView { error_message: Some(fetch_failure_text()), ..state },
        Some(messages) => {
            let shown = state.reconcile(messages);
            let label = state.label_id_at(state.selected_label);
            AppStateView {
                message_headers: fetched_headers_with(state.message_headers, messages),
                message_bodies: fetched_dates_with(state.message_bodies, messages),
                database: store_after_refresh(state.database, label, messages, now),
                label_messages_cache: match label {
                    Some(l) => state.label_messages_cache.insert(l, messages),
                    None => state.label_messages_cache,
                },
                loaded_labels: match label {
                    Some(l) => state.loaded_labels.insert(l),
                    None => state.loaded_labels,
                },
                ..shown
            }
        },
    }
}

/// The value of the first header with the given name.
pub fn find_header(headers: &Vec<Header>, name: &str) -> (value: Option<String>)
    ensures
        value.deep_view() == header_value(headers.deep_view(), name@),
{
    let ghost rows = headers.deep_view();
    let ghost pred = has_name(name@);
    let mut i: usize = 0;
    while i < headers.len()
        invariant
            i <= headers.len(),
            rows == headers.deep_view(),
            pred == has_name(name@),
            forall|k: int| 0 <= k < i ==> !pred(#[trigger] rows[k]),
        decreases headers.len() - i,
    {
        let found = match &headers[i].name {
            Some(n) => str_eq(n.as_str(), name),
            None => false,
        };
        if found {
            proof {
                lemma_first_index_is(rows, pred, i as int);
            }
            return headers[i].value.clone();
        }
        i += 1;
    }
    proof {
        lemma_first_index_is(rows, pred, i as int);
    }
    None
}

/// The value of a header of a message's top part.
pub fn header_of(message: &Message, name: &str) -> (value: Option<String>)
    ensures
        value.deep_view() == message_header(message@, name@),
{
    match &message.payload {
        Some(part) => match &part.headers {
            Some(headers) => find_header(headers, name),
            None => None,
        },
        None => None,
    }
}

/// Builds the row that a refresh of `label` writes for a retrieved message,
/// given what the parsing of its date line gave.
pub fn cached_from_fetched(
    message: &Message,
    id: &String,
    label: &String,
    all_mail: bool,
    parsed: Option<i64>,
    now: Millis,
) -> (row: CachedMessage)
    ensures
        row@ == cached_of_fetched(message@, id@, label@, all_mail, parsed, now),
{
    let label_ids: Vec<String> = if all_mail {
        match &message.label_ids {
            Some(ids) => clone_strings(ids),
            None => Vec::new(),
        }
    } else {
        let mut one: Vec<String> = Vec::new();
        one.push(label.clone());
        one
    };
    proof {
        if all_mail {
            if message.label_ids is None {
                assert(label_ids.deep_view() =~= Seq::<Seq<char>>::empty());
            }
        } else {
            assert(label_ids.deep_view() =~= seq![label@]);
        }
    }
    CachedMessage {
        id: id.clone(),
        thread_id: message.thread_id.clone(),
        label_ids,
        snippet: message.snippet.clone(),
        subject: header_of(message, "Subject"),
        from_addr: header_of(message, "From"),
        to_addr: None,
        date_str: header_of(message, "Date"),
        body_text: None,
        body_html: None,
        received_date: now,
        internal_date: match parsed {
            Some(t) => t,
            None => now,
        },
        is_unread: false,
        is_starred: false,
        cache_timestamp: now,
    }
}

/// Completes a refresh of the selected label with what the remote service
/// returned, `None` standing for a failed retrieval.
pub fn fetch_messages_for_label(state: &mut AppState, fetched: Option<Vec<Message>>, now: Millis)
    ensures
        final(state)@ == after_refresh(
            old(state)@,
            match fetched {
                Some(m) => Some(m.deep_view()),
                None => None,
            },
            now,
        ),
{
    let messages = match fetched {
        Some(m) => m,
        None => {
            state.set_error_message(
                "Failed to fetch messages. Please check your internet connection and try again.".to_string(),
            );
            return ;
        },
    };
    let ghost before = old(state)@;
    let ghost rows = messages.deep_view();
    let label: Option<String> = if state.selected_label < state.labels.len() {
        state.labels[state.selected_label].id.clone()
    } else {
        None
    };
    assert(label.deep_view() == before.label_id_at(before.selected_label));
    let all_mail = match &label {
        Some(l) => is_all_mail(l.as_str()),
        None => false,
    };
    state.reconcile(clone_messages(&messages));
    let ghost shown = state@;

    let mut k: usize = 0;
    assert(rows.take(0) =~= Seq::<MessageView>::empty());
    while k < messages.len()
        invariant
            k <= messages.len(),
            rows == messages.deep_view(),
            label.deep_view() == before.label_id_at(before.selected_label),
            label matches Some(l) ==> all_mail == spec_is_all_mail(l@),
            shown.database == before.database,
            state@ == (AppStateView {
                message_headers: fetched_headers_with(before.message_headers, rows.take(k as int)),
                message_bodies: fetched_dates_with(before.message_bodies, rows.take(k as int)),
                database: match (before.database, label.deep_view()) {
                    (Some(d), Some(l)) => Some(store_fetched(d, rows.take(k as int), l, now)),
                    _ => before.database,
                },
                ..shown
            }),
        decreases messages.len() - k,
    {
        assert(rows.take(k + 1).drop_last() =~= rows.take(k as int));
        assert(rows.take(k + 1).last() == rows[k as int]);
        let message = &messages[k];
        match &message.id {
            Some(id) => {
                let subject = header_of(message, "Subject");
                let from = header_of(message, "From");
                let date = header_of(message, "Date");
                match (&subject, &from) {
                    (Some(s), Some(f)) => {
                        state.message_headers.insert(id.clone(), (s.clone(), f.clone()));
                    },
                    _ => {},
                }
                match &date {
                    Some(d) => {
                        let mut key = id.clone();
                        key.append("_date");
                        state.message_bodies.insert(key, d.clone());
                    },
                    None => {},
                }
                match &label {
                    Some(l) => {
                        let parsed = match &date {
                            Some(d) => parse_rfc2822_millis(d.as_str()),
                            None => None,
                        };
                        let row = cached_from_fetched(message, id, l, all_mail, parsed, now);
                        match &mut state.database {
                            Some(db) => {
                                db.upsert_message(&row);
                            },
                            None => {},
                        }
                    },
                    None => {},
                }
            },
            None => {},
        }
        k += 1;
    }
    assert(rows.take(messages.len() as int) =~= rows);
    match &label {
        Some(l) => {
            match &mut state.database {
                Some(db) => {
                    db.update_sync_state(l.as_str(), None, now);
                },
                None => {},
            }
        },
        None => {},
    }
    let index = state.selected_label;
    state.cache_messages_for_label(index, messages);
}

/// The text of the body of the wanted kind of a message; none where the
/// message has no content or no such body.
pub open spec fn message_body(message: MessageView, mime: Seq<char>) -> Option<Seq<char>> {
    match message.payload {
        Some(part) => body_of_kind(part, mime),
        None => None,
    }
}

/// The header lines that a fully retrieved message puts on display, with a
/// fallback text for each line that the message lacks.
pub open spec fn display_of_full(message: MessageView) -> MessageHeadersDisplayView {
    MessageHeadersDisplayView {
        subject: or_text(message_header(message, "Subject"@), "(no subject)"@),
        from: or_text(message_header(message, "From"@), "(unknown sender)"@),
        to: or_text(message_header(message, "To"@), "(unknown recipient)"@),
        date: or_text(message_header(message, "Date"@), "(unknown date)"@),
    }
}

/// The row that the store keeps for a fully retrieved message.
pub open spec fn cached_of_full(message: MessageView, id: Seq<char>, now: Millis) -> CachedMessageView {
    let shown = display_of_full(message);
    CachedMessageView {
        id,
        thread_id: message.thread_id,
        label_ids: match message.label_ids {
            Some(ids) => ids,
            None => Seq::empty(),
        },
        snippet: message.snippet,
        subject: Some(shown.subject),
        from_addr: Some(shown.from),
        to_addr: Some(shown.to),
        date_str: Some(shown.date),
        body_text: Some(or_empty(message_body(message, "text/plain"@))),
        body_html: message_body(message, "text/html"@),
        received_date: now,
        internal_date: now,
        is_unread: false,
        is_starred: false,
        cache_timestamp: now,
    }
}

/// The state after a message was retrieved in full: its plain-text body and
/// its date line enter the bodies cache, its header lines go on display, and
/// the store keeps the message with both bodies.
pub open spec fn after_full_message(
    state: AppStateView,
    id: Seq<char>,
    message: MessageView,
    now: Millis,
) -> AppStateView {
    let shown = display_of_full(message);
    AppStateView {
        message_bodies: state.message_bodies.insert(
            id,
            or_empty(message_body(message, "text/plain"@)),
        ).insert(id + "_date"@, shown.date),
        current_message_display_headers: Some(shown),
        database: match state.database {
            Some(db) => Some(db.upsert_message(cached_of_full(message, id, now))),
            None => None,
        },
        ..state
    }
}

/// The state after a further page of messages arrived: the page is appended
/// to the list, and the longer list is kept for the selected label. An empty
/// page, or none, changes nothing.
pub open spec fn after_more_messages(state: AppStateView, more: Option<Seq<MessageView>>) -> AppStateView {
    match more {
        Some(page) if page.len() > 0 => AppStateView {
            messages: state.messages + page,
            label_messages_cache: match state.label_id_at(state.selected_label) {
                Some(l) => state.label_messages_cache.insert(l, state.messages + page),
                None => state.label_messages_cache,
            },
            ..state
        },
        _ => state,
    }
}

/// The text of an optional string, or the fallback where there is none.
fn value_or(value: Option<String>, fallback: &str) -> (r: String)
    ensures
        r@ == or_text(value.deep_view(), fallback@),
{
    match value {
        Some(v) => v,
        None => fallback.to_string(),
    }
}

/// Enters a fully retrieved message into the view, the caches and the store.
pub fn fetch_full_message(state: &mut AppState, msg_id: &str, message: &Message, now: Millis)
    ensures
        final(state)@ == after_full_message(old(state)@, msg_id@, message@, now),
{
    let (plain, html) = match &message.payload {
        Some(part) => (extract_plain_text_body(part), extract_html_body(part)),
        None => (None, None),
    };
    let body_text = match plain {
        Some(t) => t,
        None => String::new(),
    };
    let subject = value_or(header_of(message, "Subject"), "(no subject)");
    let from = value_or(header_of(message, "From"), "(unknown sender)");
    let to = value_or(header_of(message, "To"), "(unknown recipient)");
    let date = value_or(header_of(message, "Date"), "(unknown date)");

    state.message_bodies.insert(msg_id.to_string(), body_text.clone());
    let mut date_key = msg_id.to_string();
    date_key.append("_date");
    state.message_bodies.insert(date_key, date.clone());
    state.current_message_display_headers = Some(
        MessageHeadersDisplay {
            subject: subject.clone(),
            from: from.clone(),
            to: to.clone(),
            date: date.clone(),
        },
    );
    let label_ids: Vec<String> = match &message.label_ids {
        Some(ids) => clone_strings(ids),
        None => Vec::new(),
    };
    proof {
        if message.label_ids is None {
            assert(label_ids.deep_view() =~= Seq::<Seq<char>>::empty());
        }
    }
    let row = CachedMessage {
        id: msg_id.to_string(),
        thread_id: message.thread_id.clone(),
        label_ids,
        snippet: message.snippet.clone(),
        subject: Some(subject),
        from_addr: Some(from),
        to_addr: Some(to),
        date_str: Some(date),
        body_text: Some(body_text),
        body_html: html,
        received_date: now,
        internal_date: now,
        is_unread: false,
        is_starred: false,
        cache_timestamp: now,
    };
    match &mut state.database {
        Some(db) => {
            db.upsert_message(&row);
        },
        None => {},
    }
}

/// Where the next page of the list on display starts, and how many messages
/// it holds at most: it starts after the messages that are held, so that no
/// message is asked for twice.
pub fn next_page_request(state: &AppState) -> (request: (usize, usize))
    ensures
        request.0 == state.messages.len(),
        request.1 == state.messages_per_screen,
{
    (state.messages.len(), state.messages_per_screen)
}

/// Whether the selection has come so close to the end of the list that the
/// next page is wanted: less than a screen of messages lies below it.
pub fn wants_more_messages(state: &AppState) -> (wanted: bool)
    ensures
        wanted == (state.selected_message + state.messages_per_screen >= state.messages.len()),
{
    state.selected_message as u128 + state.messages_per_screen as u128 >= state.messages.len() as u128
}

/// Appends a further page of messages to the list on display, `None`
/// standing for a failed retrieval.
pub fn load_more_messages(state: &mut AppState, more: Option<Vec<Message>>)
    ensures
        final(state)@ == after_more_messages(
            old(state)@,
            match more {
                Some(m) => Some(m.deep_view()),
                None => None,
            },
        ),
{
    match more {
        Some(mut page) => {
            if page.len() > 0 {
                let ghost first = state.messages.deep_view();
                let ghost second = page.deep_view();
                state.messages.append(&mut page);
                assert(state.messages.deep_view() =~= first + second);
                if state.selected_label < state.labels.len() {
                    match &state.labels[state.selected_label].id {
                        Some(id) => {
                            let key = id.clone();
                            let copy = clone_messages(&state.messages);
                            state.label_messages_cache.insert(key, copy);
                        },
                        None => {},
                    }
                }
            }
        },
        None => {},
    }
}

/// The ids of the given message references, in their order; a reference
/// without an id is passed over.
pub open spec fn ids_of(refs: Seq<Option<Seq<char>>>) -> Seq<Seq<char>>
    decreases refs.len(),
{
    if refs.len() == 0 {
        Seq::empty()
    } else {
        match refs.last() {
            Some(id) => ids_of(refs.drop_last()).push(id),
            None => ids_of(refs.drop_last()),
        }
    }
}

/// The ids of a listing as the remote service returned it.
pub open spec fn ref_ids(refs: Seq<MessageRef>) -> Seq<Option<Seq<char>>> {
    Seq::new(refs.len(), |i: int| refs[i].id.deep_view())
}

/// The ids of the messages to retrieve for a page of a listing: those of the
/// references after the first `offset`, `limit` of them at most.
pub fn ids_to_fetch(refs: &Vec<MessageRef>, offset: usize, limit: usize) -> (ids: Vec<String>)
    ensures
        ids.deep_view() == ids_of(page(ref_ids(refs@), limit as int, offset as int)),
{
    let ghost all = ref_ids(refs@);
    let start: usize = if offset > refs.len() {
        refs.len()
    } else {
        offset
    };
    let end: usize = if limit > refs.len() - start {
        refs.len()
    } else {
        start + limit
    };
    let ghost window = page(all, limit as int, offset as int);
    assert(window =~= all.subrange(start as int, end as int));
    let mut ids: Vec<String> = Vec::new();
    let mut i: usize = start;
    assert(window.take(0) =~= Seq::<Option<Seq<char>>>::empty());
    assert(ids.deep_view() =~= ids_of(window.take(0)));
    while i < end
        invariant
            start <= i <= end <= refs.len(),
            all == ref_ids(refs@),
            window == all.subrange(start as int, end as int),
            ids.deep_view() == ids_of(window.take(i - start)),
        decreases end - i,
    {
        assert(window.take(i - start + 1).drop_last() =~= window.take(i - start));
        assert(window.take(i - start + 1).last() == refs[i as int].id.deep_view());
        match &refs[i].id {
            Some(id) => {
                let ghost before = ids.deep_view();
                ids.push(id.clone());
                assert(ids.deep_view() =~= before.push(id@));
            },
            None => {},
        }
        i += 1;
    }
    assert(window.take(end - start) =~= window);
    ids
}

/// The number of messages to ask a listing for, so that it reaches the end
/// of the wanted page; it stops at the largest number that can be told.
pub fn listing_size(offset: usize, limit: usize) -> (n: usize)
    ensures
        n == if offset + limit > usize::MAX {
            usize::MAX
        } else {
            (offset + limit) as usize
        },
{
    if limit > usize::MAX - offset {
        usize::MAX
    } else {
        offset + limit
    }
}

} // verus!
