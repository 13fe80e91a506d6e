//! The sync engine: what a command makes the engine do at once, what it
//! asks of the remote service, and what it makes of the answer. Archive and
//! delete are optimistic: the store changes first, the remote service is
//! asked afterwards, and a remote failure is reported without undoing the
//! local change.
use vstd::prelude::*;
use crate::database::{or_empty, CachedMessage, CachedMessageView, DatabaseView, Millis};
use crate::gmail_api::messages::{header_of, message_header};
use crate::staleness::{is_stale, last_synced, spec_is_stale, DEFAULT_STALE_AFTER_MS};
use crate::state::{AppState, AppStateView};
use crate::text::{join2, join3, str_eq};
use crate::types::{clone_strings, Label, LabelView, Message, MessageView};

verus! {

/// How many messages a sync of a label asks for.
pub const SYNC_BATCH: usize = 100;

/// A failure of the local store.
#[derive(Debug)]
pub enum StorageError {
    /// No store is attached to the view state.
    Unavailable,
    /// Reading or writing the durable copy failed, with the reason.
    Io(String),
}

pub enum StorageErrorView {
    Unavailable,
    Io(Seq<char>),
}

impl DeepView for StorageError {
    type V = StorageErrorView;

    open spec fn deep_view(&self) -> StorageErrorView {
        match self {
            StorageError::Unavailable => StorageErrorView::Unavailable,
            StorageError::Io(reason) => StorageErrorView::Io(reason@),
        }
    }
}

impl StorageErrorView {
    /// The failure in words.
    pub open spec fn text(self) -> Seq<char> {
        match self {
            StorageErrorView::Unavailable => "no local store is attached"@,
            StorageErrorView::Io(reason) => reason,
        }
    }
}

impl StorageError {
    /// The failure in words.
    pub fn message(&self) -> (text: String)
        ensures
            text@ == self.deep_view().text(),
    {
        match self {
            StorageError::Unavailable => "no local store is attached".to_string(),
            StorageError::Io(reason) => reason.clone(),
        }
    }
}

/// What the engine can be told to do.
#[derive(Debug)]
pub enum SyncCommand {
    SyncLabel(String),
    SyncAllLabels,
    ArchiveMessage(String),
    DeleteMessage(String),
    RefreshMessages(String),
    Shutdown,
}

pub enum SyncCommandView {
    SyncLabel(Seq<char>),
    SyncAllLabels,
    ArchiveMessage(Seq<char>),
    DeleteMessage(Seq<char>),
    RefreshMessages(Seq<char>),
    Shutdown,
}

impl DeepView for SyncCommand {
    type V = SyncCommandView;

    open spec fn deep_view(&self) -> SyncCommandView {
        match self {
            SyncCommand::SyncLabel(l) => SyncCommandView::SyncLabel(l@),
            SyncCommand::SyncAllLabels => SyncCommandView::SyncAllLabels,
            SyncCommand::ArchiveMessage(m) => SyncCommandView::ArchiveMessage(m@),
            SyncCommand::DeleteMessage(m) => SyncCommandView::DeleteMessage(m@),
            SyncCommand::RefreshMessages(l) => SyncCommandView::RefreshMessages(l@),
            SyncCommand::Shutdown => SyncCommandView::Shutdown,
        }
    }
}

/// What the engine tells the interface.
#[derive(Debug)]
pub enum SyncEvent {
    /// A label was synced; the number of messages written to the store.
    LabelSynced(String, usize),
    MessageArchived(String),
    MessageDeleted(String),
    SyncError(String),
    CacheUpdated,
}

pub enum SyncEventView {
    LabelSynced(Seq<char>, usize),
    MessageArchived(Seq<char>),
    MessageDeleted(Seq<char>),
    SyncError(Seq<char>),
    CacheUpdated,
}

impl DeepView for SyncEvent {
    type V = SyncEventView;

    open spec fn deep_view(&self) -> SyncEventView {
        match self {
            SyncEvent::LabelSynced(l, n) => SyncEventView::LabelSynced(l@, *n),
            SyncEvent::MessageArchived(m) => SyncEventView::MessageArchived(m@),
            SyncEvent::MessageDeleted(m) => SyncEventView::MessageDeleted(m@),
            SyncEvent::SyncError(e) => SyncEventView::SyncError(e@),
            SyncEvent::CacheUpdated => SyncEventView::CacheUpdated,
        }
    }
}

/// What the engine asks of the remote service. The caller performs the
/// request and hands the answer to `handle_response`.
#[derive(Debug)]
pub enum RemoteRequest {
    /// List the messages of a label. `announce` asks for a cache-updated
    /// event once the answer is in.
    FetchMessages { label_id: String, limit: usize, announce: bool },
    FetchLabels,
    /// Take the inbox label from a message.
    Archive { message_id: String },
    /// Move a message to the trash.
    Trash { message_id: String },
}

pub enum RemoteRequestView {
    FetchMessages { label_id: Seq<char>, limit: usize, announce: bool },
    FetchLabels,
    Archive { message_id: Seq<char> },
    Trash { message_id: Seq<char> },
}

impl DeepView for RemoteRequest {
    type V = RemoteRequestView;

    open spec fn deep_view(&self) -> RemoteRequestView {
        match self {
            RemoteRequest::FetchMessages { label_id, limit, announce } => RemoteRequestView::FetchMessages {
                label_id: label_id@,
                limit: *limit,
                announce: *announce,
            },
            RemoteRequest::FetchLabels => RemoteRequestView::FetchLabels,
            RemoteRequest::Archive { message_id } => RemoteRequestView::Archive {
                message_id: message_id@,
            },
            RemoteRequest::Trash { message_id } => RemoteRequestView::Trash { message_id: message_id@ },
        }
    }
}

/// The answer of the remote service to a request; `None` and `Err` stand
/// for a failure.
pub enum RemoteResponse {
    Messages(Option<Vec<Message>>),
    Labels(Option<Vec<Label>>),
    Done(Result<(), String>),
}

pub enum RemoteResponseView {
    Messages(Option<Seq<MessageView>>),
    Labels(Option<Seq<LabelView>>),
    Done(Result<(), Seq<char>>),
}

impl DeepView for RemoteResponse {
    type V = RemoteResponseView;

    open spec fn deep_view(&self) -> RemoteResponseView {
        match self {
            RemoteResponse::Messages(m) => RemoteResponseView::Messages(m.deep_view()),
            RemoteResponse::Labels(l) => RemoteResponseView::Labels(l.deep_view()),
            RemoteResponse::Done(r) => RemoteResponseView::Done(
                match r {
                    Ok(_) => Ok(()),
                    Err(e) => Err(e@),
                },
            ),
        }
    }
}

/// What a step of the engine leaves for its caller: events for the
/// interface, requests for the remote service, and whether to stop.
pub struct SyncOutcome {
    pub events: Vec<SyncEvent>,
    pub requests: Vec<RemoteRequest>,
    pub stop: bool,
}

pub struct SyncOutcomeView {
    pub events: Seq<SyncEventView>,
    pub requests: Seq<RemoteRequestView>,
    pub stop: bool,
}

impl DeepView for SyncOutcome {
    type V = SyncOutcomeView;

    open spec fn deep_view(&self) -> SyncOutcomeView {
        SyncOutcomeView {
            events: self.events.deep_view(),
            requests: self.requests.deep_view(),
            stop: self.stop,
        }
    }
}

impl SyncOutcomeView {
    /// Nothing to tell, nothing to ask.
    pub open spec fn nothing() -> SyncOutcomeView {
        SyncOutcomeView { events: Seq::empty(), requests: Seq::empty(), stop: false }
    }

    /// This outcome followed by another.
    pub open spec fn followed_by(self, next: SyncOutcomeView) -> SyncOutcomeView {
        SyncOutcomeView {
            events: self.events + next.events,
            requests: self.requests + next.requests,
            stop: self.stop || next.stop,
        }
    }
}

/// Whether a list of labels names the given one.
pub open spec fn carries(labels: Option<Seq<Seq<char>>>, label: Seq<char>) -> bool {
    match labels {
        Some(ids) => ids.contains(label),
        None => false,
    }
}

/// The row that a sync writes for a retrieved message: its headers as far
/// as it has them, its snippet as body, the flags that its labels state,
/// and `now` for every time stamp.
pub open spec fn cached_of_synced(message: MessageView, now: Millis) -> CachedMessageView {
    CachedMessageView {
        id: or_empty(message.id),
        thread_id: message.thread_id,
        label_ids: match message.label_ids {
            Some(ids) => ids,
            None => Seq::empty(),
        },
        snippet: message.snippet,
        subject: message_header(message, "Subject"@),
        from_addr: message_header(message, "From"@),
        to_addr: None,
        date_str: message_header(message, "Date"@),
        body_text: message.snippet,
        body_html: None,
        received_date: now,
        internal_date: now,
        is_unread: carries(message.label_ids, "UNREAD"@),
        is_starred: carries(message.label_ids, "STARRED"@),
        cache_timestamp: now,
    }
}

/// The store after each retrieved message was written, in order.
pub open spec fn store_synced(db: DatabaseView, messages: Seq<MessageView>, now: Millis) -> DatabaseView
    decreases messages.len(),
{
    if messages.len() == 0 {
        db
    } else {
        store_synced(db, messages.drop_last(), now).upsert_message(
            cached_of_synced(messages.last(), now),
        )
    }
}

/// The store after each label was written, in order.
pub open spec fn store_labels(db: DatabaseView, labels: Seq<LabelView>) -> DatabaseView
    decreases labels.len(),
{
    if labels.len() == 0 {
        db
    } else {
        store_labels(db, labels.drop_last()).upsert_label(
            crate::database::cached_label_of(labels.last()),
        )
    }
}

/// Whether the store proves that a label was synced less than the default
/// threshold ago.
pub open spec fn recently_synced(state: AppStateView, label: Seq<char>, now: Millis) -> bool {
    match state.database {
        Some(db) => db.sync_state_of(label) is Some && !spec_is_stale(
            last_synced(db.sync_state_of(label)),
            now as int,
            DEFAULT_STALE_AFTER_MS as int,
        ),
        None => false,
    }
}

/// The events that end a step: a cache-updated event where one was asked
/// for.
pub open spec fn announcement(announce: bool) -> Seq<SyncEventView> {
    if announce {
        seq![SyncEventView::CacheUpdated]
    } else {
        Seq::empty()
    }
}

/// What a sync of a label begins with: a label that was synced recently is
/// not fetched, the interface is told to show the cache; any other label is
/// asked of the remote service.
pub open spec fn plan_sync(
    state: AppStateView,
    label: Seq<char>,
    announce: bool,
    now: Millis,
) -> SyncOutcomeView {
    if recently_synced(state, label, now) {
        SyncOutcomeView {
            events: seq![SyncEventView::CacheUpdated] + announcement(announce),
            requests: Seq::empty(),
            stop: false,
        }
    } else {
        SyncOutcomeView {
            events: Seq::empty(),
            requests: seq![
                RemoteRequestView::FetchMessages { label_id: label, limit: SYNC_BATCH, announce },
            ],
            stop: false,
        }
    }
}

/// The labels that a sync of all labels goes on to sync.
pub open spec fn priority_labels() -> Seq<Seq<char>> {
    seq!["INBOX"@, "IMPORTANT"@, "SENT"@, "DRAFT"@]
}

/// The plans for the first `n` priority labels, one after the other.
pub open spec fn plan_priority(state: AppStateView, n: nat, now: Millis) -> SyncOutcomeView
    decreases n,
{
    if n == 0 || n > priority_labels().len() {
        SyncOutcomeView::nothing()
    } else {
        plan_priority(state, (n - 1) as nat, now).followed_by(
            plan_sync(state, priority_labels()[n - 1], false, now),
        )
    }
}

/// The state with a message in the status slot.
pub open spec fn with_error(state: AppStateView, text: Seq<char>) -> AppStateView {
    AppStateView { error_message: Some(text), ..state }
}

/// The optimistic archive: with a store, the message loses the inbox label
/// at once, the interface is told, and the remote service is asked to do the
/// same. Without a store nothing is archived and the failure is reported.
pub open spec fn archive(state: AppStateView, id: Seq<char>) -> (AppStateView, SyncOutcomeView) {
    match state.database {
        Some(db) => (
            AppStateView { database: Some(db.mark_archived(id)), ..state },
            SyncOutcomeView {
                events: seq![SyncEventView::MessageArchived(id)],
                requests: seq![RemoteRequestView::Archive { message_id: id }],
                stop: false,
            },
        ),
        None => (
            with_error(
                state,
                "Failed to mark message as archived locally: "@
                    + StorageErrorView::Unavailable.text(),
            ),
            SyncOutcomeView::nothing(),
        ),
    }
}

/// The optimistic delete: with a store, the message is left with the trash
/// label alone at once, the interface is told, and the remote service is
/// asked to trash it. Without a store nothing changes but the status slot.
pub open spec fn delete(state: AppStateView, id: Seq<char>) -> (AppStateView, SyncOutcomeView) {
    match state.database {
        Some(db) => (
            AppStateView { database: Some(db.mark_deleted(id)), ..state },
            SyncOutcomeView {
                events: seq![SyncEventView::MessageDeleted(id)],
                requests: seq![RemoteRequestView::Trash { message_id: id }],
                stop: false,
            },
        ),
        None => (
            with_error(
                state,
                "Failed to mark message as deleted locally: "@ + StorageErrorView::Unavailable.text(),
            ),
            SyncOutcomeView::nothing(),
        ),
    }
}

/// What a command makes of the state, and what it leaves for the caller.
pub open spec fn after_command(
    state: AppStateView,
    command: SyncCommandView,
    now: Millis,
) -> (AppStateView, SyncOutcomeView) {
    match command {
        SyncCommandView::SyncLabel(label) => (state, plan_sync(state, label, false, now)),
        SyncCommandView::SyncAllLabels => (
            state,
            SyncOutcomeView {
                events: Seq::empty(),
                requests: seq![RemoteRequestView::FetchLabels],
                stop: false,
            },
        ),
        SyncCommandView::ArchiveMessage(id) => archive(state, id),
        SyncCommandView::DeleteMessage(id) => delete(state, id),
        SyncCommandView::RefreshMessages(label) => (state, plan_sync(state, label, true, now)),
        SyncCommandView::Shutdown => (
            state,
            SyncOutcomeView { events: Seq::empty(), requests: Seq::empty(), stop: true },
        ),
    }
}

/// The state and the outcome after the messages of a label arrived: they
/// are written to the store, the label's sync record is renewed, and the
/// interface learns how many were written. Without a store nothing is
/// written, which the status slot reports.
pub open spec fn after_messages(
    state: AppStateView,
    label: Seq<char>,
    announce: bool,
    messages: Seq<MessageView>,
    now: Millis,
) -> (AppStateView, SyncOutcomeView) {
    match state.database {
        Some(db) => (
            AppStateView {
                database: Some(store_synced(db, messages, now).update_sync_state(label, None, now)),
                ..state
            },
            SyncOutcomeView {
                events: seq![SyncEventView::LabelSynced(label, messages.len() as usize)]
                    + announcement(announce),
                requests: Seq::empty(),
                stop: false,
            },
        ),
        None => (
            with_error(
                state,
                "Failed to update sync state for "@ + label + ": "@
                    + StorageErrorView::Unavailable.text(),
            ),
            SyncOutcomeView {
                events: seq![SyncEventView::LabelSynced(label, 0)] + announcement(announce),
                requests: Seq::empty(),
                stop: false,
            },
        ),
    }
}

/// The state and the outcome after the label listing arrived: the labels
/// are written to the store, and the priority labels are synced next.
pub open spec fn after_labels(
    state: AppStateView,
    labels: Seq<LabelView>,
    now: Millis,
) -> (AppStateView, SyncOutcomeView) {
    let stored = match state.database {
        Some(db) => AppStateView { database: Some(store_labels(db, labels)), ..state },
        None => if labels.len() > 0 {
            with_error(
                state,
                "Failed to cache label "@ + or_unknown(labels.last().id) + ": "@
                    + StorageErrorView::Unavailable.text(),
            )
        } else {
            state
        },
    };
    (stored, plan_priority(stored, priority_labels().len(), now))
}

/// The id of a label or message, or `unknown` where it has none.
pub open spec fn or_unknown(id: Option<Seq<char>>) -> Seq<char> {
    match id {
        Some(i) => i,
        None => "unknown"@,
    }
}

/// The state and the outcome after a failure was reported to the interface
/// and put into the status slot.
pub open spec fn failed(state: AppStateView, text: Seq<char>, announce: bool) -> (
    AppStateView,
    SyncOutcomeView,
) {
    (
        with_error(state, text),
        SyncOutcomeView {
            events: seq![SyncEventView::SyncError(text)] + announcement(announce),
            requests: Seq::empty(),
            stop: false,
        },
    )
}

/// What the answer to a request makes of the state, and what it leaves for
/// the caller. A failed confirmation of an archive or a delete is put into
/// the status slot; the local change stays. An answer that does not fit the
/// request changes nothing.
pub open spec fn after_response(
    state: AppStateView,
    request: RemoteRequestView,
    response: RemoteResponseView,
    now: Millis,
) -> (AppStateView, SyncOutcomeView) {
    match (request, response) {
        (
            RemoteRequestView::FetchMessages { label_id, limit, announce },
            RemoteResponseView::Messages(Some(messages)),
        ) => after_messages(state, label_id, announce, messages, now),
        (
            RemoteRequestView::FetchMessages { label_id, limit, announce },
            RemoteResponseView::Messages(None),
        ) => failed(state, "Failed to sync "@ + label_id, announce),
        (RemoteRequestView::FetchLabels, RemoteResponseView::Labels(Some(labels))) => after_labels(
            state,
            labels,
            now,
        ),
        (RemoteRequestView::FetchLabels, RemoteResponseView::Labels(None)) => failed(
            state,
            "Failed to fetch labels"@,
            false,
        ),
        (RemoteRequestView::Archive { message_id }, RemoteResponseView::Done(Err(reason))) => (
            with_error(state, "Failed to archive message on server: "@ + reason),
            SyncOutcomeView::nothing(),
        ),
        (RemoteRequestView::Trash { message_id }, RemoteResponseView::Done(Err(reason))) => (
            with_error(state, "Failed to delete message on server: "@ + reason),
            SyncOutcomeView::nothing(),
        ),
        _ => (state, SyncOutcomeView::nothing()),
    }
}

/// Whether a list of labels names the given one.
fn names_label(labels: &Option<Vec<String>>, label: &str) -> (r: bool)
    ensures
        r == carries(labels.deep_view(), label@),
{
    match labels {
        Some(ids) => {
            let mut i: usize = 0;
            while i < ids.len()
                invariant
                    i <= ids.len(),
                    labels.deep_view() == Some(ids.deep_view()),
                    forall|k: int| 0 <= k < i ==> #[trigger] ids.deep_view()[k] != label@,
                decreases ids.len() - i,
            {
                if str_eq(ids[i].as_str(), label) {
                    assert(ids.deep_view()[i as int] == label@);
                    assert(ids.deep_view().contains(label@));
                    return true;
                }
                i += 1;
            }
            false
        },
        None => false,
    }
}

/// Builds the row that a sync writes for a retrieved message.
pub fn convert_to_cached_message(message: &Message, now: Millis) -> (row: CachedMessage)
    ensures
        row@ == cached_of_synced(message@, now),
{
    let id = match &message.id {
        Some(i) => i.clone(),
        None => String::new(),
    };
    let label_ids: Vec<String> = match &message.label_ids {
        Some(ids) => clone_strings(ids),
        None => Vec::new(),
    };
    proof {
        if message.label_ids is None {
            assert(label_ids.deep_view() =~= Seq::<Seq<char>>::empty());
        }
    }
    CachedMessage {
        id,
        thread_id: message.thread_id.clone(),
        label_ids,
        snippet: message.snippet.clone(),
        subject: header_of(message, "Subject"),
        from_addr: header_of(message, "From"),
        to_addr: None,
        date_str: header_of(message, "Date"),
        body_text: message.snippet.clone(),
        body_html: None,
        received_date: now,
        internal_date: now,
        is_unread: names_label(&message.label_ids, "UNREAD"),
        is_starred: names_label(&message.label_ids, "STARRED"),
        cache_timestamp: now,
    }
}

/// An outcome with nothing in it.
fn nothing() -> (outcome: SyncOutcome)
    ensures
        outcome.deep_view() == SyncOutcomeView::nothing(),
{
    let outcome = SyncOutcome { events: Vec::new(), requests: Vec::new(), stop: false };
    assert(outcome.events.deep_view() =~= Seq::empty());
    assert(outcome.requests.deep_view() =~= Seq::empty());
    outcome
}

/// Adds a cache-updated event where one was asked for.
fn announce_into(events: &mut Vec<SyncEvent>, announce: bool)
    ensures
        final(events).deep_view() == old(events).deep_view() + announcement(announce),
{
    let ghost before = events.deep_view();
    if announce {
        events.push(SyncEvent::CacheUpdated);
        assert(events.deep_view() =~= before + seq![SyncEventView::CacheUpdated]);
    } else {
        assert(events.deep_view() =~= before + Seq::<SyncEventView>::empty());
    }
}

/// Appends what a step left to what the steps before it left.
fn merge(outcome: &mut SyncOutcome, step: SyncOutcome)
    ensures
        final(outcome).deep_view() == old(outcome).deep_view().followed_by(step.deep_view()),
{
    let ghost events_before = outcome.events.deep_view();
    let ghost requests_before = outcome.requests.deep_view();
    let mut step = step;
    let ghost step_events = step.events.deep_view();
    let ghost step_requests = step.requests.deep_view();
    outcome.events.append(&mut step.events);
    outcome.requests.append(&mut step.requests);
    assert(outcome.events.deep_view() =~= events_before + step_events);
    assert(outcome.requests.deep_view() =~= requests_before + step_requests);
    outcome.stop = outcome.stop || step.stop;
}

/// The sync engine.
pub struct SyncService {}

impl SyncService {
    /// Creates the engine.
    pub fn new() -> SyncService {
        SyncService {  }
    }

    /// Plans the sync of a label.
    pub fn sync_label(&self, state: &AppState, label_id: &str, announce: bool, now: Millis) -> (outcome:
        SyncOutcome)
        ensures
            outcome.deep_view() == plan_sync(state@, label_id@, announce, now),
    {
        let recent = match &state.database {
            Some(db) => {
                let record = db.get_sync_state(label_id);
                match &record {
                    Some(r) => !is_stale(Some(r), now, DEFAULT_STALE_AFTER_MS),
                    None => false,
                }
            },
            None => false,
        };
        let mut outcome = nothing();
        if recent {
            outcome.events.push(SyncEvent::CacheUpdated);
            assert(outcome.events.deep_view() =~= seq![SyncEventView::CacheUpdated]);
            announce_into(&mut outcome.events, announce);
        } else {
            outcome.requests.push(
                RemoteRequest::FetchMessages {
                    label_id: label_id.to_string(),
                    limit: SYNC_BATCH,
                    announce,
                },
            );
            assert(outcome.requests.deep_view() =~= seq![
                RemoteRequestView::FetchMessages { label_id: label_id@, limit: SYNC_BATCH, announce },
            ]);
        }
        outcome
    }

    /// Archives a message in the store and asks the remote service to
    /// follow.
    pub fn archive_message(&self, state: &mut AppState, message_id: &str) -> (outcome: SyncOutcome)
        ensures
            (final(state)@, outcome.deep_view()) == archive(old(state)@, message_id@),
    {
        let mut outcome = nothing();
        match &mut state.database {
            Some(db) => {
                db.mark_archived(message_id);
                outcome.events.push(SyncEvent::MessageArchived(message_id.to_string()));
                outcome.requests.push(RemoteRequest::Archive { message_id: message_id.to_string() });
                assert(outcome.events.deep_view() =~= seq![
                    SyncEventView::MessageArchived(message_id@),
                ]);
                assert(outcome.requests.deep_view() =~= seq![
                    RemoteRequestView::Archive { message_id: message_id@ },
                ]);
            },
            None => {
                let reason = StorageError::Unavailable.message();
                state.set_error_message(
                    join2("Failed to mark message as archived locally: ", reason.as_str()),
                );
            },
        }
        outcome
    }

    /// Deletes a message in the store and asks the remote service to
    /// follow.
    pub fn delete_message(&self, state: &mut AppState, message_id: &str) -> (outcome: SyncOutcome)
        ensures
            (final(state)@, outcome.deep_view()) == delete(old(state)@, message_id@),
    {
        let mut outcome = nothing();
        match &mut state.database {
            Some(db) => {
                db.mark_deleted(message_id);
                outcome.events.push(SyncEvent::MessageDeleted(message_id.to_string()));
                outcome.requests.push(RemoteRequest::Trash { message_id: message_id.to_string() });
                assert(outcome.events.deep_view() =~= seq![
                    SyncEventView::MessageDeleted(message_id@),
                ]);
                assert(outcome.requests.deep_view() =~= seq![
                    RemoteRequestView::Trash { message_id: message_id@ },
                ]);
            },
            None => {
                let reason = StorageError::Unavailable.message();
                state.set_error_message(
                    join2("Failed to mark message as deleted locally: ", reason.as_str()),
                );
            },
        }
        outcome
    }

    /// Performs what a command asks for at once, and says what is left for
    /// the caller to do.
    pub fn handle_command(&self, state: &mut AppState, command: SyncCommand, now: Millis) -> (outcome:
        SyncOutcome)
        ensures
            (final(state)@, outcome.deep_view()) == after_command(
                old(state)@,
                command.deep_view(),
                now,
            ),
    {
        match command {
            SyncCommand::SyncLabel(label_id) => self.sync_label(state, label_id.as_str(), false, now),
            SyncCommand::SyncAllLabels => {
                let mut outcome = nothing();
                outcome.requests.push(RemoteRequest::FetchLabels);
                assert(outcome.requests.deep_view() =~= seq![RemoteRequestView::FetchLabels]);
                outcome
            },
            SyncCommand::ArchiveMessage(message_id) => self.archive_message(
                state,
                message_id.as_str(),
            ),
            SyncCommand::DeleteMessage(message_id) => self.delete_message(state, message_id.as_str()),
            SyncCommand::RefreshMessages(label_id) => self.sync_label(
                state,
                label_id.as_str(),
                true,
                now,
            ),
            SyncCommand::Shutdown => {
                let mut outcome = nothing();
                outcome.stop = true;
                outcome
            },
        }
    }

    /// Writes the messages of a label to the store and renews the label's
    /// sync record.
    pub fn store_messages(
        &self,
        state: &mut AppState,
        label_id: &str,
        announce: bool,
        messages: &Vec<Message>,
        now: Millis,
    ) -> (outcome: SyncOutcome)
        ensures
            (final(state)@, outcome.deep_view()) == after_messages(
                old(state)@,
                label_id@,
                announce,
                messages.deep_view(),
                now,
            ),
    {
        let ghost before = old(state)@;
        let ghost rows = messages.deep_view();
        let mut outcome = nothing();
        let mut written: usize = 0;
        match &mut state.database {
            Some(db) => {
                let ghost db0 = db@;
                let mut k: usize = 0;
                assert(rows.take(0) =~= Seq::<MessageView>::empty());
                while k < messages.len()
                    invariant
                        k <= messages.len(),
                        rows == messages.deep_view(),
                        db@ == store_synced(db0, rows.take(k as int), now),
                    decreases messages.len() - k,
                {
                    assert(rows.take(k + 1).drop_last() =~= rows.take(k as int));
                    assert(rows.take(k + 1).last() == rows[k as int]);
                    let row = convert_to_cached_message(&messages[k], now);
                    db.upsert_message(&row);
                    k += 1;
                }
                assert(rows.take(messages.len() as int) =~= rows);
                db.update_sync_state(label_id, None, now);
                written = messages.len();
            },
            None => {
                let reason = StorageError::Unavailable.message();
                let mut text = join3("Failed to update sync state for ", label_id, ": ");
                text.append(reason.as_str());
                state.set_error_message(text);
            },
        }
        outcome.events.push(SyncEvent::LabelSynced(label_id.to_string(), written));
        assert(outcome.events.deep_view() =~= seq![SyncEventView::LabelSynced(label_id@, written)]);
        announce_into(&mut outcome.events, announce);
        outcome
    }

    /// Writes the labels to the store and plans the sync of the priority
    /// labels.
    pub fn store_labels(&self, state: &mut AppState, labels: &Vec<Label>, now: Millis) -> (outcome:
        SyncOutcome)
        ensures
            (final(state)@, outcome.deep_view()) == after_labels(
                old(state)@,
                labels.deep_view(),
                now,
            ),
    {
        let ghost rows = labels.deep_view();
        match &mut state.database {
            Some(db) => {
                let ghost db0 = db@;
                let mut k: usize = 0;
                assert(rows.take(0) =~= Seq::<LabelView>::empty());
                while k < labels.len()
                    invariant
                        k <= labels.len(),
                        rows == labels.deep_view(),
                        db@ == store_labels(db0, rows.take(k as int)),
                    decreases labels.len() - k,
                {
                    assert(rows.take(k + 1).drop_last() =~= rows.take(k as int));
                    assert(rows.take(k + 1).last() == rows[k as int]);
                    db.upsert_label(&labels[k]);
                    k += 1;
                }
                assert(rows.take(labels.len() as int) =~= rows);
            },
            None => {
                if labels.len() > 0 {
                    let reason = StorageError::Unavailable.message();
                    let id = match &labels[labels.len() - 1].id {
                        Some(i) => i.clone(),
                        None => "unknown".to_string(),
                    };
                    let mut text = join3("Failed to cache label ", id.as_str(), ": ");
                    text.append(reason.as_str());
                    state.set_error_message(text);
                }
            },
        }
        let ghost stored = state@;
        proof {
            reveal_with_fuel(plan_priority, 5);
        }
        let mut outcome = nothing();
        assert(outcome.deep_view() == plan_priority(stored, 0, now));
        let first = self.sync_label(state, "INBOX", false, now);
        merge(&mut outcome, first);
        let second = self.sync_label(state, "IMPORTANT", false, now);
        merge(&mut outcome, second);
        let third = self.sync_label(state, "SENT", false, now);
        merge(&mut outcome, third);
        let fourth = self.sync_label(state, "DRAFT", false, now);
        merge(&mut outcome, fourth);
        outcome
    }

    /// Takes the answer of the remote service to a request, and says what
    /// is left for the caller to do.
    pub fn handle_response(
        &self,
        state: &mut AppState,
        request: &RemoteRequest,
        response: RemoteResponse,
        now: Millis,
    ) -> (outcome: SyncOutcome)
        ensures
            (final(state)@, outcome.deep_view()) == after_response(
                old(state)@,
                request.deep_view(),
                response.deep_view(),
                now,
            ),
    {
        match (request, response) {
            (
                RemoteRequest::FetchMessages { label_id, limit, announce },
                RemoteResponse::Messages(Some(messages)),
            ) => self.store_messages(state, label_id.as_str(), *announce, &messages, now),
            (
                RemoteRequest::FetchMessages { label_id, limit, announce },
                RemoteResponse::Messages(None),
            ) => {
                let text = join2("Failed to sync ", label_id.as_str());
                self.report_failure(state, text, *announce)
            },
            (RemoteRequest::FetchLabels, RemoteResponse::Labels(Some(labels))) => self.store_labels(
                state,
                &labels,
                now,
            ),
            (RemoteRequest::FetchLabels, RemoteResponse::Labels(None)) => self.report_failure(
                state,
                "Failed to fetch labels".to_string(),
                false,
            ),
            (RemoteRequest::Archive { message_id }, RemoteResponse::Done(Err(reason))) => {
                state.set_error_message(
                    join2("Failed to archive message on server: ", reason.as_str()),
                );
                nothing()
            },
            (RemoteRequest::Trash { message_id }, RemoteResponse::Done(Err(reason))) => {
                state.set_error_message(
                    join2("Failed to delete message on server: ", reason.as_str()),
                );
                nothing()
            },
            _ => nothing(),
        }
    }

    /// Reports a failure to the interface and puts it into the status slot.
    pub fn report_failure(&self, state: &mut AppState, text: String, announce: bool) -> (outcome:
        SyncOutcome)
        ensures
            (final(state)@, outcome.deep_view()) == failed(old(state)@, text@, announce),
    {
        let mut outcome = nothing();
        outcome.events.push(SyncEvent::SyncError(text.clone()));
        assert(outcome.events.deep_view() =~= seq![SyncEventView::SyncError(text@)]);
        announce_into(&mut outcome.events, announce);
        state.set_error_message(text);
        outcome
    }
}

} // verus!
