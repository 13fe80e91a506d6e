//! The local store: labels, messages, the relation between them, and the
//! per-label sync records, with the operations of the cache on them.
//!
//! The store is a relational model held in memory. A message row carries no
//! label list of its own: membership lives in the relation `message_labels`,
//! from which reads assemble each message's labels.
use vstd::prelude::*;
use crate::table::{count, keep, page, pairwise};
use crate::table::{lemma_count_boundary, lemma_count_prefix, lemma_insert_pairwise};
use crate::table::{lemma_keep_all, lemma_keep_all_but, lemma_keep_members, lemma_keep_none};
use crate::table::{lemma_keep_no_duplicates, lemma_keep_pairwise, lemma_keep_step};
use crate::table::lemma_page_push;
use crate::text::{lex_le, spec_is_all_mail};
use crate::text::{lemma_lex_le_total, lemma_lex_le_transitive};
use crate::text::{is_all_mail, str_eq, str_le};
use crate::types::{clone_strings, Label, LabelView};

verus! {

/// Time stamps are milliseconds since the Unix epoch.
pub type Millis = i64;

/// A label as the store keeps it.
#[derive(Debug)]
pub struct CachedLabel {
    pub id: String,
    pub name: String,
}

pub struct CachedLabelView {
    pub id: Seq<char>,
    pub name: Seq<char>,
}

impl DeepView for CachedLabel {
    type V = CachedLabelView;

    open spec fn deep_view(&self) -> CachedLabelView {
        CachedLabelView { id: self.id@, name: self.name@ }
    }
}

impl View for CachedLabel {
    type V = CachedLabelView;

    open spec fn view(&self) -> CachedLabelView {
        self.deep_view()
    }
}

impl Clone for CachedLabel {
    fn clone(&self) -> (r: Self)
        ensures
            r@ == self@,
    {
        CachedLabel { id: self.id.clone(), name: self.name.clone() }
    }
}

/// A message as the store keeps and returns it.
#[derive(Debug)]
pub struct CachedMessage {
    pub id: String,
    pub thread_id: Option<String>,
    pub label_ids: Vec<String>,
    pub snippet: Option<String>,
    pub subject: Option<String>,
    pub from_addr: Option<String>,
    pub to_addr: Option<String>,
    pub date_str: Option<String>,
    pub body_text: Option<String>,
    pub body_html: Option<String>,
    pub received_date: Millis,
    pub internal_date: Millis,
    pub is_unread: bool,
    pub is_starred: bool,
    pub cache_timestamp: Millis,
}

pub struct CachedMessageView {
    pub id: Seq<char>,
    pub thread_id: Option<Seq<char>>,
    pub label_ids: Seq<Seq<char>>,
    pub snippet: Option<Seq<char>>,
    pub subject: Option<Seq<char>>,
    pub from_addr: Option<Seq<char>>,
    pub to_addr: Option<Seq<char>>,
    pub date_str: Option<Seq<char>>,
    pub body_text: Option<Seq<char>>,
    pub body_html: Option<Seq<char>>,
    pub received_date: Millis,
    pub internal_date: Millis,
    pub is_unread: bool,
    pub is_starred: bool,
    pub cache_timestamp: Millis,
}

impl DeepView for CachedMessage {
    type V = CachedMessageView;

    open spec fn deep_view(&self) -> CachedMessageView {
        CachedMessageView {
            id: self.id@,
            thread_id: self.thread_id.deep_view(),
            label_ids: self.label_ids.deep_view(),
            snippet: self.snippet.deep_view(),
            subject: self.subject.deep_view(),
            from_addr: self.from_addr.deep_view(),
            to_addr: self.to_addr.deep_view(),
            date_str: self.date_str.deep_view(),
            body_text: self.body_text.deep_view(),
            body_html: self.body_html.deep_view(),
            received_date: self.received_date,
            internal_date: self.internal_date,
            is_unread: self.is_unread,
            is_starred: self.is_starred,
            cache_timestamp: self.cache_timestamp,
        }
    }
}

impl View for CachedMessage {
    type V = CachedMessageView;

    open spec fn view(&self) -> CachedMessageView {
        self.deep_view()
    }
}

impl CachedMessage {
    /// A copy of this message that carries the given labels.
    pub fn with_label_ids(&self, label_ids: Vec<String>) -> (r: CachedMessage)
        ensures
            r@ == (CachedMessageView { label_ids: label_ids.deep_view(), ..self@ }),
    {
        CachedMessage {
            id: self.id.clone(),
            thread_id: self.thread_id.clone(),
            label_ids,
            snippet: self.snippet.clone(),
            subject: self.subject.clone(),
            from_addr: self.from_addr.clone(),
            to_addr: self.to_addr.clone(),
            date_str: self.date_str.clone(),
            body_text: self.body_text.clone(),
            body_html: self.body_html.clone(),
            received_date: self.received_date,
            internal_date: self.internal_date,
            is_unread: self.is_unread,
            is_starred: self.is_starred,
            cache_timestamp: self.cache_timestamp,
        }
    }
}

impl Clone for CachedMessage {
    fn clone(&self) -> (r: Self)
        ensures
            r@ == self@,
    {
        let label_ids = clone_strings(&self.label_ids);
        self.with_label_ids(label_ids)
    }
}

/// Sync record of one label: the remote change token and the time of the
/// last completed refresh.
#[derive(Debug)]
pub struct SyncState {
    pub label_id: String,
    pub history_cursor: Option<String>,
    pub last_synced_at: Millis,
}

pub struct SyncStateView {
    pub label_id: Seq<char>,
    pub history_cursor: Option<Seq<char>>,
    pub last_synced_at: Millis,
}

impl DeepView for SyncState {
    type V = SyncStateView;

    open spec fn deep_view(&self) -> SyncStateView {
        SyncStateView {
            label_id: self.label_id@,
            history_cursor: self.history_cursor.deep_view(),
            last_synced_at: self.last_synced_at,
        }
    }
}

impl View for SyncState {
    type V = SyncStateView;

    open spec fn view(&self) -> SyncStateView {
        self.deep_view()
    }
}

impl Clone for SyncState {
    fn clone(&self) -> (r: Self)
        ensures
            r@ == self@,
    {
        SyncState {
            label_id: self.label_id.clone(),
            history_cursor: self.history_cursor.clone(),
            last_synced_at: self.last_synced_at,
        }
    }
}

/// One row of the relation between messages and labels.
struct MessageLabel {
    message_id: String,
    label_id: String,
}

impl DeepView for MessageLabel {
    type V = (Seq<char>, Seq<char>);

    closed spec fn deep_view(&self) -> (Seq<char>, Seq<char>) {
        (self.message_id@, self.label_id@)
    }
}

impl Clone for MessageLabel {
    fn clone(&self) -> (r: Self)
        ensures
            r.deep_view() == self.deep_view(),
    {
        MessageLabel { message_id: self.message_id.clone(), label_id: self.label_id.clone() }
    }
}

/// The text of an optional string, empty where there is none.
pub open spec fn or_empty(s: Option<Seq<char>>) -> Seq<char> {
    match s {
        Some(t) => t,
        None => Seq::empty(),
    }
}

/// The row that the store keeps for a label of the remote service.
pub open spec fn cached_label_of(label: LabelView) -> CachedLabelView {
    CachedLabelView { id: or_empty(label.id), name: or_empty(label.name) }
}

/// Labels other than the one with the given id.
pub open spec fn label_id_is_not(id: Seq<char>) -> spec_fn(CachedLabelView) -> bool {
    |l: CachedLabelView| l.id != id
}

/// Labels whose name does not come after the given one.
pub open spec fn name_at_most(name: Seq<char>) -> spec_fn(CachedLabelView) -> bool {
    |l: CachedLabelView| lex_le(l.name, name)
}

/// Messages other than the one with the given id.
pub open spec fn message_id_is_not(id: Seq<char>) -> spec_fn(CachedMessageView) -> bool {
    |m: CachedMessageView| m.id != id
}

/// Messages at least as recent as the given time.
pub open spec fn at_least_as_recent(date: Millis) -> spec_fn(CachedMessageView) -> bool {
    |m: CachedMessageView| m.internal_date >= date
}

/// Messages written to the store at or after the given time.
pub open spec fn cached_since(cutoff: int) -> spec_fn(CachedMessageView) -> bool {
    |m: CachedMessageView| m.cache_timestamp >= cutoff
}

/// Rows of the relation that belong to another message than the given one.
pub open spec fn of_other_message(id: Seq<char>) -> spec_fn((Seq<char>, Seq<char>)) -> bool {
    |p: (Seq<char>, Seq<char>)| p.0 != id
}

/// Rows of the relation other than the given one.
pub open spec fn is_not_pair(pair: (Seq<char>, Seq<char>)) -> spec_fn(
    (Seq<char>, Seq<char>),
) -> bool {
    |p: (Seq<char>, Seq<char>)| p != pair
}

/// Sync records of other labels than the given one.
pub open spec fn sync_label_is_not(label: Seq<char>) -> spec_fn(SyncStateView) -> bool {
    |s: SyncStateView| s.label_id != label
}

/// Sync records of the given label.
pub open spec fn sync_label_is(label: Seq<char>) -> spec_fn(SyncStateView) -> bool {
    |s: SyncStateView| s.label_id == label
}

/// Whether the store holds a message with this id that was written before
/// the cutoff.
pub open spec fn expired(rows: Seq<CachedMessageView>, id: Seq<char>, cutoff: int) -> bool {
    exists|i: int| 0 <= i < rows.len() && #[trigger] rows[i].id == id && rows[i].cache_timestamp < cutoff
}

/// Rows of the relation whose message is not removed by a cleanup.
pub open spec fn survives(rows: Seq<CachedMessageView>, cutoff: int) -> spec_fn(
    (Seq<char>, Seq<char>),
) -> bool {
    |p: (Seq<char>, Seq<char>)| !expired(rows, p.0, cutoff)
}

/// The labels that the relation gives a message, in the order of its rows.
pub open spec fn labels_of(join: Seq<(Seq<char>, Seq<char>)>, message_id: Seq<char>) -> Seq<
    Seq<char>,
>
    decreases join.len(),
{
    if join.len() == 0 {
        Seq::empty()
    } else if join.last().0 == message_id {
        labels_of(join.drop_last(), message_id).push(join.last().1)
    } else {
        labels_of(join.drop_last(), message_id)
    }
}

/// The relation after a message was given each of `labels` in turn; a label
/// it already carries adds no row.
pub open spec fn add_labels(
    join: Seq<(Seq<char>, Seq<char>)>,
    message_id: Seq<char>,
    labels: Seq<Seq<char>>,
) -> Seq<(Seq<char>, Seq<char>)>
    decreases labels.len(),
{
    if labels.len() == 0 {
        join
    } else {
        let before = add_labels(join, message_id, labels.drop_last());
        if before.contains((message_id, labels.last())) {
            before
        } else {
            before.push((message_id, labels.last()))
        }
    }
}

/// A stored row with the labels that the relation gives it.
pub open spec fn with_labels(row: CachedMessageView, join: Seq<(Seq<char>, Seq<char>)>) -> CachedMessageView {
    CachedMessageView { label_ids: labels_of(join, row.id), ..row }
}

/// The row that the store keeps for a message: all of it but its label list.
pub open spec fn row_of(message: CachedMessageView) -> CachedMessageView {
    CachedMessageView { label_ids: Seq::empty(), ..message }
}

/// The stored messages that carry `label`, or all of them where `all` is
/// set, each with its labels, in the order of the rows.
pub open spec fn select(
    rows: Seq<CachedMessageView>,
    join: Seq<(Seq<char>, Seq<char>)>,
    label: Seq<char>,
    all: bool,
) -> Seq<CachedMessageView>
    decreases rows.len(),
{
    if rows.len() == 0 {
        Seq::empty()
    } else if all || join.contains((rows.last().id, label)) {
        select(rows.drop_last(), join, label, all).push(with_labels(rows.last(), join))
    } else {
        select(rows.drop_last(), join, label, all)
    }
}

/// Two labels with different ids.
pub open spec fn labels_differ() -> spec_fn(CachedLabelView, CachedLabelView) -> bool {
    |a: CachedLabelView, b: CachedLabelView| a.id != b.id
}

/// Two labels whose names stand in order.
pub open spec fn names_ascend() -> spec_fn(CachedLabelView, CachedLabelView) -> bool {
    |a: CachedLabelView, b: CachedLabelView| lex_le(a.name, b.name)
}

/// Two messages with different ids.
pub open spec fn messages_differ() -> spec_fn(CachedMessageView, CachedMessageView) -> bool {
    |a: CachedMessageView, b: CachedMessageView| a.id != b.id
}

/// Two messages of which the first is at least as recent as the second.
pub open spec fn dates_descend() -> spec_fn(CachedMessageView, CachedMessageView) -> bool {
    |a: CachedMessageView, b: CachedMessageView| a.internal_date >= b.internal_date
}

/// Two sync records of different labels.
pub open spec fn sync_labels_differ() -> spec_fn(SyncStateView, SyncStateView) -> bool {
    |a: SyncStateView, b: SyncStateView| a.label_id != b.label_id
}

/// Validity of the label table: ids occur once, names stand in order.
pub open spec fn labels_wf(labels: Seq<CachedLabelView>) -> bool {
    pairwise(labels, labels_differ()) && pairwise(labels, names_ascend())
}

/// Validity of the message table: ids occur once, the most recent message
/// comes first, and no row embeds a label list.
pub open spec fn messages_wf(rows: Seq<CachedMessageView>) -> bool {
    &&& pairwise(rows, messages_differ())
    &&& pairwise(rows, dates_descend())
    &&& forall|i: int|
        0 <= i < rows.len() ==> (#[trigger] rows[i]).label_ids == Seq::<Seq<char>>::empty()
}

/// Validity of the sync records: one per label at most.
pub open spec fn sync_wf(records: Seq<SyncStateView>) -> bool {
    pairwise(records, sync_labels_differ())
}

/// The label table after a label was inserted or replaced: the label takes
/// its place after the labels whose names do not come after its own.
pub open spec fn upsert_label_row(labels: Seq<CachedLabelView>, label: CachedLabelView) -> Seq<
    CachedLabelView,
> {
    let rest = keep(labels, label_id_is_not(label.id));
    rest.insert(count(rest, name_at_most(label.name)) as int, label)
}

/// The message table after a message was inserted or replaced: its row takes
/// its place after the rows that are at least as recent.
pub open spec fn upsert_message_row(rows: Seq<CachedMessageView>, message: CachedMessageView) -> Seq<
    CachedMessageView,
> {
    let rest = keep(rows, message_id_is_not(message.id));
    rest.insert(count(rest, at_least_as_recent(message.internal_date)) as int, row_of(message))
}

/// The sync records after a label was refreshed at `now`.
pub open spec fn upsert_sync_row(
    records: Seq<SyncStateView>,
    label: Seq<char>,
    cursor: Option<Seq<char>>,
    now: Millis,
) -> Seq<SyncStateView> {
    keep(records, sync_label_is_not(label)).push(
        SyncStateView { label_id: label, history_cursor: cursor, last_synced_at: now },
    )
}

/// What the store holds, as mathematical tables.
pub struct DatabaseView {
    /// The labels, ordered by name.
    pub labels: Seq<CachedLabelView>,
    /// The message rows, most recent first.
    pub messages: Seq<CachedMessageView>,
    /// The relation between messages and labels: pairs of a message id and a
    /// label id.
    pub message_labels: Seq<(Seq<char>, Seq<char>)>,
    /// The sync records, one per label at most.
    pub sync_state: Seq<SyncStateView>,
}

impl DatabaseView {
    /// Validity of the tables.
    pub open spec fn wf(self) -> bool {
        &&& labels_wf(self.labels)
        &&& messages_wf(self.messages)
        &&& self.message_labels.no_duplicates()
        &&& sync_wf(self.sync_state)
    }

    /// The empty store.
    pub open spec fn empty() -> DatabaseView {
        DatabaseView {
            labels: Seq::empty(),
            messages: Seq::empty(),
            message_labels: Seq::empty(),
            sync_state: Seq::empty(),
        }
    }

    /// Inserts a label or replaces the one with the same id.
    pub open spec fn upsert_label(self, label: CachedLabelView) -> DatabaseView {
        DatabaseView { labels: upsert_label_row(self.labels, label), ..self }
    }

    /// Inserts a message or replaces the one with the same id, and replaces
    /// its rows in the relation by one row for each of its labels.
    pub open spec fn upsert_message(self, message: CachedMessageView) -> DatabaseView {
        DatabaseView {
            messages: upsert_message_row(self.messages, message),
            message_labels: add_labels(
                keep(self.message_labels, of_other_message(message.id)),
                message.id,
                message.label_ids,
            ),
            ..self
        }
    }

    /// The messages of a label, most recent first, in a window of at most
    /// `limit` after the first `offset`. The virtual all-mail label selects
    /// every message.
    pub open spec fn messages_for_label(self, label: Seq<char>, limit: int, offset: int) -> Seq<
        CachedMessageView,
    > {
        page(
            select(self.messages, self.message_labels, label, spec_is_all_mail(label)),
            limit,
            offset,
        )
    }

    /// Takes the inbox label from a message.
    pub open spec fn mark_archived(self, message_id: Seq<char>) -> DatabaseView {
        DatabaseView {
            message_labels: keep(self.message_labels, is_not_pair((message_id, "INBOX"@))),
            ..self
        }
    }

    /// Takes every label from a message and gives it the trash label.
    pub open spec fn mark_deleted(self, message_id: Seq<char>) -> DatabaseView {
        DatabaseView {
            message_labels: keep(self.message_labels, of_other_message(message_id)).push(
                (message_id, "TRASH"@),
            ),
            ..self
        }
    }

    /// Records that a label was refreshed at `now`.
    pub open spec fn update_sync_state(
        self,
        label: Seq<char>,
        cursor: Option<Seq<char>>,
        now: Millis,
    ) -> DatabaseView {
        DatabaseView { sync_state: upsert_sync_row(self.sync_state, label, cursor, now), ..self }
    }

    /// The sync record of a label, if it has one.
    pub open spec fn sync_state_of(self, label: Seq<char>) -> Option<SyncStateView> {
        let found = keep(self.sync_state, sync_label_is(label));
        if found.len() == 0 {
            None
        } else {
            Some(found[0])
        }
    }

    /// Removes the messages written before `cutoff`, and with them their
    /// rows in the relation.
    pub open spec fn cleanup(self, cutoff: int) -> DatabaseView {
        DatabaseView {
            messages: keep(self.messages, cached_since(cutoff)),
            message_labels: keep(self.message_labels, survives(self.messages, cutoff)),
            ..self
        }
    }
}

/// Inserting or replacing a label keeps the label table valid.
pub proof fn lemma_upsert_label_row_wf(labels: Seq<CachedLabelView>, label: CachedLabelView)
    requires
        labels_wf(labels),
    ensures
        labels_wf(upsert_label_row(labels, label)),
{
    let rest = keep(labels, label_id_is_not(label.id));
    let p = name_at_most(label.name);
    let n = count(rest, p) as int;
    lemma_keep_pairwise(labels, label_id_is_not(label.id), labels_differ());
    lemma_keep_pairwise(labels, label_id_is_not(label.id), names_ascend());
    lemma_keep_members(labels, label_id_is_not(label.id));
    assert forall|i: int, j: int| 0 <= i < j < rest.len() && p(#[trigger] rest[j]) implies p(
        #[trigger] rest[i],
    ) by {
        assert(names_ascend()(rest[i], rest[j]));
        lemma_lex_le_transitive(rest[i].name, rest[j].name, label.name);
    }
    lemma_count_prefix(rest, p);
    assert forall|k: int| 0 <= k < n implies #[trigger] names_ascend()(rest[k], label) by {
        assert(p(rest[k]));
    }
    assert forall|k: int| n <= k < rest.len() implies #[trigger] names_ascend()(label, rest[k]) by {
        assert(!p(rest[k]));
        lemma_lex_le_total(label.name, rest[k].name);
    }
    assert forall|k: int| 0 <= k < rest.len() implies #[trigger] labels_differ()(
        rest[k],
        label,
    ) by {
        assert(rest.contains(rest[k]));
    }
    assert forall|k: int| 0 <= k < rest.len() implies #[trigger] labels_differ()(
        label,
        rest[k],
    ) by {
        assert(rest.contains(rest[k]));
    }
    lemma_insert_pairwise(rest, labels_differ(), n, label);
    lemma_insert_pairwise(rest, names_ascend(), n, label);
}

/// Inserting or replacing a message keeps the message table valid.
pub proof fn lemma_upsert_message_row_wf(rows: Seq<CachedMessageView>, message: CachedMessageView)
    requires
        messages_wf(rows),
    ensures
        messages_wf(upsert_message_row(rows, message)),
{
    let rest = keep(rows, message_id_is_not(message.id));
    let p = at_least_as_recent(message.internal_date);
    let n = count(rest, p) as int;
    let row = row_of(message);
    lemma_keep_pairwise(rows, message_id_is_not(message.id), messages_differ());
    lemma_keep_pairwise(rows, message_id_is_not(message.id), dates_descend());
    lemma_keep_members(rows, message_id_is_not(message.id));
    assert forall|i: int, j: int| 0 <= i < j < rest.len() && p(#[trigger] rest[j]) implies p(
        #[trigger] rest[i],
    ) by {
        assert(dates_descend()(rest[i], rest[j]));
    }
    lemma_count_prefix(rest, p);
    assert forall|k: int| 0 <= k < n implies #[trigger] dates_descend()(rest[k], row) by {
        assert(p(rest[k]));
    }
    assert forall|k: int| n <= k < rest.len() implies #[trigger] dates_descend()(row, rest[k]) by {
        assert(!p(rest[k]));
    }
    assert forall|k: int| 0 <= k < rest.len() implies #[trigger] messages_differ()(
        rest[k],
        row,
    ) by {
        assert(rest.contains(rest[k]));
    }
    assert forall|k: int| 0 <= k < rest.len() implies #[trigger] messages_differ()(
        row,
        rest[k],
    ) by {
        assert(rest.contains(rest[k]));
    }
    lemma_insert_pairwise(rest, messages_differ(), n, row);
    lemma_insert_pairwise(rest, dates_descend(), n, row);
    let out = rest.insert(n, row);
    assert forall|i: int| 0 <= i < out.len() implies (#[trigger] out[i]).label_ids == Seq::<
        Seq<char>,
    >::empty() by {
        if i < n {
            assert(rest.contains(rest[i]));
            let k = choose|k: int| 0 <= k < rows.len() && rows[k] == rest[i];
            assert(rows[k].label_ids == Seq::<Seq<char>>::empty());
        } else if i > n {
            assert(rest.contains(rest[i - 1]));
            let k = choose|k: int| 0 <= k < rows.len() && rows[k] == rest[i - 1];
            assert(rows[k].label_ids == Seq::<Seq<char>>::empty());
        }
    }
}

/// Giving a message labels keeps the relation free of repeated rows.
pub proof fn lemma_add_labels_no_duplicates(
    join: Seq<(Seq<char>, Seq<char>)>,
    message_id: Seq<char>,
    labels: Seq<Seq<char>>,
)
    requires
        join.no_duplicates(),
    ensures
        add_labels(join, message_id, labels).no_duplicates(),
    decreases labels.len(),
{
    if labels.len() > 0 {
        lemma_add_labels_no_duplicates(join, message_id, labels.drop_last());
        let before = add_labels(join, message_id, labels.drop_last());
        let pair = (message_id, labels.last());
        if !before.contains(pair) {
            let after = before.push(pair);
            assert forall|i: int, j: int|
                0 <= i < after.len() && 0 <= j < after.len() && i != j implies after[i]
                != after[j] by {
                if i < before.len() && j < before.len() {
                } else if i < before.len() {
                    assert(before.contains(before[i]));
                } else {
                    assert(before.contains(before[j]));
                }
            }
        }
    }
}

/// Recording a refresh keeps the sync records valid.
pub proof fn lemma_upsert_sync_row_wf(
    records: Seq<SyncStateView>,
    label: Seq<char>,
    cursor: Option<Seq<char>>,
    now: Millis,
)
    requires
        sync_wf(records),
    ensures
        sync_wf(upsert_sync_row(records, label, cursor, now)),
{
    let rest = keep(records, sync_label_is_not(label));
    let row = SyncStateView { label_id: label, history_cursor: cursor, last_synced_at: now };
    lemma_keep_pairwise(records, sync_label_is_not(label), sync_labels_differ());
    lemma_keep_members(records, sync_label_is_not(label));
    assert forall|k: int| 0 <= k < rest.len() implies #[trigger] sync_labels_differ()(
        rest[k],
        row,
    ) by {
        assert(rest.contains(rest[k]));
    }
    lemma_insert_pairwise(rest, sync_labels_differ(), rest.len() as int, row);
    assert(rest.insert(rest.len() as int, row) =~= rest.push(row));
}

/// Removing old messages keeps the message table valid.
pub proof fn lemma_cleanup_rows_wf(rows: Seq<CachedMessageView>, cutoff: int)
    requires
        messages_wf(rows),
    ensures
        messages_wf(keep(rows, cached_since(cutoff))),
{
    let out = keep(rows, cached_since(cutoff));
    lemma_keep_pairwise(rows, cached_since(cutoff), messages_differ());
    lemma_keep_pairwise(rows, cached_since(cutoff), dates_descend());
    lemma_keep_members(rows, cached_since(cutoff));
    assert forall|i: int| 0 <= i < out.len() implies (#[trigger] out[i]).label_ids == Seq::<
        Seq<char>,
    >::empty() by {
        assert(out.contains(out[i]));
        let k = choose|k: int| 0 <= k < rows.len() && rows[k] == out[i];
        assert(rows[k].label_ids == Seq::<Seq<char>>::empty());
    }
}

/// Every operation of the store keeps its tables valid.
pub proof fn lemma_operations_keep_wf(
    db: DatabaseView,
    label: CachedLabelView,
    message: CachedMessageView,
    id: Seq<char>,
    cursor: Option<Seq<char>>,
    now: Millis,
    cutoff: int,
)
    requires
        db.wf(),
    ensures
        db.upsert_label(label).wf(),
        db.upsert_message(message).wf(),
        db.mark_archived(id).wf(),
        db.mark_deleted(id).wf(),
        db.update_sync_state(id, cursor, now).wf(),
        db.cleanup(cutoff).wf(),
{
    lemma_upsert_label_row_wf(db.labels, label);
    lemma_upsert_message_row_wf(db.messages, message);
    lemma_keep_no_duplicates(db.message_labels, of_other_message(message.id));
    lemma_add_labels_no_duplicates(
        keep(db.message_labels, of_other_message(message.id)),
        message.id,
        message.label_ids,
    );
    lemma_keep_no_duplicates(db.message_labels, is_not_pair((id, "INBOX"@)));
    lemma_keep_no_duplicates(db.message_labels, of_other_message(id));
    lemma_mark_deleted_no_duplicates(db.message_labels, id);
    lemma_upsert_sync_row_wf(db.sync_state, id, cursor, now);
    lemma_cleanup_rows_wf(db.messages, cutoff);
    lemma_keep_no_duplicates(db.message_labels, survives(db.messages, cutoff));
}

/// Replacing a message's labels by the trash label keeps the relation free
/// of repeated rows.
pub proof fn lemma_mark_deleted_no_duplicates(join: Seq<(Seq<char>, Seq<char>)>, id: Seq<char>)
    requires
        join.no_duplicates(),
    ensures
        keep(join, of_other_message(id)).push((id, "TRASH"@)).no_duplicates(),
{
    let rest = keep(join, of_other_message(id));
    let pair = (id, "TRASH"@);
    lemma_keep_no_duplicates(join, of_other_message(id));
    lemma_keep_members(join, of_other_message(id));
    let after = rest.push(pair);
    assert forall|i: int, j: int|
        0 <= i < after.len() && 0 <= j < after.len() && i != j implies after[i] != after[j] by {
        if i < rest.len() && j < rest.len() {
        } else if i < rest.len() {
            assert(rest.contains(rest[i]));
        } else {
            assert(rest.contains(rest[j]));
        }
    }
}

/// With ids that occur once, dropping the label with a given id removes the
/// one row that has it, if there is one.
proof fn lemma_drop_label(stored: Seq<CachedLabelView>, id: Seq<char>, i: int)
    requires
        pairwise(stored, labels_differ()),
        0 <= i <= stored.len(),
        forall|k: int| 0 <= k < i ==> (#[trigger] stored[k]).id != id,
        i < stored.len() ==> stored[i].id == id,
    ensures
        keep(stored, label_id_is_not(id)) == if i < stored.len() {
            stored.remove(i)
        } else {
            stored
        },
{
    let p = label_id_is_not(id);
    if i < stored.len() {
        assert forall|j: int| 0 <= j < stored.len() && j != i implies p(#[trigger] stored[j]) by {
            if j > i {
                assert(labels_differ()(stored[i], stored[j]));
            }
        }
        lemma_keep_all_but(stored, p, i);
    } else {
        assert forall|j: int| 0 <= j < stored.len() implies p(#[trigger] stored[j]) by {}
        lemma_keep_all(stored, p);
    }
}

/// With ids that occur once, dropping the message with a given id removes
/// the one row that has it, if there is one.
proof fn lemma_drop_message(stored: Seq<CachedMessageView>, id: Seq<char>, i: int)
    requires
        pairwise(stored, messages_differ()),
        0 <= i <= stored.len(),
        forall|k: int| 0 <= k < i ==> (#[trigger] stored[k]).id != id,
        i < stored.len() ==> stored[i].id == id,
    ensures
        keep(stored, message_id_is_not(id)) == if i < stored.len() {
            stored.remove(i)
        } else {
            stored
        },
{
    let p = message_id_is_not(id);
    if i < stored.len() {
        assert forall|j: int| 0 <= j < stored.len() && j != i implies p(#[trigger] stored[j]) by {
            if j > i {
                assert(messages_differ()(stored[i], stored[j]));
            }
        }
        lemma_keep_all_but(stored, p, i);
    } else {
        assert forall|j: int| 0 <= j < stored.len() implies p(#[trigger] stored[j]) by {}
        lemma_keep_all(stored, p);
    }
}

/// With one record per label, dropping the record of a label removes the one
/// row that has it, if there is one.
proof fn lemma_drop_sync(stored: Seq<SyncStateView>, label: Seq<char>, i: int)
    requires
        pairwise(stored, sync_labels_differ()),
        0 <= i <= stored.len(),
        forall|k: int| 0 <= k < i ==> (#[trigger] stored[k]).label_id != label,
        i < stored.len() ==> stored[i].label_id == label,
    ensures
        keep(stored, sync_label_is_not(label)) == if i < stored.len() {
            stored.remove(i)
        } else {
            stored
        },
{
    let p = sync_label_is_not(label);
    if i < stored.len() {
        assert forall|j: int| 0 <= j < stored.len() && j != i implies p(#[trigger] stored[j]) by {
            if j > i {
                assert(sync_labels_differ()(stored[i], stored[j]));
            }
        }
        lemma_keep_all_but(stored, p, i);
    } else {
        assert forall|j: int| 0 <= j < stored.len() implies p(#[trigger] stored[j]) by {}
        lemma_keep_all(stored, p);
    }
}

/// Without repeated rows, dropping a pair removes the one row that holds it,
/// if there is one.
proof fn lemma_drop_pair(stored: Seq<(Seq<char>, Seq<char>)>, pair: (Seq<char>, Seq<char>), i: int)
    requires
        stored.no_duplicates(),
        0 <= i <= stored.len(),
        forall|k: int| 0 <= k < i ==> #[trigger] stored[k] != pair,
        i < stored.len() ==> stored[i] == pair,
    ensures
        keep(stored, is_not_pair(pair)) == if i < stored.len() {
            stored.remove(i)
        } else {
            stored
        },
{
    let p = is_not_pair(pair);
    if i < stored.len() {
        assert forall|j: int| 0 <= j < stored.len() && j != i implies p(#[trigger] stored[j]) by {
            assert(stored[j] != stored[i]);
        }
        lemma_keep_all_but(stored, p, i);
    } else {
        assert forall|j: int| 0 <= j < stored.len() implies p(#[trigger] stored[j]) by {}
        lemma_keep_all(stored, p);
    }
}

/// The first row that satisfies `p` is the first row of the selection.
proof fn lemma_keep_first<A>(s: Seq<A>, p: spec_fn(A) -> bool, i: int)
    requires
        0 <= i < s.len(),
        p(s[i]),
        forall|k: int| 0 <= k < i ==> !p(#[trigger] s[k]),
    ensures
        keep(s, p).len() > 0,
        keep(s, p)[0] == s[i],
    decreases s.len(),
{
    let front = s.drop_last();
    if i == s.len() - 1 {
        assert forall|k: int| 0 <= k < front.len() implies !p(#[trigger] front[k]) by {
            assert(front[k] == s[k]);
        }
        lemma_keep_none(front, p);
    } else {
        assert(front[i] == s[i]);
        assert forall|k: int| 0 <= k < i implies !p(#[trigger] front[k]) by {
            assert(front[k] == s[k]);
        }
        lemma_keep_first(front, p, i);
    }
}

/// Index of the label with the given id, or the number of labels.
fn position_of_label(labels: &Vec<CachedLabel>, id: &String) -> (i: usize)
    ensures
        i <= labels.len(),
        forall|k: int| 0 <= k < i ==> (#[trigger] labels.deep_view()[k]).id != id@,
        i < labels.len() ==> labels.deep_view()[i as int].id == id@,
{
    let mut i: usize = 0;
    while i < labels.len() && !(labels[i].id == *id)
        invariant
            i <= labels.len(),
            forall|k: int| 0 <= k < i ==> (#[trigger] labels.deep_view()[k]).id != id@,
        decreases labels.len() - i,
    {
        i += 1;
    }
    i
}

/// Number of labels whose name does not come after `name`.
fn rank_of_name(labels: &Vec<CachedLabel>, name: &str) -> (p: usize)
    requires
        pairwise(labels.deep_view(), names_ascend()),
    ensures
        p <= labels.len(),
        p == count(labels.deep_view(), name_at_most(name@)),
{
    let ghost rows = labels.deep_view();
    let mut p: usize = 0;
    while p < labels.len() && str_le(labels[p].name.as_str(), name)
        invariant
            p <= labels.len(),
            rows == labels.deep_view(),
            forall|k: int| 0 <= k < p ==> lex_le((#[trigger] rows[k]).name, name@),
        decreases labels.len() - p,
    {
        p += 1;
    }
    proof {
        let pred = name_at_most(name@);
        assert forall|k: int| p <= k < rows.len() implies !pred(#[trigger] rows[k]) by {
            if lex_le(rows[k].name, name@) && k > p {
                assert(names_ascend()(rows[p as int], rows[k]));
                lemma_lex_le_transitive(rows[p as int].name, rows[k].name, name@);
            }
        }
        assert forall|k: int| 0 <= k < p implies pred(#[trigger] rows[k]) by {}
        lemma_count_boundary(rows, pred, p as int);
    }
    p
}

/// Index of the message with the given id, or the number of messages.
fn position_of_message(rows: &Vec<CachedMessage>, id: &String) -> (i: usize)
    ensures
        i <= rows.len(),
        forall|k: int| 0 <= k < i ==> (#[trigger] rows.deep_view()[k]).id != id@,
        i < rows.len() ==> rows.deep_view()[i as int].id == id@,
{
    let mut i: usize = 0;
    while i < rows.len() && !(rows[i].id == *id)
        invariant
            i <= rows.len(),
            forall|k: int| 0 <= k < i ==> (#[trigger] rows.deep_view()[k]).id != id@,
        decreases rows.len() - i,
    {
        i += 1;
    }
    i
}

/// Number of messages at least as recent as `date`.
fn rank_of_date(rows: &Vec<CachedMessage>, date: Millis) -> (p: usize)
    requires
        pairwise(rows.deep_view(), dates_descend()),
    ensures
        p <= rows.len(),
        p == count(rows.deep_view(), at_least_as_recent(date)),
{
    let ghost view = rows.deep_view();
    let mut p: usize = 0;
    while p < rows.len() && rows[p].internal_date >= date
        invariant
            p <= rows.len(),
            view == rows.deep_view(),
            forall|k: int| 0 <= k < p ==> (#[trigger] view[k]).internal_date >= date,
        decreases rows.len() - p,
    {
        p += 1;
    }
    proof {
        let pred = at_least_as_recent(date);
        assert forall|k: int| p <= k < view.len() implies !pred(#[trigger] view[k]) by {
            if k > p {
                assert(dates_descend()(view[p as int], view[k]));
            }
        }
        assert forall|k: int| 0 <= k < p implies pred(#[trigger] view[k]) by {}
        lemma_count_boundary(view, pred, p as int);
    }
    p
}

/// Index of the sync record of the given label, or the number of records.
fn position_of_sync(records: &Vec<SyncState>, label: &str) -> (i: usize)
    ensures
        i <= records.len(),
        forall|k: int| 0 <= k < i ==> (#[trigger] records.deep_view()[k]).label_id != label@,
        i < records.len() ==> records.deep_view()[i as int].label_id == label@,
{
    let mut i: usize = 0;
    while i < records.len() && !str_eq(records[i].label_id.as_str(), label)
        invariant
            i <= records.len(),
            forall|k: int| 0 <= k < i ==> (#[trigger] records.deep_view()[k]).label_id != label@,
        decreases records.len() - i,
    {
        i += 1;
    }
    i
}

/// Index of the row that relates the message to the label, or the number of
/// rows.
fn position_of_pair(join: &Vec<MessageLabel>, message_id: &str, label_id: &str) -> (i: usize)
    ensures
        i <= join.len(),
        forall|k: int| 0 <= k < i ==> #[trigger] join.deep_view()[k] != (message_id@, label_id@),
        i < join.len() ==> join.deep_view()[i as int] == (message_id@, label_id@),
{
    let mut i: usize = 0;
    while i < join.len() && !(str_eq(join[i].message_id.as_str(), message_id) && str_eq(
        join[i].label_id.as_str(),
        label_id,
    ))
        invariant
            i <= join.len(),
            forall|k: int|
                0 <= k < i ==> #[trigger] join.deep_view()[k] != (message_id@, label_id@),
        decreases join.len() - i,
    {
        i += 1;
    }
    i
}

/// The rows of the relation that belong to other messages than the given one.
fn rows_of_other_messages(join: &Vec<MessageLabel>, message_id: &str) -> (out: Vec<MessageLabel>)
    ensures
        out.deep_view() == keep(join.deep_view(), of_other_message(message_id@)),
{
    let ghost rows = join.deep_view();
    let ghost pred = of_other_message(message_id@);
    let mut out: Vec<MessageLabel> = Vec::new();
    let mut i: usize = 0;
    assert(out.deep_view() =~= keep(rows.take(0), pred));
    while i < join.len()
        invariant
            i <= join.len(),
            rows == join.deep_view(),
            pred == of_other_message(message_id@),
            out.deep_view() == keep(rows.take(i as int), pred),
        decreases join.len() - i,
    {
        proof {
            lemma_keep_step(rows, pred, i as int);
        }
        if !str_eq(join[i].message_id.as_str(), message_id) {
            let ghost before = out.deep_view();
            let row = join[i].clone();
            out.push(row);
            assert(out.deep_view() =~= before.push(rows[i as int]));
        }
        i += 1;
    }
    assert(rows.take(join.len() as int) =~= rows);
    out
}

/// The labels that the relation gives a message.
fn labels_of_message(join: &Vec<MessageLabel>, message_id: &String) -> (out: Vec<String>)
    ensures
        out.deep_view() == labels_of(join.deep_view(), message_id@),
{
    let ghost rows = join.deep_view();
    let mut out: Vec<String> = Vec::new();
    let mut i: usize = 0;
    assert(out.deep_view() =~= labels_of(rows.take(0), message_id@));
    while i < join.len()
        invariant
            i <= join.len(),
            rows == join.deep_view(),
            out.deep_view() == labels_of(rows.take(i as int), message_id@),
        decreases join.len() - i,
    {
        assert(rows.take(i + 1).drop_last() =~= rows.take(i as int));
        if join[i].message_id == *message_id {
            let ghost before = out.deep_view();
            out.push(join[i].label_id.clone());
            assert(out.deep_view() =~= before.push(rows[i as int].1));
        }
        i += 1;
    }
    assert(rows.take(join.len() as int) =~= rows);
    out
}

/// Whether the store holds a message with this id written before the cutoff.
fn is_expired(rows: &Vec<CachedMessage>, id: &String, cutoff: i128) -> (r: bool)
    ensures
        r == expired(rows.deep_view(), id@, cutoff as int),
{
    let mut i: usize = 0;
    while i < rows.len()
        invariant
            i <= rows.len(),
            forall|k: int|
                0 <= k < i ==> !((#[trigger] rows.deep_view()[k]).id == id@
                    && rows.deep_view()[k].cache_timestamp < cutoff),
        decreases rows.len() - i,
    {
        if rows[i].id == *id && (rows[i].cache_timestamp as i128) < cutoff {
            assert(rows.deep_view()[i as int].id == id@);
            return true;
        }
        i += 1;
    }
    false
}

/// The local store.
pub struct Database {
    labels: Vec<CachedLabel>,
    messages: Vec<CachedMessage>,
    message_labels: Vec<MessageLabel>,
    sync_state: Vec<SyncState>,
}

impl View for Database {
    type V = DatabaseView;

    closed spec fn view(&self) -> DatabaseView {
        DatabaseView {
            labels: self.labels.deep_view(),
            messages: self.messages.deep_view(),
            message_labels: self.message_labels.deep_view(),
            sync_state: self.sync_state.deep_view(),
        }
    }
}

impl Database {
    #[verifier::type_invariant]
    spec fn valid(self) -> bool {
        self@.wf()
    }

    /// Creates an empty store.
    pub fn new() -> (db: Database)
        ensures
            db@ == DatabaseView::empty(),
    {
        let db = Database {
            labels: Vec::new(),
            messages: Vec::new(),
            message_labels: Vec::new(),
            sync_state: Vec::new(),
        };
        assert(db@.labels =~= Seq::empty());
        assert(db@.messages =~= Seq::empty());
        assert(db@.message_labels =~= Seq::empty());
        assert(db@.sync_state =~= Seq::empty());
        db
    }

    /// Inserts a label or replaces the one with the same id. A label that
    /// lacks an id or a name is kept with the empty string in its place.
    pub fn upsert_label(&mut self, label: &Label)
        ensures
            final(self)@ == old(self)@.upsert_label(cached_label_of(label@)),
            final(self)@.wf(),
    {
        proof {
            use_type_invariant(&*self);
        }
        let id = match &label.id {
            Some(s) => s.clone(),
            None => String::new(),
        };
        let name = match &label.name {
            Some(s) => s.clone(),
            None => String::new(),
        };
        let row = CachedLabel { id, name };
        assert(row@ == cached_label_of(label@));
        let mut labels: Vec<CachedLabel> = Vec::new();
        core::mem::swap(&mut self.labels, &mut labels);
        let ghost stored = labels.deep_view();
        let i = position_of_label(&labels, &row.id);
        if i < labels.len() {
            labels.remove(i);
            assert(labels.deep_view() =~= stored.remove(i as int));
        }
        proof {
            lemma_drop_label(stored, row.id@, i as int);
            lemma_keep_pairwise(stored, label_id_is_not(row.id@), names_ascend());
        }
        let ghost rest = labels.deep_view();
        let p = rank_of_name(&labels, row.name.as_str());
        let ghost row_view = row@;
        labels.insert(p, row);
        assert(labels.deep_view() =~= rest.insert(p as int, row_view));
        proof {
            lemma_upsert_label_row_wf(stored, row_view);
        }
        self.labels = labels;
    }

    /// The labels, ordered by name.
    pub fn get_labels(&self) -> (labels: Vec<CachedLabel>)
        ensures
            labels.deep_view() == self@.labels,
            self@.wf(),
    {
        proof {
            use_type_invariant(self);
        }
        let labels = self.labels.clone();
        assert(labels.deep_view() =~= self.labels.deep_view());
        labels
    }

    /// Inserts a message or replaces the one with the same id, and replaces
    /// its labels by those it carries now. A label named twice counts once.
    pub fn upsert_message(&mut self, message: &CachedMessage)
        ensures
            final(self)@ == old(self)@.upsert_message(message@),
            final(self)@.wf(),
    {
        proof {
            use_type_invariant(&*self);
        }
        let ghost before = self@;
        let row = message.with_label_ids(Vec::new());
        assert(row@ =~= row_of(message@)) by {
            assert(row@.label_ids =~= Seq::<Seq<char>>::empty());
        }
        let mut rows: Vec<CachedMessage> = Vec::new();
        core::mem::swap(&mut self.messages, &mut rows);
        let ghost stored = rows.deep_view();
        let i = position_of_message(&rows, &row.id);
        if i < rows.len() {
            rows.remove(i);
            assert(rows.deep_view() =~= stored.remove(i as int));
        }
        proof {
            lemma_drop_message(stored, row.id@, i as int);
            lemma_keep_pairwise(stored, message_id_is_not(row.id@), dates_descend());
        }
        let ghost rest = rows.deep_view();
        let p = rank_of_date(&rows, row.internal_date);
        let ghost row_view = row@;
        rows.insert(p, row);
        assert(rows.deep_view() =~= rest.insert(p as int, row_view));
        proof {
            lemma_upsert_message_row_wf(stored, message@);
        }
        self.messages = rows;

        let mut join = rows_of_other_messages(&self.message_labels, message.id.as_str());
        let ghost kept = join.deep_view();
        proof {
            lemma_keep_no_duplicates(before.message_labels, of_other_message(message.id@));
        }
        let mut k: usize = 0;
        assert(message.label_ids.deep_view().take(0) =~= Seq::<Seq<char>>::empty());
        while k < message.label_ids.len()
            invariant
                k <= message.label_ids.len(),
                join.deep_view() == add_labels(
                    kept,
                    message.id@,
                    message.label_ids.deep_view().take(k as int),
                ),
            decreases message.label_ids.len() - k,
        {
            let ghost labels = message.label_ids.deep_view();
            assert(labels.take(k + 1).drop_last() =~= labels.take(k as int));
            assert(labels.take(k + 1).last() == message.label_ids[k as int]@);
            let at = position_of_pair(&join, message.id.as_str(), message.label_ids[k].as_str());
            if at == join.len() {
                let ghost before_push = join.deep_view();
                join.push(
                    MessageLabel {
                        message_id: message.id.clone(),
                        label_id: message.label_ids[k].clone(),
                    },
                );
                assert(join.deep_view() =~= before_push.push(
                    (message.id@, message.label_ids[k as int]@),
                ));
            }
            k += 1;
        }
        assert(message.label_ids.deep_view().take(message.label_ids.len() as int)
            =~= message.label_ids.deep_view());
        proof {
            lemma_add_labels_no_duplicates(kept, message.id@, message.label_ids.deep_view());
        }
        self.message_labels = join;
    }

    /// The messages of a label, most recent first: at most `limit` of them
    /// after the first `offset`. A negative limit means no limit. The
    /// virtual all-mail label selects every message. Each message comes with
    /// the labels it carries now.
    pub fn get_messages_for_label(&self, label_id: &str, limit: i64, offset: i64) -> (out: Vec<
        CachedMessage,
    >)
        ensures
            out.deep_view() == self@.messages_for_label(label_id@, limit as int, offset as int),
            self@.wf(),
    {
        self.select_messages(label_id, is_all_mail(label_id), limit, offset)
    }

    /// The stored messages that carry a label, or all stored messages where
    /// `all` is set, most recent first: at most `limit` of them after the
    /// first `offset`. A negative limit means no limit.
    pub fn select_messages(&self, label_id: &str, all: bool, limit: i64, offset: i64) -> (out: Vec<
        CachedMessage,
    >)
        ensures
            out.deep_view() == page(
                select(self@.messages, self@.message_labels, label_id@, all),
                limit as int,
                offset as int,
            ),
            self@.wf(),
    {
        proof {
            use_type_invariant(self);
        }
        let ghost rows = self.messages.deep_view();
        let ghost join = self.message_labels.deep_view();
        let mut out: Vec<CachedMessage> = Vec::new();
        let mut matched: usize = 0;
        let mut i: usize = 0;
        assert(out.deep_view() =~= page(
            select(rows.take(0), join, label_id@, all),
            limit as int,
            offset as int,
        ));
        while i < self.messages.len()
            invariant
                i <= self.messages.len(),
                rows == self.messages.deep_view(),
                join == self.message_labels.deep_view(),
                matched == select(rows.take(i as int), join, label_id@, all).len(),
                matched <= i,
                out.deep_view() == page(
                    select(rows.take(i as int), join, label_id@, all),
                    limit as int,
                    offset as int,
                ),
            decreases self.messages.len() - i,
        {
            assert(rows.take(i + 1).drop_last() =~= rows.take(i as int));
            let row = &self.messages[i];
            let ghost sel = select(rows.take(i as int), join, label_id@, all);
            let carried = all || position_of_pair(&self.message_labels, row.id.as_str(), label_id)
                < self.message_labels.len();
            proof {
                if !all {
                    if carried {
                        let at = choose|at: int|
                            0 <= at < join.len() && join[at] == (row.id@, label_id@);
                        assert(join.contains((row.id@, label_id@)));
                    } else {
                        assert(!join.contains((row.id@, label_id@)));
                    }
                }
            }
            if carried {
                let start: i128 = if offset < 0 {
                    0
                } else {
                    offset as i128
                };
                let inside = (matched as i128) >= start && (limit < 0 || (matched as i128) < start
                    + limit as i128);
                proof {
                    lemma_page_push(sel, with_labels(rows[i as int], join), limit as int, offset as int);
                }
                if inside {
                    let ghost before = out.deep_view();
                    let labels = labels_of_message(&self.message_labels, &row.id);
                    let item = row.with_label_ids(labels);
                    assert(item@ == with_labels(rows[i as int], join));
                    out.push(item);
                    assert(out.deep_view() =~= before.push(with_labels(rows[i as int], join)));
                }
                matched += 1;
            }
            i += 1;
        }
        assert(rows.take(self.messages.len() as int) =~= rows);
        out
    }

    /// Takes the inbox label from a message. Its other labels stay.
    pub fn mark_archived(&mut self, message_id: &str)
        ensures
            final(self)@ == old(self)@.mark_archived(message_id@),
            final(self)@.wf(),
    {
        proof {
            use_type_invariant(&*self);
        }
        let mut join: Vec<MessageLabel> = Vec::new();
        core::mem::swap(&mut self.message_labels, &mut join);
        let ghost stored = join.deep_view();
        let i = position_of_pair(&join, message_id, "INBOX");
        if i < join.len() {
            join.remove(i);
            assert(join.deep_view() =~= stored.remove(i as int));
        }
        proof {
            lemma_drop_pair(stored, (message_id@, "INBOX"@), i as int);
            lemma_keep_no_duplicates(stored, is_not_pair((message_id@, "INBOX"@)));
        }
        self.message_labels = join;
    }

    /// Takes every label from a message and gives it the trash label.
    pub fn mark_deleted(&mut self, message_id: &str)
        ensures
            final(self)@ == old(self)@.mark_deleted(message_id@),
            final(self)@.wf(),
    {
        proof {
            use_type_invariant(&*self);
        }
        let ghost stored = self.message_labels.deep_view();
        let mut join = rows_of_other_messages(&self.message_labels, message_id);
        let ghost rest = join.deep_view();
        join.push(MessageLabel { message_id: message_id.to_string(), label_id: "TRASH".to_string() });
        assert(join.deep_view() =~= rest.push((message_id@, "TRASH"@)));
        proof {
            lemma_mark_deleted_no_duplicates(stored, message_id@);
        }
        self.message_labels = join;
    }

    /// Records that a label was refreshed at `now`, with the remote change
    /// token that the refresh brought, if any.
    pub fn update_sync_state(&mut self, label_id: &str, history_id: Option<&str>, now: Millis)
        ensures
            final(self)@ == old(self)@.update_sync_state(
                label_id@,
                match history_id {
                    Some(h) => Some(h@),
                    None => None,
                },
                now,
            ),
            final(self)@.wf(),
    {
        proof {
            use_type_invariant(&*self);
        }
        let cursor = match history_id {
            Some(h) => Some(h.to_string()),
            None => None,
        };
        let row = SyncState { label_id: label_id.to_string(), history_cursor: cursor, last_synced_at: now };
        let mut records: Vec<SyncState> = Vec::new();
        core::mem::swap(&mut self.sync_state, &mut records);
        let ghost stored = records.deep_view();
        let i = position_of_sync(&records, label_id);
        if i < records.len() {
            records.remove(i);
            assert(records.deep_view() =~= stored.remove(i as int));
        }
        proof {
            lemma_drop_sync(stored, label_id@, i as int);
        }
        let ghost rest = records.deep_view();
        let ghost row_view = row@;
        records.push(row);
        assert(records.deep_view() =~= rest.push(row_view));
        proof {
            lemma_upsert_sync_row_wf(stored, label_id@, row_view.history_cursor, now);
        }
        self.sync_state = records;
    }

    /// The sync record of a label, if the label was ever refreshed.
    pub fn get_sync_state(&self, label_id: &str) -> (state: Option<SyncState>)
        ensures
            state.deep_view() == self@.sync_state_of(label_id@),
            self@.wf(),
    {
        proof {
            use_type_invariant(self);
        }
        let ghost stored = self.sync_state.deep_view();
        let i = position_of_sync(&self.sync_state, label_id);
        if i < self.sync_state.len() {
            proof {
                lemma_keep_first(stored, sync_label_is(label_id@), i as int);
            }
            Some(self.sync_state[i].clone())
        } else {
            proof {
                lemma_keep_none(stored, sync_label_is(label_id@));
            }
            None
        }
    }

    /// Removes the messages that were written to the store more than
    /// `max_age` before `now`, with their label associations, and returns
    /// how many messages were removed.
    pub fn cleanup_older_than(&mut self, max_age: Millis, now: Millis) -> (removed: usize)
        ensures
            final(self)@ == old(self)@.cleanup(now - max_age),
            removed == old(self)@.messages.len() - final(self)@.messages.len(),
            final(self)@.wf(),
    {
        proof {
            use_type_invariant(&*self);
        }
        let cutoff: i128 = now as i128 - max_age as i128;
        let ghost rows = self.messages.deep_view();
        let ghost stored = self.message_labels.deep_view();
        let ghost pred = survives(rows, cutoff as int);

        let mut join: Vec<MessageLabel> = Vec::new();
        let mut j: usize = 0;
        assert(join.deep_view() =~= keep(stored.take(0), pred));
        while j < self.message_labels.len()
            invariant
                j <= self.message_labels.len(),
                rows == self.messages.deep_view(),
                stored == self.message_labels.deep_view(),
                pred == survives(rows, cutoff as int),
                join.deep_view() == keep(stored.take(j as int), pred),
            decreases self.message_labels.len() - j,
        {
            proof {
                lemma_keep_step(stored, pred, j as int);
            }
            if !is_expired(&self.messages, &self.message_labels[j].message_id, cutoff) {
                let ghost before = join.deep_view();
                let row = self.message_labels[j].clone();
                join.push(row);
                assert(join.deep_view() =~= before.push(stored[j as int]));
            }
            j += 1;
        }
        assert(stored.take(self.message_labels.len() as int) =~= stored);

        let ghost fresh = cached_since(cutoff as int);
        let mut kept: Vec<CachedMessage> = Vec::new();
        let mut i: usize = 0;
        assert(kept.deep_view() =~= keep(rows.take(0), fresh));
        while i < self.messages.len()
            invariant
                i <= self.messages.len(),
                rows == self.messages.deep_view(),
                fresh == cached_since(cutoff as int),
                kept.deep_view() == keep(rows.take(i as int), fresh),
            decreases self.messages.len() - i,
        {
            proof {
                lemma_keep_step(rows, fresh, i as int);
            }
            if self.messages[i].cache_timestamp as i128 >= cutoff {
                let ghost before = kept.deep_view();
                let row = self.messages[i].clone();
                kept.push(row);
                assert(kept.deep_view() =~= before.push(rows[i as int]));
            }
            i += 1;
        }
        assert(rows.take(self.messages.len() as int) =~= rows);
        proof {
            lemma_keep_members(rows, fresh);
            lemma_cleanup_rows_wf(rows, cutoff as int);
            lemma_keep_no_duplicates(stored, pred);
        }
        let removed = self.messages.len() - kept.len();
        self.message_labels = join;
        self.messages = kept;
        removed
    }
}

} // verus!
