//! Laws of the local store, stated over its mathematical tables.
use vstd::prelude::*;
use crate::database::{add_labels, is_not_pair, labels_of, of_other_message, row_of, select};
use crate::database::{with_labels, CachedMessageView, DatabaseView};
use crate::database::{at_least_as_recent, message_id_is_not, messages_differ, upsert_message_row};
use crate::table::{count, keep, page};
use crate::table::{lemma_keep_all, lemma_keep_members};
use crate::text::spec_is_all_mail;

verus! {

/// Labels other than the given one.
pub open spec fn label_is_not(label: Seq<char>) -> spec_fn(Seq<char>) -> bool {
    |l: Seq<char>| l != label
}

/// A message carries a label exactly when the relation holds the pair.
pub proof fn lemma_labels_of_contains(
    join: Seq<(Seq<char>, Seq<char>)>,
    id: Seq<char>,
    label: Seq<char>,
)
    ensures
        labels_of(join, id).contains(label) <==> join.contains((id, label)),
    decreases join.len(),
{
    if join.len() > 0 {
        let front = join.drop_last();
        lemma_labels_of_contains(front, id, label);
        let before = labels_of(front, id);
        if join.contains((id, label)) {
            let k = choose|k: int| 0 <= k < join.len() && join[k] == (id, label);
            if k < front.len() {
                assert(front[k] == (id, label));
                assert(front.contains((id, label)));
                let at = choose|at: int| 0 <= at < before.len() && before[at] == label;
                assert(labels_of(join, id)[at] == label);
            } else {
                assert(labels_of(join, id)[before.len() as int] == label);
            }
        }
        if labels_of(join, id).contains(label) {
            let at = choose|at: int|
                0 <= at < labels_of(join, id).len() && labels_of(join, id)[at] == label;
            if at < before.len() {
                assert(before[at] == label);
                assert(before.contains(label));
                let k = choose|k: int| 0 <= k < front.len() && front[k] == (id, label);
                assert(join[k] == (id, label));
            } else {
                assert(join[join.len() - 1] == (id, label));
            }
        }
    }
}

/// Rows of other messages give a message no labels.
pub proof fn lemma_labels_of_none(join: Seq<(Seq<char>, Seq<char>)>, id: Seq<char>)
    requires
        forall|k: int| 0 <= k < join.len() ==> (#[trigger] join[k]).0 != id,
    ensures
        labels_of(join, id) == Seq::<Seq<char>>::empty(),
    decreases join.len(),
{
    if join.len() > 0 {
        let front = join.drop_last();
        assert forall|k: int| 0 <= k < front.len() implies (#[trigger] front[k]).0 != id by {
            assert(front[k] == join[k]);
        }
        lemma_labels_of_none(front, id);
        assert(join[join.len() - 1].0 != id);
    }
}

/// After a message's old rows left the relation, giving it labels that are
/// all different gives it exactly these labels, in their order, and leaves
/// the labels of every other message as they were.
pub proof fn lemma_labels_of_add_labels(
    join: Seq<(Seq<char>, Seq<char>)>,
    id: Seq<char>,
    labels: Seq<Seq<char>>,
    other: Seq<char>,
)
    requires
        labels_of(join, id) == Seq::<Seq<char>>::empty(),
        labels.no_duplicates(),
        other != id,
    ensures
        labels_of(add_labels(join, id, labels), id) == labels,
        labels_of(add_labels(join, id, labels), other) == labels_of(join, other),
    decreases labels.len(),
{
    if labels.len() > 0 {
        let front = labels.drop_last();
        assert(front.no_duplicates()) by {
            assert forall|i: int, j: int|
                0 <= i < front.len() && 0 <= j < front.len() && i != j implies front[i]
                != front[j] by {
                assert(front[i] == labels[i] && front[j] == labels[j]);
            }
        }
        lemma_labels_of_add_labels(join, id, front, other);
        let before = add_labels(join, id, front);
        lemma_labels_of_contains(before, id, labels.last());
        if front.contains(labels.last()) {
            let k = choose|k: int| 0 <= k < front.len() && front[k] == labels.last();
            assert(labels[k] == labels[labels.len() - 1]);
        }
        let after = before.push((id, labels.last()));
        assert(after.drop_last() =~= before);
        assert(front.push(labels.last()) =~= labels);
    } else {
        assert(labels =~= Seq::<Seq<char>>::empty());
    }
}

/// The labels of a message that holds no row in the relation after its rows
/// were dropped.
pub proof fn lemma_labels_of_dropped(join: Seq<(Seq<char>, Seq<char>)>, id: Seq<char>, other: Seq<char>)
    requires
        other != id,
    ensures
        labels_of(keep(join, of_other_message(id)), id) == Seq::<Seq<char>>::empty(),
        labels_of(keep(join, of_other_message(id)), other) == labels_of(join, other),
    decreases join.len(),
{
    let rest = keep(join, of_other_message(id));
    lemma_keep_members(join, of_other_message(id));
    assert forall|k: int| 0 <= k < rest.len() implies (#[trigger] rest[k]).0 != id by {
        assert(rest.contains(rest[k]));
    }
    lemma_labels_of_none(rest, id);
    if join.len() > 0 {
        let front = join.drop_last();
        lemma_labels_of_dropped(front, id, other);
        if of_other_message(id)(join.last()) {
            assert(rest.drop_last() =~= keep(front, of_other_message(id)));
        }
    }
}

/// A selection lists, for every stored row that it selects, the row with its
/// labels; and it lists nothing else.
pub proof fn lemma_select_members(
    rows: Seq<CachedMessageView>,
    join: Seq<(Seq<char>, Seq<char>)>,
    label: Seq<char>,
    all: bool,
)
    ensures
        select(rows, join, label, all).len() <= rows.len(),
        forall|i: int|
            0 <= i < rows.len() && (all || join.contains((#[trigger] rows[i].id, label)))
                ==> select(rows, join, label, all).contains(with_labels(rows[i], join)),
        forall|x: CachedMessageView| #[trigger]
            select(rows, join, label, all).contains(x) ==> exists|i: int|
                0 <= i < rows.len() && (all || join.contains((rows[i].id, label))) && x
                    == with_labels(#[trigger] rows[i], join),
    decreases rows.len(),
{
    let sel = select(rows, join, label, all);
    if rows.len() > 0 {
        let front = rows.drop_last();
        let before = select(front, join, label, all);
        lemma_select_members(front, join, label, all);
        let taken = all || join.contains((rows.last().id, label));
        assert forall|i: int|
            0 <= i < rows.len() && (all || join.contains((#[trigger] rows[i].id, label)))
            implies sel.contains(with_labels(rows[i], join)) by {
            if i < front.len() {
                assert(front[i] == rows[i]);
                assert(before.contains(with_labels(front[i], join)));
                let k = choose|k: int|
                    0 <= k < before.len() && before[k] == with_labels(front[i], join);
                assert(sel[k] == with_labels(rows[i], join));
            } else {
                assert(sel[before.len() as int] == with_labels(rows[i], join));
            }
        }
        assert forall|x: CachedMessageView| #[trigger] sel.contains(x) implies exists|i: int|
            0 <= i < rows.len() && (all || join.contains((rows[i].id, label))) && x == with_labels(
                #[trigger] rows[i],
                join,
            ) by {
            let k = choose|k: int| 0 <= k < sel.len() && sel[k] == x;
            if k < before.len() {
                assert(before[k] == x);
                assert(before.contains(x));
                let i = choose|i: int|
                    0 <= i < front.len() && (all || join.contains((front[i].id, label))) && x
                        == with_labels(#[trigger] front[i], join);
                assert(rows[i] == front[i]);
            } else {
                assert(taken);
                assert(x == with_labels(rows[rows.len() - 1], join));
            }
        }
    } else {
        assert forall|x: CachedMessageView| #[trigger] sel.contains(x) implies exists|i: int|
            0 <= i < rows.len() && (all || join.contains((rows[i].id, label))) && x == with_labels(
                #[trigger] rows[i],
                join,
            ) by {}
    }
}

/// A listing of the virtual all-mail label, taken without a window, holds
/// every stored message, whatever labels it carries, in the order of the
/// store.
pub proof fn lemma_all_mail_lists_every_message(db: DatabaseView, label: Seq<char>)
    requires
        spec_is_all_mail(label),
    ensures
        db.messages_for_label(label, -1, 0).len() == db.messages.len(),
        forall|i: int|
            0 <= i < db.messages.len() ==> #[trigger] db.messages_for_label(label, -1, 0)[i]
                == with_labels(db.messages[i], db.message_labels),
{
    lemma_select_all(db.messages, db.message_labels, label);
    let sel = select(db.messages, db.message_labels, label, true);
    assert(page(sel, -1, 0) =~= sel);
}

/// Selecting every row keeps the number and the order of the rows.
pub proof fn lemma_select_all(
    rows: Seq<CachedMessageView>,
    join: Seq<(Seq<char>, Seq<char>)>,
    label: Seq<char>,
)
    ensures
        select(rows, join, label, true).len() == rows.len(),
        forall|i: int|
            0 <= i < rows.len() ==> #[trigger] select(rows, join, label, true)[i] == with_labels(
                rows[i],
                join,
            ),
    decreases rows.len(),
{
    if rows.len() > 0 {
        lemma_select_all(rows.drop_last(), join, label);
    }
}

/// A listing of a real label, taken without a window, holds a stored message
/// exactly when the message carries the label.
pub proof fn lemma_label_lists_its_messages(db: DatabaseView, label: Seq<char>, i: int)
    requires
        db.wf(),
        !spec_is_all_mail(label),
        0 <= i < db.messages.len(),
    ensures
        db.messages_for_label(label, -1, 0).contains(
            with_labels(db.messages[i], db.message_labels),
        ) <==> labels_of(db.message_labels, db.messages[i].id).contains(label),
{
    let rows = db.messages;
    let join = db.message_labels;
    let sel = select(rows, join, label, false);
    assert(page(sel, -1, 0) =~= sel);
    lemma_select_members(rows, join, label, false);
    lemma_labels_of_contains(join, rows[i].id, label);
    if sel.contains(with_labels(rows[i], join)) {
        let j = choose|j: int|
            0 <= j < rows.len() && join.contains((rows[j].id, label)) && with_labels(rows[i], join)
                == with_labels(#[trigger] rows[j], join);
        assert(rows[j].id == rows[i].id);
        if j < i {
            assert(messages_differ()(rows[j], rows[i]));
        } else if i < j {
            assert(messages_differ()(rows[i], rows[j]));
        }
    }
}

/// A message written to the store is stored as it is, but for its label
/// list, which the relation holds.
pub proof fn lemma_upsert_stores_row(rows: Seq<CachedMessageView>, message: CachedMessageView)
    ensures
        upsert_message_row(rows, message).contains(row_of(message)),
{
    let rest = keep(rows, message_id_is_not(message.id));
    lemma_keep_members(rows, message_id_is_not(message.id));
    let recent = at_least_as_recent(message.internal_date);
    lemma_keep_members(rest, recent);
    let n = count(rest, recent) as int;
    assert(rest.insert(n, row_of(message))[n] == row_of(message));
}

/// Round trip: a message whose labels are all different, written to the
/// store and read back through any of its labels or through the all-mail
/// label, comes back equal in every field.
pub proof fn lemma_round_trip(db: DatabaseView, message: CachedMessageView, label: Seq<char>)
    requires
        db.wf(),
        message.label_ids.no_duplicates(),
        message.label_ids.contains(label) || spec_is_all_mail(label),
    ensures
        db.upsert_message(message).messages_for_label(label, -1, 0).contains(message),
{
    let after = db.upsert_message(message);
    let rows = after.messages;
    let join = after.message_labels;
    let base = keep(db.message_labels, of_other_message(message.id));
    let all = spec_is_all_mail(label);
    lemma_upsert_stores_row(db.messages, message);
    let i = choose|i: int| 0 <= i < rows.len() && rows[i] == row_of(message);
    let other: Seq<char> = message.id.push('x');
    assert(other.len() != message.id.len());
    lemma_labels_of_dropped(db.message_labels, message.id, other);
    lemma_labels_of_add_labels(base, message.id, message.label_ids, other);
    assert(with_labels(rows[i], join) =~= message);
    lemma_labels_of_contains(join, message.id, label);
    lemma_select_members(rows, join, label, all);
    let sel = select(rows, join, label, all);
    assert(page(sel, -1, 0) =~= sel);
}

/// A message written to the store is not listed under a real label that it
/// does not carry.
pub proof fn lemma_not_listed_elsewhere(db: DatabaseView, message: CachedMessageView, label: Seq<char>)
    requires
        db.wf(),
        message.label_ids.no_duplicates(),
        !message.label_ids.contains(label),
        !spec_is_all_mail(label),
    ensures
        forall|x: CachedMessageView| #[trigger]
            db.upsert_message(message).messages_for_label(label, -1, 0).contains(x) ==> x.id
                != message.id,
{
    let after = db.upsert_message(message);
    let rows = after.messages;
    let join = after.message_labels;
    let base = keep(db.message_labels, of_other_message(message.id));
    let other: Seq<char> = message.id.push('x');
    assert(other.len() != message.id.len());
    lemma_labels_of_dropped(db.message_labels, message.id, other);
    lemma_labels_of_add_labels(base, message.id, message.label_ids, other);
    lemma_labels_of_contains(join, message.id, label);
    lemma_select_members(rows, join, label, false);
    let sel = select(rows, join, label, false);
    assert(page(sel, -1, 0) =~= sel);
}

/// Archiving once more changes nothing.
pub proof fn lemma_archive_idempotent(db: DatabaseView, id: Seq<char>)
    ensures
        db.mark_archived(id).mark_archived(id) == db.mark_archived(id),
{
    let p = is_not_pair((id, "INBOX"@));
    let once = keep(db.message_labels, p);
    lemma_keep_members(db.message_labels, p);
    assert forall|k: int| 0 <= k < once.len() implies p(#[trigger] once[k]) by {
        assert(once.contains(once[k]));
    }
    lemma_keep_all(once, p);
}

/// Archiving takes the inbox label from the message and nothing else: its
/// other labels stay in their order, and every other message keeps its
/// labels.
pub proof fn lemma_archive_labels(join: Seq<(Seq<char>, Seq<char>)>, id: Seq<char>, other: Seq<char>)
    requires
        other != id,
    ensures
        labels_of(keep(join, is_not_pair((id, "INBOX"@))), id) == keep(
            labels_of(join, id),
            label_is_not("INBOX"@),
        ),
        !labels_of(keep(join, is_not_pair((id, "INBOX"@))), id).contains("INBOX"@),
        labels_of(keep(join, is_not_pair((id, "INBOX"@))), other) == labels_of(join, other),
    decreases join.len(),
{
    let p = is_not_pair((id, "INBOX"@));
    let q = label_is_not("INBOX"@);
    if join.len() > 0 {
        let front = join.drop_last();
        lemma_archive_labels(front, id, other);
        if p(join.last()) {
            assert(keep(join, p).drop_last() =~= keep(front, p));
        }
        if join.last().0 == id {
            assert(labels_of(join, id).drop_last() =~= labels_of(front, id));
        }
    }
    lemma_keep_members(labels_of(join, id), q);
}

/// Deleting leaves a message with the trash label alone, and every other
/// message with its labels; deleting once more changes nothing.
pub proof fn lemma_delete_labels(db: DatabaseView, id: Seq<char>, other: Seq<char>)
    requires
        other != id,
    ensures
        labels_of(db.mark_deleted(id).message_labels, id) == seq!["TRASH"@],
        labels_of(db.mark_deleted(id).message_labels, other) == labels_of(db.message_labels, other),
        db.mark_deleted(id).mark_deleted(id) == db.mark_deleted(id),
{
    let p = of_other_message(id);
    let rest = keep(db.message_labels, p);
    let after = rest.push((id, "TRASH"@));
    lemma_labels_of_dropped(db.message_labels, id, other);
    assert(after.drop_last() =~= rest);
    assert(labels_of(after, id) =~= seq!["TRASH"@]);
    lemma_keep_members(db.message_labels, p);
    assert forall|k: int| 0 <= k < rest.len() implies p(#[trigger] rest[k]) by {
        assert(rest.contains(rest[k]));
    }
    lemma_keep_all(rest, p);
    assert(keep(after, p) == rest);
}

/// Neither archiving nor deleting gives any message the inbox label.
pub proof fn lemma_no_way_back_to_inbox(db: DatabaseView, id: Seq<char>, any: Seq<char>)
    requires
        !labels_of(db.message_labels, any).contains("INBOX"@),
    ensures
        !labels_of(db.mark_archived(id).message_labels, any).contains("INBOX"@),
        !labels_of(db.mark_deleted(id).message_labels, any).contains("INBOX"@),
{
    let inbox = "INBOX"@;
    assert(inbox != "TRASH"@) by {
        reveal_strlit("INBOX");
        reveal_strlit("TRASH");
        assert("INBOX"@[0] != "TRASH"@[0]);
    }
    lemma_labels_of_contains(db.message_labels, any, inbox);
    lemma_labels_of_contains(db.mark_archived(id).message_labels, any, inbox);
    lemma_labels_of_contains(db.mark_deleted(id).message_labels, any, inbox);
    lemma_keep_members(db.message_labels, is_not_pair((id, inbox)));
    lemma_keep_members(db.message_labels, of_other_message(id));
    let rest = keep(db.message_labels, of_other_message(id));
    let after = rest.push((id, "TRASH"@));
    if after.contains((any, inbox)) {
        let k = choose|k: int| 0 <= k < after.len() && after[k] == (any, inbox);
        if k < rest.len() {
            assert(rest.contains((any, inbox)));
        }
    }
}

} // verus!
