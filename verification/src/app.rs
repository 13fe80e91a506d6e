//! Start of the client: where the labels come from, and what the client
//! shows when they cannot be had.
use vstd::prelude::*;
use crate::database::{cached_label_of, DatabaseView};
use crate::state::{AppState, AppStateView};
use crate::text::{contains, is_all_mail, join3, occurs_in, spec_is_all_mail};
use crate::types::{Label, LabelView};

verus! {

/// The text shown when the account has no labels.
pub open spec fn no_labels_text() -> Seq<char> {
    "No email labels found. Your Gmail account may be empty."@
}

/// The text shown when the token was refused.
pub open spec fn auth_expired_text() -> Seq<char> {
    "Authentication expired or invalid. Press Ctrl+R to re-authenticate, or restart the app if the problem persists. Make sure client_secret.json is present and valid."@
}

/// The text shown when the labels could not be retrieved.
pub open spec fn labels_failed_text(report: Seq<char>) -> Seq<char> {
    "Failed to load email labels: "@ + report
        + ". Please check your internet connection and try restarting the app."@
}

/// Whether the report of a failed request tells that the token was refused.
pub open spec fn is_unauthorized(report: Seq<char>) -> bool {
    occurs_in("401"@, report) || occurs_in("Unauthorized"@, report)
}

/// Whether a label is written to the store: it has an id and a name, and it
/// is not the virtual all-mail label, which is never stored.
pub open spec fn is_stored_label(label: LabelView) -> bool {
    match (label.id, label.name) {
        (Some(id), Some(name)) => !spec_is_all_mail(id),
        _ => false,
    }
}

/// The store after each label that is to be stored was written, in order.
pub open spec fn store_named_labels(db: DatabaseView, labels: Seq<LabelView>) -> DatabaseView
    decreases labels.len(),
{
    if labels.len() == 0 {
        db
    } else {
        let before = store_named_labels(db, labels.drop_last());
        if is_stored_label(labels.last()) {
            before.upsert_label(cached_label_of(labels.last()))
        } else {
            before
        }
    }
}

/// The state after the labels were loaded from the store at the start, and
/// whether they suffice: whether the store held any label to show. Where
/// they suffice the status slot is emptied.
pub open spec fn after_cached_labels(state: AppStateView) -> (AppStateView, bool) {
    let loaded = state.load_labels_from_cache();
    if loaded.labels.len() > 0 {
        (AppStateView { error_message: None, ..loaded }, true)
    } else {
        (loaded, false)
    }
}

/// The state after the remote service answered the request for the labels
/// at the start. With labels retrieved, they are shown without chat labels
/// and in display order, and the real ones among them are written to the
/// store; the first one is selected. Without any label to show, or with a failure, the status slot
/// tells why.
pub open spec fn after_fetched_labels(
    state: AppStateView,
    fetched: Result<Seq<LabelView>, Seq<char>>,
) -> AppStateView {
    match fetched {
        Ok(labels) => {
            let shown = AppStateView { labels, ..state }.filter_labels().order_labels();
            let stored = AppStateView {
                database: match shown.database {
                    Some(db) => Some(store_named_labels(db, shown.labels)),
                    None => None,
                },
                ..shown
            };
            if stored.labels.len() > 0 {
                AppStateView {
                    selected_label: 0,
                    label_state: Some(0usize),
                    error_message: None,
                    ..stored
                }
            } else {
                AppStateView { error_message: Some(no_labels_text()), ..stored }
            }
        },
        Err(report) => if is_unauthorized(report) {
            AppStateView { error_message: Some(auth_expired_text()), ..state }
        } else {
            AppStateView { error_message: Some(labels_failed_text(report)), ..state }
        },
    }
}

/// Loads the labels from the store at the start, and says whether the
/// client can go on with them; where it cannot, the labels are to be asked
/// of the remote service.
pub fn load_cached_labels(state: &mut AppState) -> (enough: bool)
    ensures
        (final(state)@, enough) == after_cached_labels(old(state)@),
{
    state.load_labels_from_cache();
    if state.labels.len() > 0 {
        state.clear_error_message();
        true
    } else {
        false
    }
}

/// Takes the answer of the remote service to the request for the labels at
/// the start, and says whether there is a label whose messages can be
/// loaded.
pub fn labels_fetched(state: &mut AppState, fetched: Result<Vec<Label>, String>) -> (ready: bool)
    ensures
        final(state)@ == after_fetched_labels(
            old(state)@,
            match fetched {
                Ok(l) => Ok(l.deep_view()),
                Err(e) => Err(e@),
            },
        ),
        ready == (fetched is Ok && final(state)@.labels.len() > 0),
{
    match fetched {
        Ok(labels) => {
            state.labels = labels;
            state.filter_labels();
            state.order_labels();
            let ghost rows = state.labels.deep_view();
            match &mut state.database {
                Some(db) => {
                    let ghost db0 = db@;
                    let mut k: usize = 0;
                    assert(rows.take(0) =~= Seq::<LabelView>::empty());
                    while k < state.labels.len()
                        invariant
                            k <= state.labels.len(),
                            rows == state.labels.deep_view(),
                            db@ == store_named_labels(db0, rows.take(k as int)),
                        decreases state.labels.len() - k,
                    {
                        assert(rows.take(k + 1).drop_last() =~= rows.take(k as int));
                        assert(rows.take(k + 1).last() == rows[k as int]);
                        let stored = match (&state.labels[k].id, &state.labels[k].name) {
                            (Some(id), Some(_)) => !is_all_mail(id.as_str()),
                            _ => false,
                        };
                        if stored {
                            db.upsert_label(&state.labels[k]);
                        }
                        k += 1;
                    }
                    assert(rows.take(state.labels.len() as int) =~= rows);
                },
                None => {},
            }
            if state.labels.len() > 0 {
                state.selected_label = 0;
                state.update_label_state();
                state.clear_error_message();
                true
            } else {
                state.set_error_message(
                    "No email labels found. Your Gmail account may be empty.".to_string(),
                );
                false
            }
        },
        Err(report) => {
            if contains(report.as_str(), "401") || contains(report.as_str(), "Unauthorized") {
                state.set_error_message(
                    "Authentication expired or invalid. Press Ctrl+R to re-authenticate, or restart the app if the problem persists. Make sure client_secret.json is present and valid.".to_string(),
                );
            } else {
                state.set_error_message(
                    join3(
                        "Failed to load email labels: ",
                        report.as_str(),
                        ". Please check your internet connection and try restarting the app.",
                    ),
                );
            }
            false
        },
    }
}

} // verus!
