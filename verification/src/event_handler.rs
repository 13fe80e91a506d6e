//! Key handling: what a key does to the view state, and what it asks the
//! caller to do outside of it.
use vstd::prelude::*;
use vstd::utf8::{encode_utf8, is_char_boundary};
use crate::gmail_api::messages::wants_more_messages;
use crate::state::{selected_id, AppState, AppStateView, ComposeField, ComposeState};
use crate::state::{ComposeStateView, FocusedPane};
use crate::text::{contains, insert_char, join2, lines, lines_of, occurs_in, remove_char};
use crate::text::{inserted, removed};

verus! {

/// The key of a key press.
#[derive(Debug, Clone, Copy, PartialEq, Eq, Structural)]
pub enum KeyCode {
    Char(char),
    Enter,
    Tab,
    BackTab,
    Esc,
    Backspace,
    Left,
    Right,
    Up,
    Down,
    Other,
}

/// A key press: the key, and whether the control key was held.
#[derive(Debug, Clone, Copy, PartialEq, Eq, Structural)]
pub struct KeyEvent {
    pub code: KeyCode,
    pub control: bool,
}

/// What a key press asks the caller to do outside of the view state.
#[derive(Debug)]
pub enum KeyAction {
    /// Nothing.
    Idle,
    /// Leave the client.
    Quit,
    /// Refresh the selected label from the remote service.
    Refresh,
    /// Acquire a new token.
    Reauthenticate,
    /// Retrieve the next page of the list on display.
    LoadMore,
    /// Show the selected label: from the cache first, then refreshed.
    OpenLabel,
    /// Retrieve the message in full, then call `finish_open_message`.
    OpenMessage { message_id: String },
    /// Retrieve the message in full, then call `complete_reply` with the
    /// body that was known when the key was pressed.
    FetchForReply { message_id: String, quoted_body: Option<String> },
    /// Send the message of the compose form, then call `finish_send`.
    Send,
    /// Ask the remote service to archive the message, then call
    /// `finish_archive`.
    Archive { index: usize, message_id: String },
    /// Ask the remote service to trash the message, then call
    /// `finish_delete`.
    Delete { index: usize, message_id: String },
}

pub enum KeyActionView {
    Idle,
    Quit,
    Refresh,
    Reauthenticate,
    LoadMore,
    OpenLabel,
    OpenMessage { message_id: Seq<char> },
    FetchForReply { message_id: Seq<char>, quoted_body: Option<Seq<char>> },
    Send,
    Archive { index: usize, message_id: Seq<char> },
    Delete { index: usize, message_id: Seq<char> },
}

impl DeepView for KeyAction {
    type V = KeyActionView;

    open spec fn deep_view(&self) -> KeyActionView {
        match self {
            KeyAction::Idle => KeyActionView::Idle,
            KeyAction::Quit => KeyActionView::Quit,
            KeyAction::Refresh => KeyActionView::Refresh,
            KeyAction::Reauthenticate => KeyActionView::Reauthenticate,
            KeyAction::LoadMore => KeyActionView::LoadMore,
            KeyAction::OpenLabel => KeyActionView::OpenLabel,
            KeyAction::OpenMessage { message_id } => KeyActionView::OpenMessage {
                message_id: message_id@,
            },
            KeyAction::FetchForReply { message_id, quoted_body } => KeyActionView::FetchForReply {
                message_id: message_id@,
                quoted_body: quoted_body.deep_view(),
            },
            KeyAction::Send => KeyActionView::Send,
            KeyAction::Archive { index, message_id } => KeyActionView::Archive {
                index: *index,
                message_id: message_id@,
            },
            KeyAction::Delete { index, message_id } => KeyActionView::Delete {
                index: *index,
                message_id: message_id@,
            },
        }
    }
}

/// A field and its cursor after a character was typed: the character goes
/// in at the cursor, which moves on by one. Nothing happens where the
/// cursor does not stand on a character boundary of the text.
pub open spec fn field_typed(text: Seq<char>, cursor: usize, c: char) -> (Seq<char>, usize) {
    if is_char_boundary(encode_utf8(text), cursor as int) && cursor < usize::MAX {
        (inserted(text, cursor as int, c), (cursor + 1) as usize)
    } else {
        (text, cursor)
    }
}

/// A field and its cursor after the character before the cursor was
/// erased. Nothing happens at the start of the text, nor where no character
/// starts one byte before the cursor.
pub open spec fn field_erased(text: Seq<char>, cursor: usize) -> (Seq<char>, usize) {
    if cursor > 0 && cursor - 1 < (encode_utf8(text).len() as usize) && is_char_boundary(
        encode_utf8(text),
        cursor - 1,
    ) {
        (removed(text, cursor - 1), (cursor - 1) as usize)
    } else {
        (text, cursor)
    }
}

/// The cursor after a step to the left.
pub open spec fn cursor_left(cursor: usize) -> usize {
    if cursor > 0 {
        (cursor - 1) as usize
    } else {
        cursor
    }
}

/// The cursor after a step to the right, which stops at the end of the
/// text.
pub open spec fn cursor_right(text: Seq<char>, cursor: usize) -> usize {
    if cursor < (encode_utf8(text).len() as usize) {
        (cursor + 1) as usize
    } else {
        cursor
    }
}

/// What an edit of one field does to its text and cursor.
pub enum FieldEdit {
    Type(char),
    Erase,
    Left,
    Right,
}

/// A field and its cursor after an edit.
pub open spec fn field_after(text: Seq<char>, cursor: usize, edit: FieldEdit) -> (Seq<char>, usize) {
    match edit {
        FieldEdit::Type(c) => field_typed(text, cursor, c),
        FieldEdit::Erase => field_erased(text, cursor),
        FieldEdit::Left => (text, cursor_left(cursor)),
        FieldEdit::Right => (text, cursor_right(text, cursor)),
    }
}

/// The compose form after an edit of the focused field. The send button
/// takes no edit.
pub open spec fn form_after(form: ComposeStateView, edit: FieldEdit) -> ComposeStateView {
    match form.focused_field {
        ComposeField::To => {
            let (text, cursor) = field_after(form.to, form.to_cursor_position, edit);
            ComposeStateView { to: text, to_cursor_position: cursor, ..form }
        },
        ComposeField::Cc => {
            let (text, cursor) = field_after(form.cc, form.cc_cursor_position, edit);
            ComposeStateView { cc: text, cc_cursor_position: cursor, ..form }
        },
        ComposeField::Bcc => {
            let (text, cursor) = field_after(form.bcc, form.bcc_cursor_position, edit);
            ComposeStateView { bcc: text, bcc_cursor_position: cursor, ..form }
        },
        ComposeField::Subject => {
            let (text, cursor) = field_after(form.subject, form.subject_cursor_position, edit);
            ComposeStateView { subject: text, subject_cursor_position: cursor, ..form }
        },
        ComposeField::Body => {
            let (text, cursor) = field_after(form.body, form.body_cursor_position, edit);
            ComposeStateView { body: text, body_cursor_position: cursor, ..form }
        },
        ComposeField::Send => form,
    }
}

/// The state with the compose form replaced.
pub open spec fn with_form(state: AppStateView, form: ComposeStateView) -> AppStateView {
    AppStateView { compose_state: form, ..state }
}

/// The state with the focus on a pane.
pub open spec fn with_pane(state: AppStateView, pane: FocusedPane) -> AppStateView {
    AppStateView { focused_pane: pane, ..state }
}

/// The state with a message in the status slot.
pub open spec fn with_status(state: AppStateView, text: Seq<char>) -> AppStateView {
    AppStateView { error_message: Some(text), ..state }
}

/// The pane after the tabulator key.
pub open spec fn next_pane(pane: FocusedPane) -> FocusedPane {
    match pane {
        FocusedPane::Labels => FocusedPane::Messages,
        FocusedPane::Messages => FocusedPane::Content,
        FocusedPane::Content => FocusedPane::Labels,
    }
}

/// The pane after the back-tabulator key.
pub open spec fn prev_pane(pane: FocusedPane) -> FocusedPane {
    match pane {
        FocusedPane::Labels => FocusedPane::Content,
        FocusedPane::Messages => FocusedPane::Labels,
        FocusedPane::Content => FocusedPane::Messages,
    }
}

/// One line of a quoted text.
pub open spec fn quoted_line(line: Seq<char>) -> Seq<char> {
    "> "@ + line + "\n"@
}

/// The lines of a text, each quoted, one after the other.
pub open spec fn quoted_lines(all: Seq<Seq<char>>) -> Seq<char>
    decreases all.len(),
{
    if all.len() == 0 {
        Seq::empty()
    } else {
        quoted_lines(all.drop_last()) + quoted_line(all.last())
    }
}

/// The body that a reply starts with: two empty lines and the body of the
/// message replied to, quoted line by line; empty where that body is not
/// known.
pub open spec fn reply_body(source: Option<Seq<char>>) -> Seq<char> {
    match source {
        Some(body) => "\n\n"@ + quoted_lines(lines(body)),
        None => Seq::empty(),
    }
}

/// The state after a reply to the message on display was opened: the form
/// is addressed to the sender, with the subject of the message and its
/// recipient in copy, and the header lines leave the display. Without header
/// lines on display the form opens unaddressed.
pub open spec fn reply_opened(state: AppStateView, source: Option<Seq<char>>) -> AppStateView {
    let body = reply_body(source);
    let form = match state.current_message_display_headers {
        Some(shown) => ComposeStateView {
            to: shown.from,
            to_cursor_position: encode_utf8(shown.from).len() as usize,
            cc: if shown.to.len() > 0 {
                shown.to
            } else {
                Seq::empty()
            },
            cc_cursor_position: if shown.to.len() > 0 {
                encode_utf8(shown.to).len() as usize
            } else {
                0
            },
            subject: shown.subject,
            subject_cursor_position: encode_utf8(shown.subject).len() as usize,
            body,
            focused_field: ComposeField::Body,
            ..ComposeStateView::empty()
        },
        None => ComposeStateView {
            body,
            focused_field: ComposeField::Body,
            ..ComposeStateView::empty()
        },
    };
    AppStateView {
        composing: true,
        compose_state: form,
        current_message_display_headers: None,
        ..state
    }
}

/// The body that the bodies cache holds for the selected message.
pub open spec fn known_body(state: AppStateView) -> Option<Seq<char>> {
    match selected_id(state.messages, state.selected_message) {
        Some(id) => if state.message_bodies.dom().contains(id) {
            Some(state.message_bodies[id])
        } else {
            None
        },
        None => None,
    }
}

/// What the reply key does: with header lines on display the reply opens at
/// once; without them the message is retrieved first, or, where it has no
/// id, the reply opens with a note in the status slot.
pub open spec fn after_reply_key(state: AppStateView) -> (AppStateView, KeyActionView) {
    if state.selected_message < state.messages.len() {
        let id = state.messages[state.selected_message as int].id;
        if state.current_message_display_headers is None {
            match id {
                Some(i) => (
                    state,
                    KeyActionView::FetchForReply { message_id: i, quoted_body: known_body(state) },
                ),
                None => (
                    reply_opened(
                        with_status(state, "Cannot reply: No message ID found."@),
                        known_body(state),
                    ),
                    KeyActionView::Idle,
                ),
            }
        } else {
            (reply_opened(state, known_body(state)), KeyActionView::Idle)
        }
    } else {
        (state, KeyActionView::Idle)
    }
}

/// What a key does while the compose form is open.
pub open spec fn after_compose_key(state: AppStateView, key: KeyEvent) -> (AppStateView, KeyActionView) {
    let form = state.compose_state;
    match key.code {
        KeyCode::Tab => (
            with_form(
                state,
                ComposeStateView {
                    focused_field: crate::state::spec_next_field(form.focused_field, form.show_bcc),
                    ..form
                },
            ),
            KeyActionView::Idle,
        ),
        KeyCode::BackTab => (
            with_form(
                state,
                ComposeStateView {
                    focused_field: crate::state::spec_prev_field(form.focused_field, form.show_bcc),
                    ..form
                },
            ),
            KeyActionView::Idle,
        ),
        KeyCode::Char(c) => if c == 'b' && key.control {
            (
                with_form(
                    state,
                    ComposeStateView {
                        show_bcc: !form.show_bcc,
                        focused_field: if form.show_bcc && form.focused_field == ComposeField::Bcc {
                            ComposeField::Subject
                        } else {
                            form.focused_field
                        },
                        ..form
                    },
                ),
                KeyActionView::Idle,
            )
        } else {
            (with_form(state, form_after(form, FieldEdit::Type(c))), KeyActionView::Idle)
        },
        KeyCode::Esc => (
            AppStateView { composing: false, compose_state: ComposeStateView::empty(), ..state },
            KeyActionView::Idle,
        ),
        KeyCode::Enter => if form.focused_field == ComposeField::Send {
            (with_form(state, ComposeStateView { sending: true, ..form }), KeyActionView::Send)
        } else {
            (state, KeyActionView::Idle)
        },
        KeyCode::Backspace => (with_form(state, form_after(form, FieldEdit::Erase)), KeyActionView::Idle),
        KeyCode::Left => (with_form(state, form_after(form, FieldEdit::Left)), KeyActionView::Idle),
        KeyCode::Right => (with_form(state, form_after(form, FieldEdit::Right)), KeyActionView::Idle),
        _ => (state, KeyActionView::Idle),
    }
}

/// Whether the focus is on the message list or on the message content.
pub open spec fn on_message(state: AppStateView) -> bool {
    state.focused_pane == FocusedPane::Messages || state.focused_pane == FocusedPane::Content
}

/// What the archive or delete key asks for: the message that is selected,
/// where the focus is on a message and the message has an id.
pub open spec fn selected_target(state: AppStateView) -> Option<(usize, Seq<char>)> {
    if on_message(state) {
        match selected_id(state.messages, state.selected_message) {
            Some(id) => Some((state.selected_message, id)),
            None => None,
        }
    } else {
        None
    }
}

/// What a key does while the compose form is closed.
pub open spec fn after_normal_key(state: AppStateView, key: KeyEvent) -> (AppStateView, KeyActionView) {
    match key.code {
        KeyCode::Char(c) => if c == 'q' {
            (state, KeyActionView::Quit)
        } else if c == 'c' {
            (
                AppStateView { composing: true, compose_state: ComposeStateView::empty(), ..state },
                KeyActionView::Idle,
            )
        } else if c == '?' {
            (AppStateView { show_help: !state.show_help, ..state }, KeyActionView::Idle)
        } else if c == 'f' {
            if state.loading_messages {
                (state, KeyActionView::Idle)
            } else {
                (
                    AppStateView {
                        loading_messages: true,
                        messages: Seq::empty(),
                        message_bodies: Map::empty(),
                        message_headers: Map::empty(),
                        current_message_display_headers: None,
                        ..state
                    },
                    KeyActionView::Refresh,
                )
            }
        } else if c == 'r' && key.control {
            (state, KeyActionView::Reauthenticate)
        } else if c == 'j' {
            after_down_key(state)
        } else if c == 'k' {
            (state.move_up(), KeyActionView::Idle)
        } else if c == 'r' && on_message(state) {
            after_reply_key(state)
        } else if c == 'a' {
            match selected_target(state) {
                Some((index, id)) => (state, KeyActionView::Archive { index, message_id: id }),
                None => (state, KeyActionView::Idle),
            }
        } else if c == 'd' {
            match selected_target(state) {
                Some((index, id)) => (state, KeyActionView::Delete { index, message_id: id }),
                None => (state, KeyActionView::Idle),
            }
        } else {
            (state, KeyActionView::Idle)
        },
        KeyCode::Down => after_down_key(state),
        KeyCode::Up => (state.move_up(), KeyActionView::Idle),
        KeyCode::Tab => (with_pane(state, next_pane(state.focused_pane)), KeyActionView::Idle),
        KeyCode::BackTab => (with_pane(state, prev_pane(state.focused_pane)), KeyActionView::Idle),
        KeyCode::Enter => after_enter_key(state),
        KeyCode::Esc => (with_pane(state, FocusedPane::Labels), KeyActionView::Idle),
        _ => (state, KeyActionView::Idle),
    }
}

/// What the down key does: the selection moves down, and the next page is
/// asked for where the selection in the message list has come within a
/// screen of its end and the selected label has an id.
pub open spec fn after_down_key(state: AppStateView) -> (AppStateView, KeyActionView) {
    let moved = state.move_down();
    if moved.focused_pane == FocusedPane::Messages && moved.selected_message
        + moved.messages_per_screen >= moved.messages.len() && moved.label_id_at(
        moved.selected_label,
    ) is Some {
        (moved, KeyActionView::LoadMore)
    } else {
        (moved, KeyActionView::Idle)
    }
}

/// What the enter key does: on a label it opens the label, on a message
/// with an id it asks for the message in full, else nothing.
pub open spec fn after_enter_key(state: AppStateView) -> (AppStateView, KeyActionView) {
    match state.focused_pane {
        FocusedPane::Labels => (
            AppStateView {
                current_page: 0,
                selected_message: 0,
                message_state: Some(0usize),
                content_scroll_offset: 0,
                loading_messages: true,
                messages: Seq::empty(),
                message_bodies: Map::empty(),
                message_headers: Map::empty(),
                current_message_display_headers: None,
                focused_pane: FocusedPane::Messages,
                ..state
            },
            KeyActionView::OpenLabel,
        ),
        FocusedPane::Messages => match selected_id(state.messages, state.selected_message) {
            Some(id) => (state, KeyActionView::OpenMessage { message_id: id }),
            None => (state, KeyActionView::Idle),
        },
        FocusedPane::Content => (state, KeyActionView::Idle),
    }
}

/// What a key press does. Any key empties the status slot first. The quit
/// key leaves the client, closes the compose form, or, in the body of the
/// form, is typed like any other character.
pub open spec fn after_key(state: AppStateView, key: KeyEvent) -> (AppStateView, KeyActionView) {
    let cleared = AppStateView { error_message: None, ..state };
    if cleared.composing {
        if key.code == KeyCode::Char('q') && cleared.compose_state.focused_field != ComposeField::Body {
            (
                AppStateView {
                    composing: false,
                    compose_state: ComposeStateView::empty(),
                    ..cleared
                },
                KeyActionView::Idle,
            )
        } else if key.code == KeyCode::Char('q') {
            (
                with_form(cleared, form_after(cleared.compose_state, FieldEdit::Type('q'))),
                KeyActionView::Idle,
            )
        } else {
            after_compose_key(cleared, key)
        }
    } else {
        after_normal_key(cleared, key)
    }
}

/// Whether the report of a failed request tells that the token is no longer
/// accepted.
pub open spec fn is_auth_failure(report: Seq<char>) -> bool {
    occurs_in("401"@, report) || occurs_in("invalid authentication"@, report)
}

/// The state after the remote service answered a request to archive or
/// trash the message at `index`. On success the message leaves the list,
/// and a selection that fell off the end moves to the last message, or to
/// the start where no message is left. On
/// failure the list stays, and the status slot tells what failed: that the
/// token expired, or the report under the given heading.
pub open spec fn after_removal(
    state: AppStateView,
    index: usize,
    outcome: Result<(), Seq<char>>,
    heading: Seq<char>,
) -> AppStateView {
    match outcome {
        Ok(_) => if index < state.messages.len() {
            let rest = state.messages.remove(index as int);
            let selected = if state.selected_message >= rest.len() && state.selected_message > 0 {
                if rest.len() > 0 {
                    (rest.len() - 1) as usize
                } else {
                    0
                }
            } else {
                state.selected_message
            };
            AppStateView {
                messages: rest,
                selected_message: selected,
                message_state: Some(selected),
                ..state
            }
        } else {
            state
        },
        Err(report) => if is_auth_failure(report) {
            with_status(state, "Authentication expired. Press Ctrl+R to re-authenticate."@)
        } else {
            with_status(state, heading + report)
        },
    }
}

/// Applies an edit to a field and its cursor.
fn edit_field(text: &mut String, cursor: &mut usize, edit: FieldEdit)
    ensures
        (final(text)@, *final(cursor)) == field_after(old(text)@, *old(cursor), edit),
{
    match edit {
        FieldEdit::Type(c) => {
            if *cursor < usize::MAX && text.as_str().is_char_boundary(*cursor) {
                insert_char(text, *cursor, c);
                *cursor = *cursor + 1;
            }
        },
        FieldEdit::Erase => {
            if *cursor > 0 && *cursor - 1 < text.as_str().len() && text.as_str().is_char_boundary(
                *cursor - 1,
            ) {
                remove_char(text, *cursor - 1);
                *cursor = *cursor - 1;
            }
        },
        FieldEdit::Left => {
            if *cursor > 0 {
                *cursor = *cursor - 1;
            }
        },
        FieldEdit::Right => {
            if *cursor < text.as_str().len() {
                *cursor = *cursor + 1;
            }
        },
    }
}

/// Applies an edit to the focused field of the compose form.
fn edit_form(form: &mut ComposeState, edit: FieldEdit)
    ensures
        final(form)@ == form_after(old(form)@, edit),
{
    match form.focused_field {
        ComposeField::To => edit_field(&mut form.to, &mut form.to_cursor_position, edit),
        ComposeField::Cc => edit_field(&mut form.cc, &mut form.cc_cursor_position, edit),
        ComposeField::Bcc => edit_field(&mut form.bcc, &mut form.bcc_cursor_position, edit),
        ComposeField::Subject => edit_field(
            &mut form.subject,
            &mut form.subject_cursor_position,
            edit,
        ),
        ComposeField::Body => edit_field(&mut form.body, &mut form.body_cursor_position, edit),
        ComposeField::Send => {},
    }
}

/// Quotes a text line by line.
fn quote(body: &str) -> (quoted: String)
    ensures
        quoted@ == quoted_lines(lines(body@)),
{
    let all = lines_of(body);
    let ghost rows = all.deep_view();
    let mut quoted = String::new();
    let mut i: usize = 0;
    assert(rows.take(0) =~= Seq::<Seq<char>>::empty());
    while i < all.len()
        invariant
            i <= all.len(),
            rows == all.deep_view(),
            quoted@ == quoted_lines(rows.take(i as int)),
        decreases all.len() - i,
    {
        assert(rows.take(i + 1).drop_last() =~= rows.take(i as int));
        assert(rows.take(i + 1).last() == all[i as int]@);
        let ghost before = quoted@;
        quoted.append("> ");
        quoted.append(all[i].as_str());
        quoted.append("\n");
        assert(quoted@ =~= before + quoted_line(all[i as int]@));
        i += 1;
    }
    assert(rows.take(all.len() as int) =~= rows);
    quoted
}

/// The body that the bodies cache holds for the selected message.
fn body_of_selected(state: &AppState) -> (body: Option<String>)
    ensures
        body.deep_view() == known_body(state@),
{
    if state.selected_message < state.messages.len() {
        match &state.messages[state.selected_message].id {
            Some(id) => match state.message_bodies.get(id.as_str()) {
                Some(b) => Some(b.clone()),
                None => None,
            },
            None => None,
        }
    } else {
        None
    }
}

/// The selected message, where the focus is on a message and the message
/// has an id.
fn target_of(state: &AppState) -> (target: Option<(usize, String)>)
    ensures
        target.deep_view() == selected_target(state@),
{
    let focused = match state.focused_pane {
        FocusedPane::Labels => false,
        _ => true,
    };
    if focused && state.selected_message < state.messages.len() {
        match &state.messages[state.selected_message].id {
            Some(id) => Some((state.selected_message, id.clone())),
            None => None,
        }
    } else {
        None
    }
}

/// Opens a reply to the message on display, quoting the given body.
pub fn complete_reply(state: &mut AppState, quoted_body: Option<String>)
    ensures
        final(state)@ == reply_opened(old(state)@, quoted_body.deep_view()),
{
    let body = match &quoted_body {
        Some(b) => {
            let mut text = "\n\n".to_string();
            let quoted = quote(b.as_str());
            text.append(quoted.as_str());
            text
        },
        None => String::new(),
    };
    let mut shown = None;
    core::mem::swap(&mut state.current_message_display_headers, &mut shown);
    match shown {
        Some(headers) => {
            let cc = if !headers.to.as_str().is_empty() {
                Some(headers.to)
            } else {
                None
            };
            state.start_composing(
                Some(headers.from),
                cc,
                Some(headers.subject),
                Some(body),
                Some(ComposeField::Body),
            );
            proof {
                reveal_with_fuel(vstd::utf8::encode_utf8, 1);
                assert(vstd::utf8::encode_utf8(Seq::<char>::empty()).len() == 0);
            }
        },
        None => {
            state.start_composing(None, None, None, Some(body), Some(ComposeField::Body));
            proof {
                reveal_with_fuel(vstd::utf8::encode_utf8, 1);
                assert(vstd::utf8::encode_utf8(Seq::<char>::empty()).len() == 0);
            }
        },
    }
}

/// Handles the reply key.
fn handle_reply(state: &mut AppState) -> (action: KeyAction)
    ensures
        (final(state)@, action.deep_view()) == after_reply_key(old(state)@),
{
    if state.selected_message < state.messages.len() {
        let id = state.messages[state.selected_message].id.clone();
        let body = body_of_selected(state);
        if state.current_message_display_headers.is_none() {
            match id {
                Some(i) => KeyAction::FetchForReply { message_id: i, quoted_body: body },
                None => {
                    state.set_error_message("Cannot reply: No message ID found.".to_string());
                    complete_reply(state, body);
                    KeyAction::Idle
                },
            }
        } else {
            complete_reply(state, body);
            KeyAction::Idle
        }
    } else {
        KeyAction::Idle
    }
}

/// Handles a key while the compose form is open.
fn handle_compose_mode_input(state: &mut AppState, key: KeyEvent) -> (action: KeyAction)
    ensures
        (final(state)@, action.deep_view()) == after_compose_key(old(state)@, key),
{
    match key.code {
        KeyCode::Tab => {
            state.compose_next_field();
            KeyAction::Idle
        },
        KeyCode::BackTab => {
            state.compose_prev_field();
            KeyAction::Idle
        },
        KeyCode::Char(c) => {
            if c == 'b' && key.control {
                state.toggle_bcc();
            } else {
                edit_form(&mut state.compose_state, FieldEdit::Type(c));
            }
            KeyAction::Idle
        },
        KeyCode::Esc => {
            state.stop_composing();
            KeyAction::Idle
        },
        KeyCode::Enter => {
            if state.compose_state.focused_field == ComposeField::Send {
                state.compose_state.sending = true;
                KeyAction::Send
            } else {
                KeyAction::Idle
            }
        },
        KeyCode::Backspace => {
            edit_form(&mut state.compose_state, FieldEdit::Erase);
            KeyAction::Idle
        },
        KeyCode::Left => {
            edit_form(&mut state.compose_state, FieldEdit::Left);
            KeyAction::Idle
        },
        KeyCode::Right => {
            edit_form(&mut state.compose_state, FieldEdit::Right);
            KeyAction::Idle
        },
        _ => KeyAction::Idle,
    }
}

/// Handles the down key.
fn handle_down(state: &mut AppState) -> (action: KeyAction)
    ensures
        (final(state)@, action.deep_view()) == after_down_key(old(state)@),
{
    state.move_down();
    let in_list = match state.focused_pane {
        FocusedPane::Messages => true,
        _ => false,
    };
    let has_label = if state.selected_label < state.labels.len() {
        state.labels[state.selected_label].id.is_some()
    } else {
        false
    };
    if in_list && wants_more_messages(state) && has_label {
        KeyAction::LoadMore
    } else {
        KeyAction::Idle
    }
}

/// Handles the enter key.
fn handle_enter_key(state: &mut AppState) -> (action: KeyAction)
    ensures
        (final(state)@, action.deep_view()) == after_enter_key(old(state)@),
{
    match state.focused_pane {
        FocusedPane::Labels => {
            state.reset_pagination();
            state.set_loading_messages(true);
            state.switch_to_messages_pane();
            KeyAction::OpenLabel
        },
        FocusedPane::Messages => {
            if state.selected_message < state.messages.len() {
                match &state.messages[state.selected_message].id {
                    Some(id) => KeyAction::OpenMessage { message_id: id.clone() },
                    None => KeyAction::Idle,
                }
            } else {
                KeyAction::Idle
            }
        },
        FocusedPane::Content => KeyAction::Idle,
    }
}

/// Handles a key while the compose form is closed.
fn handle_normal_key(state: &mut AppState, key: KeyEvent) -> (action: KeyAction)
    ensures
        (final(state)@, action.deep_view()) == after_normal_key(old(state)@, key),
{
    let focused = match state.focused_pane {
        FocusedPane::Labels => false,
        _ => true,
    };
    match key.code {
        KeyCode::Char(c) => {
            if c == 'q' {
                KeyAction::Quit
            } else if c == 'c' {
                state.start_composing(None, None, None, None, None);
                proof {
                    reveal_with_fuel(vstd::utf8::encode_utf8, 1);
                    assert(vstd::utf8::encode_utf8(Seq::<char>::empty()).len() == 0);
                }
                KeyAction::Idle
            } else if c == '?' {
                state.toggle_help();
                KeyAction::Idle
            } else if c == 'f' {
                if state.loading_messages {
                    KeyAction::Idle
                } else {
                    state.set_loading_messages(true);
                    KeyAction::Refresh
                }
            } else if c == 'r' && key.control {
                KeyAction::Reauthenticate
            } else if c == 'j' {
                handle_down(state)
            } else if c == 'k' {
                state.move_up();
                KeyAction::Idle
            } else if c == 'r' && focused {
                handle_reply(state)
            } else if c == 'a' {
                match target_of(state) {
                    Some((index, id)) => KeyAction::Archive { index, message_id: id },
                    None => KeyAction::Idle,
                }
            } else if c == 'd' {
                match target_of(state) {
                    Some((index, id)) => KeyAction::Delete { index, message_id: id },
                    None => KeyAction::Idle,
                }
            } else {
                KeyAction::Idle
            }
        },
        KeyCode::Down => handle_down(state),
        KeyCode::Up => {
            state.move_up();
            KeyAction::Idle
        },
        KeyCode::Tab => {
            match state.focused_pane {
                FocusedPane::Labels => state.switch_to_messages_pane(),
                FocusedPane::Messages => state.switch_to_content_pane(),
                FocusedPane::Content => state.switch_to_labels_pane(),
            }
            KeyAction::Idle
        },
        KeyCode::BackTab => {
            match state.focused_pane {
                FocusedPane::Labels => state.switch_to_content_pane(),
                FocusedPane::Messages => state.switch_to_labels_pane(),
                FocusedPane::Content => state.switch_to_messages_pane(),
            }
            KeyAction::Idle
        },
        KeyCode::Enter => handle_enter_key(state),
        KeyCode::Esc => {
            state.switch_to_labels_pane();
            KeyAction::Idle
        },
        _ => KeyAction::Idle,
    }
}

/// Handles a key press: changes the view state as the key asks, and returns
/// what is left for the caller to do.
pub fn handle_key_event(state: &mut AppState, key: KeyEvent) -> (action: KeyAction)
    ensures
        (final(state)@, action.deep_view()) == after_key(old(state)@, key),
{
    if state.error_message.is_some() {
        state.clear_error_message();
    }
    if state.composing {
        let is_quit = match key.code {
            KeyCode::Char(c) => c == 'q',
            _ => false,
        };
        if is_quit {
            let in_body = match state.compose_state.focused_field {
                ComposeField::Body => true,
                _ => false,
            };
            if in_body {
                edit_form(&mut state.compose_state, FieldEdit::Type('q'));
            } else {
                state.stop_composing();
            }
            KeyAction::Idle
        } else {
            handle_compose_mode_input(state, key)
        }
    } else {
        handle_normal_key(state, key)
    }
}

/// Takes the answer of the remote service to a request to archive the
/// message at `index`.
pub fn finish_archive(state: &mut AppState, index: usize, outcome: Result<(), String>)
    ensures
        final(state)@ == after_removal(
            old(state)@,
            index,
            match outcome {
                Ok(_) => Ok(()),
                Err(e) => Err(e@),
            },
            "Failed to archive message: "@,
        ),
{
    finish_removal(state, index, outcome, "Failed to archive message: ");
}

/// Takes the answer of the remote service to a request to trash the
/// message at `index`.
pub fn finish_delete(state: &mut AppState, index: usize, outcome: Result<(), String>)
    ensures
        final(state)@ == after_removal(
            old(state)@,
            index,
            match outcome {
                Ok(_) => Ok(()),
                Err(e) => Err(e@),
            },
            "Failed to delete message: "@,
        ),
{
    finish_removal(state, index, outcome, "Failed to delete message: ");
}

/// Takes the answer of the remote service to a request to take the message
/// at `index` out of the list.
fn finish_removal(state: &mut AppState, index: usize, outcome: Result<(), String>, heading: &str)
    ensures
        final(state)@ == after_removal(
            old(state)@,
            index,
            match outcome {
                Ok(_) => Ok(()),
                Err(e) => Err(e@),
            },
            heading@,
        ),
{
    match outcome {
        Ok(_) => {
            if index < state.messages.len() {
                let ghost before = state.messages.deep_view();
                state.messages.remove(index);
                assert(state.messages.deep_view() =~= before.remove(index as int));
                if state.selected_message >= state.messages.len() && state.selected_message > 0 {
                    state.selected_message = if state.messages.len() > 0 {
                        state.messages.len() - 1
                    } else {
                        0
                    };
                }
                state.update_message_state();
            }
        },
        Err(report) => {
            if contains(report.as_str(), "401") || contains(
                report.as_str(),
                "invalid authentication",
            ) {
                state.set_error_message(
                    "Authentication expired. Press Ctrl+R to re-authenticate.".to_string(),
                );
            } else {
                state.set_error_message(join2(heading, report.as_str()));
            }
        },
    }
}

/// Takes the outcome of retrieving a message that the enter key asked for:
/// a failure is put into the status slot, and the focus goes to the
/// content either way.
pub fn finish_open_message(state: &mut AppState, failure: Option<String>)
    ensures
        final(state)@ == with_pane(
            match failure {
                Some(e) => with_status(old(state)@, "Error fetching full message: "@ + e@),
                None => old(state)@,
            },
            FocusedPane::Content,
        ),
{
    match failure {
        Some(e) => {
            state.set_error_message(join2("Error fetching full message: ", e.as_str()));
        },
        None => {},
    }
    state.switch_to_content_pane();
}

/// Puts into the status slot that the message to reply to could not be
/// retrieved.
pub fn reply_fetch_failed(state: &mut AppState, failure: &str)
    ensures
        final(state)@ == with_status(
            old(state)@,
            "Error fetching full message for reply: "@ + failure@,
        ),
{
    state.set_error_message(join2("Error fetching full message for reply: ", failure));
}

/// Takes the outcome of sending the message of the compose form: the form
/// closes when the message was sent, and stays open else.
pub fn finish_send(state: &mut AppState, sent: bool)
    ensures
        final(state)@ == if sent {
            AppStateView {
                composing: false,
                compose_state: ComposeStateView::empty(),
                ..old(state)@
            }
        } else {
            with_form(
                old(state)@,
                ComposeStateView { sending: false, ..old(state)@.compose_state },
            )
        },
{
    state.compose_state.sending = false;
    if sent {
        state.stop_composing();
    }
}

/// Takes the outcome of acquiring a new token: the token is kept and the
/// status slot tells of the success, or the status slot tells what failed.
pub fn finish_reauthentication(state: &mut AppState, outcome: Result<String, String>)
    ensures
        final(state)@ == match outcome {
            Ok(token) => AppStateView {
                token: token@,
                error_message: Some("Re-authentication successful!"@),
                ..old(state)@
            },
            Err(e) => with_status(old(state)@, "Re-authentication failed: "@ + e@),
        },
{
    match outcome {
        Ok(token) => {
            state.token = token;
            state.set_error_message("Re-authentication successful!".to_string());
        },
        Err(e) => {
            state.set_error_message(join2("Re-authentication failed: ", e.as_str()));
        },
    }
}

} // verus!
