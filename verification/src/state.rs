//! The view state of the client: what the rendering layer shows, with the
//! operations that navigation, composing and the cache perform on it.
use vstd::prelude::*;
use crate::database::{CachedLabelView, CachedMessage, CachedMessageView, Database, DatabaseView};
use crate::database::{or_empty, Millis};
use crate::staleness::{last_synced, should_refresh, spec_should_refresh, DEFAULT_STALE_AFTER_MS};
use crate::string_map::StringMap;
use crate::table::{first_index, keep, lemma_first_index_is, lemma_keep_step};
use crate::text::{lowercase, uppercase};
use crate::text::{starts_with, str_eq, to_lowercase, to_uppercase};
use crate::types::{clone_messages, clone_strings};
use crate::types::{Label, LabelView, Message, MessageHeadersDisplay, MessageHeadersDisplayView};
use crate::types::MessageView;

verus! {

/// The pane that receives navigation keys.
#[derive(Debug, Clone, Copy, PartialEq, Eq, Structural)]
pub enum FocusedPane {
    Labels,
    Messages,
    Content,
}

/// The field of the compose form that receives input.
#[derive(Debug, Clone, Copy, PartialEq, Eq, Structural)]
pub enum ComposeField {
    To,
    Cc,
    Bcc,
    Subject,
    Body,
    Send,
}

/// The compose form. Cursor positions count bytes of the field's text.
pub struct ComposeState {
    pub to: String,
    pub to_cursor_position: usize,
    pub cc: String,
    pub cc_cursor_position: usize,
    pub bcc: String,
    pub bcc_cursor_position: usize,
    pub subject: String,
    pub subject_cursor_position: usize,
    pub body: String,
    pub body_cursor_position: usize,
    pub focused_field: ComposeField,
    pub show_bcc: bool,
    pub sending: bool,
}

pub struct ComposeStateView {
    pub to: Seq<char>,
    pub to_cursor_position: usize,
    pub cc: Seq<char>,
    pub cc_cursor_position: usize,
    pub bcc: Seq<char>,
    pub bcc_cursor_position: usize,
    pub subject: Seq<char>,
    pub subject_cursor_position: usize,
    pub body: Seq<char>,
    pub body_cursor_position: usize,
    pub focused_field: ComposeField,
    pub show_bcc: bool,
    pub sending: bool,
}

impl ComposeStateView {
    /// The empty form: no text, every cursor at the start, focus on the
    /// recipient, the blind-copy field hidden.
    pub open spec fn empty() -> ComposeStateView {
        ComposeStateView {
            to: Seq::empty(),
            to_cursor_position: 0,
            cc: Seq::empty(),
            cc_cursor_position: 0,
            bcc: Seq::empty(),
            bcc_cursor_position: 0,
            subject: Seq::empty(),
            subject_cursor_position: 0,
            body: Seq::empty(),
            body_cursor_position: 0,
            focused_field: ComposeField::To,
            show_bcc: false,
            sending: false,
        }
    }
}

impl DeepView for ComposeState {
    type V = ComposeStateView;

    open spec fn deep_view(&self) -> ComposeStateView {
        ComposeStateView {
            to: self.to@,
            to_cursor_position: self.to_cursor_position,
            cc: self.cc@,
            cc_cursor_position: self.cc_cursor_position,
            bcc: self.bcc@,
            bcc_cursor_position: self.bcc_cursor_position,
            subject: self.subject@,
            subject_cursor_position: self.subject_cursor_position,
            body: self.body@,
            body_cursor_position: self.body_cursor_position,
            focused_field: self.focused_field,
            show_bcc: self.show_bcc,
            sending: self.sending,
        }
    }
}

impl View for ComposeState {
    type V = ComposeStateView;

    open spec fn view(&self) -> ComposeStateView {
        self.deep_view()
    }
}

impl ComposeState {
    /// Creates the empty form.
    pub fn new() -> (form: ComposeState)
        ensures
            form@ == ComposeStateView::empty(),
    {
        ComposeState {
            to: String::new(),
            to_cursor_position: 0,
            cc: String::new(),
            cc_cursor_position: 0,
            bcc: String::new(),
            bcc_cursor_position: 0,
            subject: String::new(),
            subject_cursor_position: 0,
            body: String::new(),
            body_cursor_position: 0,
            focused_field: ComposeField::To,
            show_bcc: false,
            sending: false,
        }
    }

    /// Empties the form.
    pub fn clear(&mut self)
        ensures
            final(self)@ == ComposeStateView::empty(),
    {
        self.to = String::new();
        self.to_cursor_position = 0;
        self.cc = String::new();
        self.cc_cursor_position = 0;
        self.bcc = String::new();
        self.bcc_cursor_position = 0;
        self.subject = String::new();
        self.subject_cursor_position = 0;
        self.body = String::new();
        self.body_cursor_position = 0;
        self.focused_field = ComposeField::To;
        self.show_bcc = false;
        self.sending = false;
    }
}

/// The selection of a list on display.
#[derive(Debug, Clone, Copy, PartialEq, Eq, Structural)]
pub struct ListSelection {
    pub selected: Option<usize>,
}

impl ListSelection {
    /// Selects the item at the index, or none.
    pub fn select(&mut self, index: Option<usize>)
        ensures
            final(self).selected == index,
    {
        self.selected = index;
    }
}

/// The field that follows `field` in the compose form; the blind-copy field
/// is passed over while it is hidden.
pub open spec fn spec_next_field(field: ComposeField, show_bcc: bool) -> ComposeField {
    match field {
        ComposeField::To => ComposeField::Cc,
        ComposeField::Cc => if show_bcc {
            ComposeField::Bcc
        } else {
            ComposeField::Subject
        },
        ComposeField::Bcc => ComposeField::Subject,
        ComposeField::Subject => ComposeField::Body,
        ComposeField::Body => ComposeField::Send,
        ComposeField::Send => ComposeField::To,
    }
}

/// The field that precedes `field` in the compose form.
pub open spec fn spec_prev_field(field: ComposeField, show_bcc: bool) -> ComposeField {
    match field {
        ComposeField::To => ComposeField::Send,
        ComposeField::Cc => ComposeField::To,
        ComposeField::Bcc => ComposeField::Cc,
        ComposeField::Subject => if show_bcc {
            ComposeField::Bcc
        } else {
            ComposeField::Cc
        },
        ComposeField::Body => ComposeField::Subject,
        ComposeField::Send => ComposeField::Body,
    }
}

/// The number of message rows that fit a screen of the given height: the
/// height less four lines of frame, and five at least.
pub open spec fn spec_messages_per_screen(height: u16) -> usize {
    if height - 4 > 5 {
        (height - 4) as usize
    } else {
        5
    }
}

/// The view state of the client.
pub struct AppState {
    pub focused_pane: FocusedPane,
    pub show_help: bool,
    pub loading_messages: bool,
    pub composing: bool,
    pub compose_state: ComposeState,
    pub labels: Vec<Label>,
    pub selected_label: usize,
    pub label_state: ListSelection,
    pub messages: Vec<Message>,
    pub selected_message: usize,
    pub message_state: ListSelection,
    /// Message bodies by message id, and date lines as they arrived under the key
    /// made of the message id and `_date`.
    pub message_bodies: StringMap<String>,
    /// Subject and sender by message id.
    pub message_headers: StringMap<(String, String)>,
    pub current_message_display_headers: Option<MessageHeadersDisplay>,
    pub token: String,
    /// Messages that were loaded for a label, by label id.
    pub label_messages_cache: StringMap<Vec<Message>>,
    /// The ids of the labels whose messages were loaded.
    pub loaded_labels: StringMap<()>,
    pub messages_per_screen: usize,
    pub current_page: usize,
    pub screen_height: u16,
    pub content_scroll_offset: usize,
    pub database: Option<Database>,
    pub use_local_cache: bool,
    pub error_message: Option<String>,
}

pub struct AppStateView {
    pub focused_pane: FocusedPane,
    pub show_help: bool,
    pub loading_messages: bool,
    pub composing: bool,
    pub compose_state: ComposeStateView,
    pub labels: Seq<LabelView>,
    pub selected_label: usize,
    pub label_state: Option<usize>,
    pub messages: Seq<MessageView>,
    pub selected_message: usize,
    pub message_state: Option<usize>,
    pub message_bodies: Map<Seq<char>, Seq<char>>,
    pub message_headers: Map<Seq<char>, (Seq<char>, Seq<char>)>,
    pub current_message_display_headers: Option<MessageHeadersDisplayView>,
    pub token: Seq<char>,
    pub label_messages_cache: Map<Seq<char>, Seq<MessageView>>,
    pub loaded_labels: Set<Seq<char>>,
    pub messages_per_screen: usize,
    pub current_page: usize,
    pub screen_height: u16,
    pub content_scroll_offset: usize,
    pub database: Option<DatabaseView>,
    pub use_local_cache: bool,
    pub error_message: Option<Seq<char>>,
}

impl View for AppState {
    type V = AppStateView;

    open spec fn view(&self) -> AppStateView {
        AppStateView {
            focused_pane: self.focused_pane,
            show_help: self.show_help,
            loading_messages: self.loading_messages,
            composing: self.composing,
            compose_state: self.compose_state@,
            labels: self.labels.deep_view(),
            selected_label: self.selected_label,
            label_state: self.label_state.selected,
            messages: self.messages.deep_view(),
            selected_message: self.selected_message,
            message_state: self.message_state.selected,
            message_bodies: self.message_bodies.deep_view(),
            message_headers: self.message_headers.deep_view(),
            current_message_display_headers: self.current_message_display_headers.deep_view(),
            token: self.token@,
            label_messages_cache: self.label_messages_cache.deep_view(),
            loaded_labels: self.loaded_labels.deep_view().dom(),
            messages_per_screen: self.messages_per_screen,
            current_page: self.current_page,
            screen_height: self.screen_height,
            content_scroll_offset: self.content_scroll_offset,
            database: match self.database {
                Some(db) => Some(db@),
                None => None,
            },
            use_local_cache: self.use_local_cache,
            error_message: self.error_message.deep_view(),
        }
    }
}

impl AppStateView {
    /// The state of a client that has just started with the given token.
    pub open spec fn initial(token: Seq<char>) -> AppStateView {
        AppStateView {
            focused_pane: FocusedPane::Labels,
            show_help: false,
            loading_messages: false,
            composing: false,
            compose_state: ComposeStateView::empty(),
            labels: Seq::empty(),
            selected_label: 0,
            label_state: Some(0usize),
            messages: Seq::empty(),
            selected_message: 0,
            message_state: Some(0usize),
            message_bodies: Map::empty(),
            message_headers: Map::empty(),
            current_message_display_headers: None,
            token,
            label_messages_cache: Map::empty(),
            loaded_labels: Set::empty(),
            messages_per_screen: 10,
            current_page: 0,
            screen_height: 24,
            content_scroll_offset: 0,
            database: None,
            use_local_cache: false,
            error_message: None,
        }
    }

    /// The state after the selection moved up by one in the focused pane:
    /// the label or message above, or the content scrolled back by one line.
    pub open spec fn move_up(self) -> AppStateView {
        match self.focused_pane {
            FocusedPane::Labels => if self.selected_label > 0 {
                AppStateView {
                    selected_label: (self.selected_label - 1) as usize,
                    label_state: Some((self.selected_label - 1) as usize),
                    ..self
                }
            } else {
                self
            },
            FocusedPane::Messages => if self.selected_message > 0 {
                AppStateView {
                    selected_message: (self.selected_message - 1) as usize,
                    message_state: Some((self.selected_message - 1) as usize),
                    ..self
                }.with_display_headers()
            } else {
                self
            },
            FocusedPane::Content => if self.content_scroll_offset > 0 {
                AppStateView {
                    content_scroll_offset: (self.content_scroll_offset - 1) as usize,
                    ..self
                }
            } else {
                self
            },
        }
    }

    /// The state after the selection moved down by one in the focused pane:
    /// the label or message below, if there is one, or the content scrolled
    /// on by one line.
    pub open spec fn move_down(self) -> AppStateView {
        match self.focused_pane {
            FocusedPane::Labels => if self.selected_label + 1 < self.labels.len() {
                AppStateView {
                    selected_label: (self.selected_label + 1) as usize,
                    label_state: Some((self.selected_label + 1) as usize),
                    ..self
                }
            } else {
                self
            },
            FocusedPane::Messages => if self.selected_message + 1 < self.messages.len() {
                AppStateView {
                    selected_message: (self.selected_message + 1) as usize,
                    message_state: Some((self.selected_message + 1) as usize),
                    ..self
                }.with_display_headers()
            } else {
                self
            },
            FocusedPane::Content => if self.content_scroll_offset < usize::MAX {
                AppStateView {
                    content_scroll_offset: (self.content_scroll_offset + 1) as usize,
                    ..self
                }
            } else {
                self
            },
        }
    }

    /// The header lines to display for the selected message: those of the
    /// headers cache, with the date line of the bodies cache, where the
    /// selected message has an id that the headers cache knows; none else.
    pub open spec fn display_headers(self) -> Option<MessageHeadersDisplayView> {
        if self.selected_message < self.messages.len() {
            match self.messages[self.selected_message as int].id {
                Some(id) => if self.message_headers.dom().contains(id) {
                    Some(
                        MessageHeadersDisplayView {
                            subject: self.message_headers[id].0,
                            from: self.message_headers[id].1,
                            to: "(unknown recipient)"@,
                            date: if self.message_bodies.dom().contains(id + "_date"@) {
                                self.message_bodies[id + "_date"@]
                            } else {
                                "(unknown date)"@
                            },
                        },
                    )
                } else {
                    None
                },
                None => None,
            }
        } else {
            None
        }
    }

    /// The state with the header lines of the selected message on display.
    pub open spec fn with_display_headers(self) -> AppStateView {
        AppStateView { current_message_display_headers: self.display_headers(), ..self }
    }
}

impl AppState {
    /// Creates the state of a client that has just started.
    pub fn new(token: String) -> (state: AppState)
        ensures
            state@ == AppStateView::initial(token@),
    {
        let state = AppState {
            focused_pane: FocusedPane::Labels,
            show_help: false,
            loading_messages: false,
            composing: false,
            compose_state: ComposeState::new(),
            labels: Vec::new(),
            selected_label: 0,
            label_state: ListSelection { selected: Some(0) },
            messages: Vec::new(),
            selected_message: 0,
            message_state: ListSelection { selected: Some(0) },
            message_bodies: StringMap::new(),
            message_headers: StringMap::new(),
            current_message_display_headers: None,
            token,
            label_messages_cache: StringMap::new(),
            loaded_labels: StringMap::new(),
            messages_per_screen: 10,
            current_page: 0,
            screen_height: 24,
            content_scroll_offset: 0,
            database: None,
            use_local_cache: false,
            error_message: None,
        };
        assert(state@.labels =~= Seq::empty());
        assert(state@.messages =~= Seq::empty());
        assert(state@.loaded_labels =~= Set::empty());
        state
    }

    /// Puts a message into the status slot, in place of any other.
    pub fn set_error_message(&mut self, message: String)
        ensures
            final(self)@ == (AppStateView { error_message: Some(message@), ..old(self)@ }),
    {
        self.error_message = Some(message);
    }

    /// Empties the status slot.
    pub fn clear_error_message(&mut self)
        ensures
            final(self)@ == (AppStateView { error_message: None, ..old(self)@ }),
    {
        self.error_message = None;
    }

    /// Makes the label list show the selected label.
    pub fn update_label_state(&mut self)
        ensures
            final(self)@ == (AppStateView {
                label_state: Some(old(self).selected_label),
                ..old(self)@
            }),
    {
        self.label_state.select(Some(self.selected_label));
    }

    /// Makes the message list show the selected message.
    pub fn update_message_state(&mut self)
        ensures
            final(self)@ == (AppStateView {
                message_state: Some(old(self).selected_message),
                ..old(self)@
            }),
    {
        self.message_state.select(Some(self.selected_message));
    }

    /// Records the height of the screen and derives from it the number of
    /// message rows per screen.
    pub fn update_screen_size(&mut self, height: u16)
        ensures
            final(self)@ == (AppStateView {
                screen_height: height,
                messages_per_screen: spec_messages_per_screen(height),
                ..old(self)@
            }),
    {
        self.screen_height = height;
        let available: u16 = if height >= 4 {
            height - 4
        } else {
            0
        };
        self.messages_per_screen = if available > 5 {
            available as usize
        } else {
            5
        };
    }

    /// Goes back to the first page and the first message.
    pub fn reset_pagination(&mut self)
        ensures
            final(self)@ == (AppStateView {
                current_page: 0,
                selected_message: 0,
                message_state: Some(0usize),
                content_scroll_offset: 0,
                ..old(self)@
            }),
    {
        self.current_page = 0;
        self.selected_message = 0;
        self.update_message_state();
        self.content_scroll_offset = 0;
    }

    /// Moves the selection up by one in the focused pane.
    pub fn move_up(&mut self)
        ensures
            final(self)@ == old(self)@.move_up(),
    {
        match self.focused_pane {
            FocusedPane::Labels => {
                if self.selected_label > 0 {
                    self.selected_label -= 1;
                    self.update_label_state();
                }
            },
            FocusedPane::Messages => {
                if self.selected_message > 0 {
                    self.selected_message -= 1;
                    self.update_message_state();
                    self.update_current_message_display_headers();
                }
            },
            FocusedPane::Content => {
                if self.content_scroll_offset > 0 {
                    self.content_scroll_offset -= 1;
                }
            },
        }
    }

    /// Moves the selection down by one in the focused pane.
    pub fn move_down(&mut self)
        ensures
            final(self)@ == old(self)@.move_down(),
    {
        match self.focused_pane {
            FocusedPane::Labels => {
                if self.selected_label < self.labels.len() && self.selected_label + 1
                    < self.labels.len() {
                    self.selected_label += 1;
                    self.update_label_state();
                }
            },
            FocusedPane::Messages => {
                if self.selected_message < self.messages.len() && self.selected_message + 1
                    < self.messages.len() {
                    self.selected_message += 1;
                    self.update_message_state();
                    self.update_current_message_display_headers();
                }
            },
            FocusedPane::Content => {
                if self.content_scroll_offset < usize::MAX {
                    self.content_scroll_offset += 1;
                }
            },
        }
    }

    /// Puts on display the header lines of the selected message, as far as
    /// the caches know them.
    pub fn update_current_message_display_headers(&mut self)
        ensures
            final(self)@ == old(self)@.with_display_headers(),
    {
        self.current_message_display_headers = None;
        if self.selected_message < self.messages.len() {
            match &self.messages[self.selected_message].id {
                Some(msg_id) => {
                    match self.message_headers.get(msg_id.as_str()) {
                        Some(pair) => {
                            let mut date_key = msg_id.clone();
                            date_key.append("_date");
                            let date = match self.message_bodies.get(date_key.as_str()) {
                                Some(d) => d.clone(),
                                None => "(unknown date)".to_string(),
                            };
                            let shown = MessageHeadersDisplay {
                                subject: pair.0.clone(),
                                from: pair.1.clone(),
                                to: "(unknown recipient)".to_string(),
                                date,
                            };
                            self.current_message_display_headers = Some(shown);
                        },
                        None => {},
                    }
                },
                None => {},
            }
        }
    }

    /// Gives the focus to the message list.
    pub fn switch_to_messages_pane(&mut self)
        ensures
            final(self)@ == (AppStateView { focused_pane: FocusedPane::Messages, ..old(self)@ }),
    {
        self.focused_pane = FocusedPane::Messages;
    }

    /// Gives the focus to the label list.
    pub fn switch_to_labels_pane(&mut self)
        ensures
            final(self)@ == (AppStateView { focused_pane: FocusedPane::Labels, ..old(self)@ }),
    {
        self.focused_pane = FocusedPane::Labels;
    }

    /// Gives the focus to the message content.
    pub fn switch_to_content_pane(&mut self)
        ensures
            final(self)@ == (AppStateView { focused_pane: FocusedPane::Content, ..old(self)@ }),
    {
        self.focused_pane = FocusedPane::Content;
    }

    /// Shows the help bar, or hides it.
    pub fn toggle_help(&mut self)
        ensures
            final(self)@ == (AppStateView { show_help: !old(self).show_help, ..old(self)@ }),
    {
        self.show_help = !self.show_help;
    }

    /// Sets the loading flag. Setting it empties the message list and the
    /// caches of bodies and headers; clearing it changes nothing else.
    pub fn set_loading_messages(&mut self, loading: bool)
        ensures
            final(self)@ == if loading {
                AppStateView {
                    loading_messages: true,
                    messages: Seq::empty(),
                    message_bodies: Map::empty(),
                    message_headers: Map::empty(),
                    current_message_display_headers: None,
                    ..old(self)@
                }
            } else {
                AppStateView { loading_messages: false, ..old(self)@ }
            },
    {
        self.loading_messages = loading;
        if loading {
            self.messages = Vec::new();
            self.message_bodies.clear();
            self.message_headers.clear();
            self.current_message_display_headers = None;
            assert(self.messages.deep_view() =~= Seq::empty());
        }
    }

    /// Opens the compose form with the given texts. The cursor of the
    /// recipient, copy and subject fields stands at the end of the text, the
    /// cursor of the body at its start. The focus goes to `initial_focus`,
    /// or to the recipient.
    pub fn start_composing(
        &mut self,
        to: Option<String>,
        cc: Option<String>,
        subject: Option<String>,
        body: Option<String>,
        initial_focus: Option<ComposeField>,
    )
        ensures
            final(self)@ == (AppStateView {
                composing: true,
                compose_state: ComposeStateView {
                    to: or_empty(to.deep_view()),
                    to_cursor_position: vstd::utf8::encode_utf8(or_empty(to.deep_view())).len() as usize,
                    cc: or_empty(cc.deep_view()),
                    cc_cursor_position: vstd::utf8::encode_utf8(or_empty(cc.deep_view())).len() as usize,
                    subject: or_empty(subject.deep_view()),
                    subject_cursor_position: vstd::utf8::encode_utf8(
                        or_empty(subject.deep_view()),
                    ).len() as usize,
                    body: or_empty(body.deep_view()),
                    focused_field: match initial_focus {
                        Some(f) => f,
                        None => ComposeField::To,
                    },
                    ..ComposeStateView::empty()
                },
                ..old(self)@
            }),
    {
        self.composing = true;
        self.compose_state.clear();
        proof {
            reveal_with_fuel(vstd::utf8::encode_utf8, 1);
            assert(vstd::utf8::encode_utf8(Seq::<char>::empty()).len() == 0);
        }
        match to {
            Some(t) => {
                self.compose_state.to_cursor_position = t.as_str().len();
                self.compose_state.to = t;
            },
            None => {},
        }
        match cc {
            Some(c) => {
                self.compose_state.cc_cursor_position = c.as_str().len();
                self.compose_state.cc = c;
            },
            None => {},
        }
        match subject {
            Some(s) => {
                self.compose_state.subject_cursor_position = s.as_str().len();
                self.compose_state.subject = s;
            },
            None => {},
        }
        match body {
            Some(b) => {
                self.compose_state.body = b;
                self.compose_state.body_cursor_position = 0;
            },
            None => {},
        }
        self.compose_state.focused_field = match initial_focus {
            Some(f) => f,
            None => ComposeField::To,
        };
    }

    /// Closes the compose form and empties it.
    pub fn stop_composing(&mut self)
        ensures
            final(self)@ == (AppStateView {
                composing: false,
                compose_state: ComposeStateView::empty(),
                ..old(self)@
            }),
    {
        self.composing = false;
        self.compose_state.clear();
    }

    /// Moves the focus to the next field of the compose form.
    pub fn compose_next_field(&mut self)
        ensures
            final(self)@ == (AppStateView {
                compose_state: ComposeStateView {
                    focused_field: spec_next_field(
                        old(self).compose_state.focused_field,
                        old(self).compose_state.show_bcc,
                    ),
                    ..old(self)@.compose_state
                },
                ..old(self)@
            }),
    {
        self.compose_state.focused_field = match self.compose_state.focused_field {
            ComposeField::To => ComposeField::Cc,
            ComposeField::Cc => {
                if self.compose_state.show_bcc {
                    ComposeField::Bcc
                } else {
                    ComposeField::Subject
                }
            },
            ComposeField::Bcc => ComposeField::Subject,
            ComposeField::Subject => ComposeField::Body,
            ComposeField::Body => ComposeField::Send,
            ComposeField::Send => ComposeField::To,
        };
    }

    /// Moves the focus to the previous field of the compose form.
    pub fn compose_prev_field(&mut self)
        ensures
            final(self)@ == (AppStateView {
                compose_state: ComposeStateView {
                    focused_field: spec_prev_field(
                        old(self).compose_state.focused_field,
                        old(self).compose_state.show_bcc,
                    ),
                    ..old(self)@.compose_state
                },
                ..old(self)@
            }),
    {
        self.compose_state.focused_field = match self.compose_state.focused_field {
            ComposeField::To => ComposeField::Send,
            ComposeField::Cc => ComposeField::To,
            ComposeField::Bcc => ComposeField::Cc,
            ComposeField::Subject => {
                if self.compose_state.show_bcc {
                    ComposeField::Bcc
                } else {
                    ComposeField::Cc
                }
            },
            ComposeField::Body => ComposeField::Subject,
            ComposeField::Send => ComposeField::Body,
        };
    }

    /// Shows the blind-copy field, or hides it; hiding it while it has the
    /// focus moves the focus to the subject.
    pub fn toggle_bcc(&mut self)
        ensures
            final(self)@ == (AppStateView {
                compose_state: ComposeStateView {
                    show_bcc: !old(self).compose_state.show_bcc,
                    focused_field: if old(self).compose_state.show_bcc
                        && old(self).compose_state.focused_field == ComposeField::Bcc {
                        ComposeField::Subject
                    } else {
                        old(self).compose_state.focused_field
                    },
                    ..old(self)@.compose_state
                },
                ..old(self)@
            }),
    {
        self.compose_state.show_bcc = !self.compose_state.show_bcc;
        if !self.compose_state.show_bcc && self.compose_state.focused_field == ComposeField::Bcc {
            self.compose_state.focused_field = ComposeField::Subject;
        }
    }

    /// Attaches the local store and turns the cache on.
    pub fn set_database(&mut self, database: Database)
        ensures
            final(self)@ == (AppStateView {
                database: Some(database@),
                use_local_cache: true,
                ..old(self)@
            }),
    {
        self.database = Some(database);
        self.use_local_cache = true;
    }

    /// The selected label, if the selection points at one.
    pub fn get_current_label(&self) -> (label: Option<&Label>)
        ensures
            label == if self.selected_label < self.labels.len() {
                Some(&self.labels[self.selected_label as int])
            } else {
                None
            },
    {
        if self.selected_label < self.labels.len() {
            Some(&self.labels[self.selected_label])
        } else {
            None
        }
    }
}

/// Whether a name in lower case is that of a chat label: `chat` itself or a
/// name below `chat/`.
pub open spec fn is_chat_lower(lower: Seq<char>) -> bool {
    "chat/"@.is_prefix_of(lower) || lower == "chat"@
}

/// Whether a label name names a chat label, whatever its letter case.
pub open spec fn is_chat_name(name: Seq<char>) -> bool {
    is_chat_lower(lowercase(name))
}

/// Tests a name in lower case for the name of a chat label.
pub fn is_chat_label_name(lower: &str) -> (r: bool)
    ensures
        r == is_chat_lower(lower@),
{
    starts_with(lower, "chat/") || str_eq(lower, "chat")
}

/// Labels that are shown: those without a name and those whose name is no
/// chat name.
pub open spec fn is_mail_label() -> spec_fn(LabelView) -> bool {
    |l: LabelView|
        match l.name {
            Some(n) => !is_chat_name(n),
            None => true,
        }
}

/// Tagged labels whose tag is the given one.
pub open spec fn tagged(id: Seq<char>) -> spec_fn((LabelView, Seq<char>)) -> bool {
    |t: (LabelView, Seq<char>)| t.1 == id
}

/// Moves the first label with the given tag, if there is one, from the
/// second list to the end of the first.
pub open spec fn take_priority(
    split: (Seq<(LabelView, Seq<char>)>, Seq<(LabelView, Seq<char>)>),
    id: Seq<char>,
) -> (Seq<(LabelView, Seq<char>)>, Seq<(LabelView, Seq<char>)>) {
    let i = first_index(split.1, tagged(id));
    if i < split.1.len() {
        (split.0.push(split.1[i]), split.1.remove(i))
    } else {
        split
    }
}

/// The virtual label that stands for all mail.
pub open spec fn all_mail_label() -> LabelView {
    LabelView { id: Some("ALLMAIL"@), name: Some("ALL MAIL"@) }
}

/// The labels of a tagged list, without their tags.
pub open spec fn untagged(labels: Seq<(LabelView, Seq<char>)>) -> Seq<LabelView> {
    Seq::new(labels.len(), |i: int| labels[i].0)
}

/// Labels, each tagged with its id in upper case, in display order: first
/// those tagged as system labels, in a fixed order of the tags and one for
/// each tag at most; after them the virtual all-mail label, unless one of
/// them is tagged so or there is no label at all; then the remaining labels
/// in their order.
pub open spec fn order_tagged(labels: Seq<(LabelView, Seq<char>)>) -> Seq<LabelView> {
    let s0 = (Seq::<(LabelView, Seq<char>)>::empty(), labels);
    let s1 = take_priority(s0, "INBOX"@);
    let s2 = take_priority(s1, "IMPORTANT"@);
    let s3 = take_priority(s2, "STARRED"@);
    let s4 = take_priority(s3, "SENT"@);
    let s5 = take_priority(s4, "DRAFT"@);
    let s6 = take_priority(s5, "ALLMAIL"@);
    let s7 = take_priority(s6, "SPAM"@);
    let s8 = take_priority(s7, "TRASH"@);
    let has_all_mail = first_index(s8.0, tagged("ALLMAIL"@)) < s8.0.len();
    let priority = if !has_all_mail && (s8.0.len() > 0 || s8.1.len() > 0) {
        s8.0.push((all_mail_label(), "ALLMAIL"@))
    } else {
        s8.0
    };
    untagged(priority + s8.1)
}

/// Labels with their ids in upper case as tags. A label without an id
/// counts as having the empty id.
pub open spec fn tag_labels(labels: Seq<LabelView>) -> Seq<(LabelView, Seq<char>)> {
    Seq::new(labels.len(), |i: int| (labels[i], uppercase(or_empty(labels[i].id))))
}

/// The labels in display order: the system labels first, in a fixed order,
/// the virtual all-mail label after them unless the list holds one or is
/// empty, and the remaining labels in their order after that.
pub open spec fn spec_order_labels(labels: Seq<LabelView>) -> Seq<LabelView> {
    order_tagged(tag_labels(labels))
}

/// The labels of the remote service that the stored labels stand for.
pub open spec fn labels_of_cached(rows: Seq<CachedLabelView>) -> Seq<LabelView> {
    Seq::new(rows.len(), |i: int| LabelView { id: Some(rows[i].id), name: Some(rows[i].name) })
}

/// Messages with the given id.
pub open spec fn has_id(id: Seq<char>) -> spec_fn(MessageView) -> bool {
    |m: MessageView| m.id == Some(id)
}

/// The id of the selected message, if the selection points at a message
/// that has one.
pub open spec fn selected_id(messages: Seq<MessageView>, selected: usize) -> Option<Seq<char>> {
    if selected < messages.len() {
        messages[selected as int].id
    } else {
        None
    }
}

/// The selection after a list was replaced: the first index at which the new
/// list holds the message that was selected, or the first item where that
/// message is gone or none was selected.
pub open spec fn spec_reselect(previous: Option<Seq<char>>, fresh: Seq<MessageView>) -> usize {
    match previous {
        Some(id) => {
            let i = first_index(fresh, has_id(id));
            if i < fresh.len() {
                i as usize
            } else {
                0
            }
        },
        None => 0,
    }
}

/// The message that the view shows for a stored message.
pub open spec fn message_of_cached(row: CachedMessageView) -> MessageView {
    MessageView {
        id: Some(row.id),
        snippet: row.snippet,
        payload: None,
        thread_id: row.thread_id,
        label_ids: Some(row.label_ids),
    }
}

/// The messages that the view shows for a list of stored messages.
pub open spec fn messages_of_cached(rows: Seq<CachedMessageView>) -> Seq<MessageView> {
    Seq::new(rows.len(), |i: int| message_of_cached(rows[i]))
}

/// The text of an optional string, or the fallback where there is none.
pub open spec fn or_text(s: Option<Seq<char>>, fallback: Seq<char>) -> Seq<char> {
    match s {
        Some(t) => t,
        None => fallback,
    }
}

/// The headers cache after the subject and sender of each stored message
/// were entered, in order.
pub open spec fn headers_with(
    headers: Map<Seq<char>, (Seq<char>, Seq<char>)>,
    rows: Seq<CachedMessageView>,
) -> Map<Seq<char>, (Seq<char>, Seq<char>)>
    decreases rows.len(),
{
    if rows.len() == 0 {
        headers
    } else {
        headers_with(headers, rows.drop_last()).insert(
            rows.last().id,
            (
                or_text(rows.last().subject, "(no subject)"@),
                or_text(rows.last().from_addr, "(unknown sender)"@),
            ),
        )
    }
}

/// The bodies cache after one stored message was entered: its date line
/// under the key made of its id and `_date`, its body under its id.
pub open spec fn bodies_with_one(bodies: Map<Seq<char>, Seq<char>>, row: CachedMessageView) -> Map<
    Seq<char>,
    Seq<char>,
> {
    let dated = match row.date_str {
        Some(d) => bodies.insert(row.id + "_date"@, d),
        None => bodies,
    };
    match row.body_text {
        Some(b) => dated.insert(row.id, b),
        None => dated,
    }
}

/// The bodies cache after each stored message was entered, in order.
pub open spec fn bodies_with(bodies: Map<Seq<char>, Seq<char>>, rows: Seq<CachedMessageView>) -> Map<
    Seq<char>,
    Seq<char>,
>
    decreases rows.len(),
{
    if rows.len() == 0 {
        bodies
    } else {
        bodies_with_one(bodies_with(bodies, rows.drop_last()), rows.last())
    }
}

/// The header lines that a stored message puts on display.
pub open spec fn display_of(row: CachedMessageView) -> MessageHeadersDisplayView {
    MessageHeadersDisplayView {
        subject: or_text(row.subject, "(no subject)"@),
        from: or_text(row.from_addr, "(unknown sender)"@),
        to: or_text(row.to_addr, "(unknown recipient)"@),
        date: or_text(row.date_str, "(unknown date)"@),
    }
}

/// The header lines on display after a list of stored messages was loaded:
/// those of the last stored message that has the id of the selected one, or
/// the lines shown before where there is none.
pub open spec fn display_with(
    shown: Option<MessageHeadersDisplayView>,
    rows: Seq<CachedMessageView>,
    selected: Option<Seq<char>>,
) -> Option<MessageHeadersDisplayView>
    decreases rows.len(),
{
    if rows.len() == 0 {
        shown
    } else if selected == Some(rows.last().id) {
        Some(display_of(rows.last()))
    } else {
        display_with(shown, rows.drop_last(), selected)
    }
}

/// The page size as a limit of a store query.
pub open spec fn page_limit(messages_per_screen: usize) -> int {
    if messages_per_screen > i64::MAX {
        i64::MAX as int
    } else {
        messages_per_screen as int
    }
}

impl AppStateView {
    /// The state after chat labels were taken from the list.
    pub open spec fn filter_labels(self) -> AppStateView {
        AppStateView { labels: keep(self.labels, is_mail_label()), ..self }
    }

    /// The state after the labels were put in display order.
    pub open spec fn order_labels(self) -> AppStateView {
        AppStateView { labels: spec_order_labels(self.labels), ..self }
    }

    /// Reconciliation: the list is replaced by the new one as it stands, and
    /// the selection follows the selected message by its id.
    pub open spec fn reconcile(self, fresh: Seq<MessageView>) -> AppStateView {
        let at = spec_reselect(selected_id(self.messages, self.selected_message), fresh);
        AppStateView { messages: fresh, selected_message: at, message_state: Some(at), ..self }
    }

    /// The state after the labels were loaded from the store: the stored
    /// labels, without chat labels, in display order, with the first one
    /// selected if there is any. Without a store nothing changes.
    pub open spec fn load_labels_from_cache(self) -> AppStateView {
        match self.database {
            None => self,
            Some(db) => {
                let loaded = AppStateView {
                    labels: labels_of_cached(db.labels),
                    ..self
                }.filter_labels().order_labels();
                if loaded.labels.len() > 0 {
                    AppStateView { selected_label: 0, label_state: Some(0usize), ..loaded }
                } else {
                    loaded
                }
            },
        }
    }

    /// The state after the first page of a label's stored messages was
    /// loaded: the list is reconciled with the stored messages, and their
    /// headers, dates and bodies are entered into the caches. Without a
    /// store nothing changes.
    pub open spec fn load_messages_from_cache(self, label: Seq<char>) -> AppStateView {
        match self.database {
            None => self,
            Some(db) => {
                let rows = db.messages_for_label(label, page_limit(self.messages_per_screen), 0);
                let shown = self.reconcile(messages_of_cached(rows));
                AppStateView {
                    message_headers: headers_with(self.message_headers, rows),
                    message_bodies: bodies_with(self.message_bodies, rows),
                    current_message_display_headers: display_with(
                        self.current_message_display_headers,
                        rows,
                        selected_id(shown.messages, shown.selected_message),
                    ),
                    ..shown
                }
            },
        }
    }

    /// The id of the label at an index, if there is a label and it has one.
    pub open spec fn label_id_at(self, index: usize) -> Option<Seq<char>> {
        if index < self.labels.len() {
            self.labels[index as int].id
        } else {
            None
        }
    }

    /// The messages known for the label at an index: those loaded for its
    /// id, else the list on display if the label is the selected one, else
    /// none.
    pub open spec fn messages_for_label(self, index: usize) -> Seq<MessageView> {
        match self.label_id_at(index) {
            Some(id) if self.label_messages_cache.dom().contains(id) => self.label_messages_cache[id],
            _ => if index == self.selected_label {
                self.messages
            } else {
                Seq::empty()
            },
        }
    }

    /// Whether the cache of a label warrants a refresh at `now`: always
    /// without a store or while the store holds no message of the label,
    /// else when the label's sync record has reached the default threshold.
    pub open spec fn is_cache_stale(self, label: Seq<char>, now: Millis) -> bool {
        match self.database {
            None => true,
            Some(db) => spec_should_refresh(
                db.messages_for_label(label, 1, 0).len(),
                last_synced(db.sync_state_of(label)),
                now as int,
                DEFAULT_STALE_AFTER_MS as int,
            ),
        }
    }
}

/// Selection stability: where the new list holds the selected message, the
/// selection moves to the first index at which it stands; where the new
/// list does not hold it, or nothing was selected, the selection is the
/// first item.
pub proof fn lemma_selection_stability(
    state: AppStateView,
    fresh: Seq<MessageView>,
    id: Seq<char>,
    j: int,
)
    requires
        selected_id(state.messages, state.selected_message) == Some(id),
        0 <= j <= fresh.len(),
        fresh.len() <= usize::MAX,
        forall|k: int| 0 <= k < j ==> (#[trigger] fresh[k]).id != Some(id),
        j < fresh.len() ==> fresh[j].id == Some(id),
    ensures
        state.reconcile(fresh).messages == fresh,
        j < fresh.len() ==> state.reconcile(fresh).selected_message == j,
        j == fresh.len() ==> state.reconcile(fresh).selected_message == 0,
        state.reconcile(fresh).message_state == Some(state.reconcile(fresh).selected_message),
{
    lemma_first_index_is(fresh, has_id(id), j);
}

/// Where nothing is selected, reconciliation selects the first item.
pub proof fn lemma_selection_default(state: AppStateView, fresh: Seq<MessageView>)
    requires
        selected_id(state.messages, state.selected_message) is None,
    ensures
        state.reconcile(fresh).selected_message == 0,
{
}

/// The first tagged label with the given tag.
fn position_of_tag(labels: &Vec<(Label, String)>, id: &str) -> (i: usize)
    ensures
        i == first_index(labels.deep_view(), tagged(id@)),
        i <= labels.len(),
{
    let ghost rows = labels.deep_view();
    let ghost pred = tagged(id@);
    let mut i: usize = 0;
    while i < labels.len()
        invariant
            i <= labels.len(),
            rows == labels.deep_view(),
            pred == tagged(id@),
            forall|k: int| 0 <= k < i ==> !pred(#[trigger] rows[k]),
        decreases labels.len() - i,
    {
        if str_eq(labels[i].1.as_str(), id) {
            proof {
                lemma_first_index_is(rows, pred, i as int);
            }
            return i;
        }
        i += 1;
    }
    proof {
        lemma_first_index_is(rows, pred, i as int);
    }
    i
}

/// Moves the first label with the given tag, if there is one, from `rest`
/// to the end of `priority`.
fn move_priority(priority: &mut Vec<(Label, String)>, rest: &mut Vec<(Label, String)>, id: &str)
    ensures
        (final(priority).deep_view(), final(rest).deep_view()) == take_priority(
            (old(priority).deep_view(), old(rest).deep_view()),
            id@,
        ),
{
    let i = position_of_tag(rest, id);
    if i < rest.len() {
        let ghost before_rest = rest.deep_view();
        let ghost before_priority = priority.deep_view();
        let label = rest.remove(i);
        priority.push(label);
        assert(rest.deep_view() =~= before_rest.remove(i as int));
        assert(priority.deep_view() =~= before_priority.push(before_rest[i as int]));
    }
}

/// Puts labels, each tagged with its id in upper case, in display order.
pub fn order_tagged_labels(labels: Vec<(Label, String)>) -> (ordered: Vec<Label>)
    ensures
        ordered.deep_view() == order_tagged(labels.deep_view()),
{
    let mut rest = labels;
    let mut priority: Vec<(Label, String)> = Vec::new();
    assert(priority.deep_view() =~= Seq::<(LabelView, Seq<char>)>::empty());
    move_priority(&mut priority, &mut rest, "INBOX");
    move_priority(&mut priority, &mut rest, "IMPORTANT");
    move_priority(&mut priority, &mut rest, "STARRED");
    move_priority(&mut priority, &mut rest, "SENT");
    move_priority(&mut priority, &mut rest, "DRAFT");
    move_priority(&mut priority, &mut rest, "ALLMAIL");
    move_priority(&mut priority, &mut rest, "SPAM");
    move_priority(&mut priority, &mut rest, "TRASH");
    let at = position_of_tag(&priority, "ALLMAIL");
    if at == priority.len() && (priority.len() > 0 || rest.len() > 0) {
        let ghost before = priority.deep_view();
        let label = Label { id: Some("ALLMAIL".to_string()), name: Some("ALL MAIL".to_string()) };
        priority.push((label, "ALLMAIL".to_string()));
        assert(priority.deep_view() =~= before.push((all_mail_label(), "ALLMAIL"@)));
    }
    let ghost first = priority.deep_view();
    let ghost second = rest.deep_view();
    priority.append(&mut rest);
    assert(priority.deep_view() =~= first + second);
    let ghost all = priority.deep_view();
    let mut ordered: Vec<Label> = Vec::new();
    let mut i: usize = 0;
    assert(ordered.deep_view() =~= untagged(all).take(0));
    while i < priority.len()
        invariant
            i <= priority.len(),
            all == priority.deep_view(),
            ordered.deep_view() == untagged(all).take(i as int),
        decreases priority.len() - i,
    {
        let ghost before = ordered.deep_view();
        let label = priority[i].0.clone();
        let ghost label_view = label@;
        ordered.push(label);
        assert(ordered.deep_view() =~= before.push(label_view));
        assert(before.push(label_view) =~= untagged(all).take(i + 1));
        i += 1;
    }
    assert(untagged(all).take(priority.len() as int) =~= untagged(all));
    ordered
}

/// The first index at which the list holds a message with the given id.
fn position_of_id(messages: &Vec<Message>, id: &String) -> (i: usize)
    ensures
        i == first_index(messages.deep_view(), has_id(id@)),
        i <= messages.len(),
{
    let ghost rows = messages.deep_view();
    let ghost pred = has_id(id@);
    let mut i: usize = 0;
    while i < messages.len()
        invariant
            i <= messages.len(),
            rows == messages.deep_view(),
            pred == has_id(id@),
            forall|k: int| 0 <= k < i ==> !pred(#[trigger] rows[k]),
        decreases messages.len() - i,
    {
        let found = match &messages[i].id {
            Some(s) => *s == *id,
            None => false,
        };
        if found {
            proof {
                lemma_first_index_is(rows, pred, i as int);
            }
            return i;
        }
        i += 1;
    }
    proof {
        lemma_first_index_is(rows, pred, i as int);
    }
    i
}

/// The message that the view shows for a stored message.
fn message_from_cached(row: &CachedMessage) -> (m: Message)
    ensures
        m@ == message_of_cached(row@),
{
    Message {
        id: Some(row.id.clone()),
        snippet: row.snippet.clone(),
        payload: None,
        thread_id: row.thread_id.clone(),
        label_ids: Some(clone_strings(&row.label_ids)),
    }
}

/// The text of an optional string, or the fallback where there is none.
fn text_or(s: &Option<String>, fallback: &str) -> (r: String)
    ensures
        r@ == or_text(s.deep_view(), fallback@),
{
    match s {
        Some(t) => t.clone(),
        None => fallback.to_string(),
    }
}

impl AppState {
    /// Takes the chat labels from the label list.
    pub fn filter_labels(&mut self)
        ensures
            final(self)@ == old(self)@.filter_labels(),
    {
        let ghost rows = self.labels.deep_view();
        let ghost pred = is_mail_label();
        let mut kept: Vec<Label> = Vec::new();
        let mut i: usize = 0;
        assert(kept.deep_view() =~= keep(rows.take(0), pred));
        while i < self.labels.len()
            invariant
                i <= self.labels.len(),
                rows == self.labels.deep_view(),
                pred == is_mail_label(),
                *self == *old(self),
                kept.deep_view() == keep(rows.take(i as int), pred),
            decreases self.labels.len() - i,
        {
            proof {
                lemma_keep_step(rows, pred, i as int);
            }
            let stays = match &self.labels[i].name {
                Some(name) => {
                    let lower = to_lowercase(name.as_str());
                    !is_chat_label_name(lower.as_str())
                },
                None => true,
            };
            if stays {
                let ghost before = kept.deep_view();
                kept.push(self.labels[i].clone());
                assert(kept.deep_view() =~= before.push(rows[i as int]));
            }
            i += 1;
        }
        assert(rows.take(self.labels.len() as int) =~= rows);
        self.labels = kept;
    }

    /// Puts the labels in display order: the system labels first, after
    /// them the virtual all-mail label unless the list holds one or is
    /// empty, and the rest after that.
    pub fn order_labels(&mut self)
        ensures
            final(self)@ == old(self)@.order_labels(),
    {
        let ghost rows = self.labels.deep_view();
        let mut labels: Vec<(Label, String)> = Vec::new();
        let mut i: usize = 0;
        assert(labels.deep_view() =~= tag_labels(rows).take(0));
        while i < self.labels.len()
            invariant
                i <= self.labels.len(),
                *self == *old(self),
                rows == self.labels.deep_view(),
                labels.deep_view() == tag_labels(rows).take(i as int),
            decreases self.labels.len() - i,
        {
            let upper = match &self.labels[i].id {
                Some(id) => to_uppercase(id.as_str()),
                None => to_uppercase(""),
            };
            proof {
                reveal_strlit("");
                assert(""@ =~= Seq::<char>::empty());
            }
            let ghost before = labels.deep_view();
            let item = (self.labels[i].clone(), upper);
            let ghost item_view = item.deep_view();
            labels.push(item);
            assert(labels.deep_view() =~= before.push(item_view));
            assert(before.push(item_view) =~= tag_labels(rows).take(i + 1));
            i += 1;
        }
        assert(tag_labels(rows).take(self.labels.len() as int) =~= tag_labels(rows));
        self.labels = order_tagged_labels(labels);
    }

    /// Loads the labels from the store, takes the chat labels out, puts the
    /// rest in display order and selects the first one.
    pub fn load_labels_from_cache(&mut self)
        ensures
            final(self)@ == old(self)@.load_labels_from_cache(),
    {
        let cached = match &self.database {
            Some(db) => db.get_labels(),
            None => {
                return ;
            },
        };
        let mut labels: Vec<Label> = Vec::new();
        let mut i: usize = 0;
        assert(labels.deep_view() =~= labels_of_cached(cached.deep_view()).take(0));
        while i < cached.len()
            invariant
                i <= cached.len(),
                labels.deep_view() == labels_of_cached(cached.deep_view()).take(i as int),
            decreases cached.len() - i,
        {
            let ghost before = labels.deep_view();
            let label = Label { id: Some(cached[i].id.clone()), name: Some(cached[i].name.clone()) };
            let ghost label_view = label@;
            labels.push(label);
            assert(labels.deep_view() =~= before.push(label_view));
            assert(before.push(label_view) =~= labels_of_cached(cached.deep_view()).take(i + 1));
            i += 1;
        }
        assert(labels.deep_view() =~= labels_of_cached(cached.deep_view()));
        self.labels = labels;
        self.filter_labels();
        self.order_labels();
        if self.labels.len() > 0 {
            self.selected_label = 0;
            self.update_label_state();
        }
    }

    /// Whether the messages of the label at an index were loaded.
    pub fn is_label_loaded(&self, label_index: usize) -> (loaded: bool)
        ensures
            loaded == match self@.label_id_at(label_index) {
                Some(id) => self@.loaded_labels.contains(id),
                None => false,
            },
    {
        if label_index < self.labels.len() {
            match &self.labels[label_index].id {
                Some(id) => self.loaded_labels.contains_key(id.as_str()),
                None => false,
            }
        } else {
            false
        }
    }

    /// Keeps the messages that were loaded for the label at an index, under
    /// the label's id. Nothing is kept where there is no such label or it
    /// has no id.
    pub fn cache_messages_for_label(&mut self, label_index: usize, messages: Vec<Message>)
        ensures
            final(self)@ == match old(self)@.label_id_at(label_index) {
                Some(id) => AppStateView {
                    label_messages_cache: old(self)@.label_messages_cache.insert(
                        id,
                        messages.deep_view(),
                    ),
                    loaded_labels: old(self)@.loaded_labels.insert(id),
                    ..old(self)@
                },
                None => old(self)@,
            },
    {
        if label_index < self.labels.len() {
            match &self.labels[label_index].id {
                Some(id) => {
                    let key = id.clone();
                    let key2 = id.clone();
                    self.label_messages_cache.insert(key, messages);
                    self.loaded_labels.insert(key2, ());
                    assert(final(self)@.loaded_labels =~= old(self)@.loaded_labels.insert(id@));
                },
                None => {},
            }
        }
    }

    /// The messages known for the label at an index.
    pub fn get_messages_for_label(&self, label_index: usize) -> (messages: Vec<Message>)
        ensures
            messages.deep_view() == self@.messages_for_label(label_index),
    {
        if label_index < self.labels.len() {
            match &self.labels[label_index].id {
                Some(id) => {
                    match self.label_messages_cache.get(id.as_str()) {
                        Some(cached) => {
                            return clone_messages(cached);
                        },
                        None => {},
                    }
                },
                None => {},
            }
        }
        if label_index == self.selected_label {
            clone_messages(&self.messages)
        } else {
            let none: Vec<Message> = Vec::new();
            assert(none.deep_view() =~= Seq::<MessageView>::empty());
            none
        }
    }

    /// Reconciles the view with a newly retrieved list: the list replaces
    /// the one on display as it stands, and the selection follows the
    /// selected message by its id; where that message is gone, the first
    /// item is selected.
    pub fn reconcile(&mut self, fresh: Vec<Message>)
        ensures
            final(self)@ == old(self)@.reconcile(fresh.deep_view()),
    {
        let previous: Option<String> = if self.selected_message < self.messages.len() {
            self.messages[self.selected_message].id.clone()
        } else {
            None
        };
        self.messages = fresh;
        self.selected_message = match &previous {
            Some(id) => {
                let at = position_of_id(&self.messages, id);
                if at < self.messages.len() {
                    at
                } else {
                    0
                }
            },
            None => 0,
        };
        self.update_message_state();
    }

    /// Loads the first page of a label's messages from the store into the
    /// view, reconciles the selection, and enters headers, dates and bodies
    /// into the caches.
    pub fn load_messages_from_cache(&mut self, label_id: &str)
        ensures
            final(self)@ == old(self)@.load_messages_from_cache(label_id@),
    {
        let limit: i64 = if self.messages_per_screen as u128 > i64::MAX as u128 {
            i64::MAX
        } else {
            self.messages_per_screen as i64
        };
        let cached = match &self.database {
            Some(db) => db.get_messages_for_label(label_id, limit, 0),
            None => {
                return ;
            },
        };
        let ghost rows = cached.deep_view();
        let mut fresh: Vec<Message> = Vec::new();
        let mut i: usize = 0;
        assert(fresh.deep_view() =~= messages_of_cached(rows).take(0));
        while i < cached.len()
            invariant
                i <= cached.len(),
                rows == cached.deep_view(),
                fresh.deep_view() == messages_of_cached(rows).take(i as int),
            decreases cached.len() - i,
        {
            let ghost before = fresh.deep_view();
            let message = message_from_cached(&cached[i]);
            let ghost message_view = message@;
            fresh.push(message);
            assert(fresh.deep_view() =~= before.push(message_view));
            assert(before.push(message_view) =~= messages_of_cached(rows).take(i + 1));
            i += 1;
        }
        assert(fresh.deep_view() =~= messages_of_cached(rows));
        self.reconcile(fresh);
        let ghost shown = self@;
        let ghost before = old(self)@;
        let ghost chosen = selected_id(shown.messages, shown.selected_message);

        let mut k: usize = 0;
        assert(rows.take(0) =~= Seq::<CachedMessageView>::empty());
        while k < cached.len()
            invariant
                k <= cached.len(),
                rows == cached.deep_view(),
                chosen == selected_id(shown.messages, shown.selected_message),
                self@ == (AppStateView {
                    message_headers: headers_with(before.message_headers, rows.take(k as int)),
                    message_bodies: bodies_with(before.message_bodies, rows.take(k as int)),
                    current_message_display_headers: display_with(
                        before.current_message_display_headers,
                        rows.take(k as int),
                        chosen,
                    ),
                    ..shown
                }),
            decreases cached.len() - k,
        {
            assert(rows.take(k + 1).drop_last() =~= rows.take(k as int));
            assert(rows.take(k + 1).last() == rows[k as int]);
            let row = &cached[k];
            let subject = text_or(&row.subject, "(no subject)");
            let from = text_or(&row.from_addr, "(unknown sender)");
            let to = text_or(&row.to_addr, "(unknown recipient)");
            let date = text_or(&row.date_str, "(unknown date)");
            self.message_headers.insert(row.id.clone(), (subject.clone(), from.clone()));
            match &row.date_str {
                Some(d) => {
                    let mut key = row.id.clone();
                    key.append("_date");
                    self.message_bodies.insert(key, d.clone());
                },
                None => {},
            }
            match &row.body_text {
                Some(b) => {
                    self.message_bodies.insert(row.id.clone(), b.clone());
                },
                None => {},
            }
            let is_selected = if self.selected_message < self.messages.len() {
                match &self.messages[self.selected_message].id {
                    Some(id) => *id == row.id,
                    None => false,
                }
            } else {
                false
            };
            if is_selected {
                self.current_message_display_headers = Some(
                    MessageHeadersDisplay { subject, from, to, date },
                );
            }
            k += 1;
        }
        assert(rows.take(cached.len() as int) =~= rows);
    }

    /// Whether the cache of a label warrants a refresh at `now`. An empty
    /// cache is never fresh.
    pub fn is_cache_stale(&self, label_id: &str, now: Millis) -> (stale: bool)
        ensures
            stale == self@.is_cache_stale(label_id@, now),
    {
        match &self.database {
            None => true,
            Some(db) => {
                let first = db.get_messages_for_label(label_id, 1, 0);
                let record = db.get_sync_state(label_id);
                should_refresh(first.len(), record.as_ref(), now, DEFAULT_STALE_AFTER_MS)
            },
        }
    }
}

} // verus!
