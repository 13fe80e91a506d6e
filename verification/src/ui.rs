//! The texts that the interface shows: what stands in the lists, the header
//! panel, the content pane and the help bar, and where the cursor of the
//! compose form stands. Drawing them is left to the caller.
use vstd::prelude::*;
use vstd::utf8::encode_utf8;
use crate::state::{AppState, AppStateView, FocusedPane};
use crate::text::{decimal, decimal_string, lines, lines_of};
use crate::types::{LoadingStage, MessageHeadersDisplay, MessageHeadersDisplayView};

verus! {

/// The line shown while the client starts.
pub fn loading_message(stage: LoadingStage) -> (text: &'static str)
    ensures
        text@ == match stage {
            LoadingStage::Authenticating => "🔐 Authenticating with Gmail..."@,
            LoadingStage::FetchingLabels => "📁 Loading folders..."@,
            LoadingStage::FetchingMessages => "📧 Loading messages..."@,
            LoadingStage::Complete => ""@,
        },
{
    match stage {
        LoadingStage::Authenticating => "🔐 Authenticating with Gmail...",
        LoadingStage::FetchingLabels => "📁 Loading folders...",
        LoadingStage::FetchingMessages => "📧 Loading messages...",
        LoadingStage::Complete => "",
    }
}

/// The share of the screen, in percent, that lies on either side of a
/// centred area that takes `percent` of it.
pub fn side_margin(percent: u16) -> (margin: u16)
    ensures
        margin == if percent <= 100 {
            (100 - percent) / 2
        } else {
            0
        },
{
    if percent <= 100 {
        (100 - percent) / 2
    } else {
        0
    }
}

/// The width that is left for the text of a list item in a column: the
/// column less borders, padding and the selection mark.
pub fn available_width(column_width: u16) -> (width: usize)
    ensures
        width == if column_width >= 6 {
            column_width - 6
        } else {
            0
        },
{
    if column_width >= 6 {
        (column_width - 6) as usize
    } else {
        0
    }
}

/// A run of blanks.
pub open spec fn blanks(n: nat) -> Seq<char> {
    Seq::new(n, |i: int| ' ')
}

/// The length of a text in bytes.
pub open spec fn byte_len(text: Seq<char>) -> usize {
    encode_utf8(text).len() as usize
}

/// The number of blanks between sender and date of a list item: as many as
/// push the date to the right edge, and one where both do not fit.
pub open spec fn gap(from: Seq<char>, date: Seq<char>, width: usize) -> nat {
    let used = byte_len("From: "@ + from) + byte_len(date);
    if used < width {
        (width - used) as nat
    } else {
        1
    }
}

/// The text of a list item for a message whose headers are known: the
/// sender with the date at the right edge, and the subject below.
pub open spec fn item_with_headers(
    subject: Seq<char>,
    from: Seq<char>,
    date: Seq<char>,
    width: usize,
) -> Seq<char> {
    "From: "@ + from + blanks(gap(from, date, width)) + date + "\nSubject: "@ + subject
}

/// The text of a list item for a message whose headers are not known: its
/// number in the list and its snippet.
pub open spec fn item_with_snippet(index: usize, snippet: Option<Seq<char>>) -> Seq<char> {
    "#"@ + decimal((index + 1) as nat) + ": "@ + match snippet {
        Some(s) => s,
        None => "(no snippet)"@,
    }
}

/// The id under which the caches know the message at `index`. A message
/// without an id counts as having the empty id.
pub open spec fn cache_key(state: AppStateView, index: usize) -> Seq<char> {
    match state.messages[index as int].id {
        Some(i) => i,
        None => Seq::empty(),
    }
}

/// The text of the list item of the message at `index`; empty where the
/// list holds no such message.
pub open spec fn message_item_text(
    state: AppStateView,
    index: usize,
    date: Seq<char>,
    width: usize,
) -> Seq<char> {
    if index >= state.messages.len() {
        Seq::empty()
    } else if state.message_headers.dom().contains(cache_key(state, index)) {
        item_with_headers(
            state.message_headers[cache_key(state, index)].0,
            state.message_headers[cache_key(state, index)].1,
            date,
            width,
        )
    } else {
        item_with_snippet(index, state.messages[index as int].snippet)
    }
}

/// The date line that the bodies cache holds for the message at `index`,
/// as the message brought it.
pub open spec fn date_line(state: AppStateView, index: usize) -> Option<Seq<char>> {
    if index < state.messages.len() && state.message_bodies.dom().contains(
        cache_key(state, index) + "_date"@,
    ) {
        Some(state.message_bodies[cache_key(state, index) + "_date"@])
    } else {
        None
    }
}

/// Builds a run of blanks.
fn blank_run(n: usize) -> (run: String)
    ensures
        run@ == blanks(n as nat),
{
    let mut run = String::new();
    let mut i: usize = 0;
    assert(run@ =~= blanks(0));
    while i < n
        invariant
            i <= n,
            run@ == blanks(i as nat),
        decreases n - i,
    {
        let ghost before = run@;
        run.append(" ");
        proof {
            reveal_strlit(" ");
            assert(" "@ =~= seq![' ']);
            assert(before + seq![' '] =~= blanks((i + 1) as nat));
        }
        i += 1;
    }
    run
}

/// The date line that the bodies cache holds for the message at `index`,
/// as the message brought it.
pub fn date_line_of(state: &AppState, index: usize) -> (line: Option<String>)
    ensures
        line.deep_view() == date_line(state@, index),
{
    if index >= state.messages.len() {
        return None;
    }
    let mut key = match &state.messages[index].id {
        Some(id) => id.clone(),
        None => String::new(),
    };
    key.append("_date");
    match state.message_bodies.get(key.as_str()) {
        Some(line) => Some(line.clone()),
        None => None,
    }
}

/// The text of the list item of the message at `index`, given its date as
/// it is to be shown and the width that is left for the item.
pub fn message_item(state: &AppState, index: usize, date: &str, width: usize) -> (text: String)
    ensures
        text@ == message_item_text(state@, index, date@, width),
{
    if index >= state.messages.len() {
        return String::new();
    }
    let message = &state.messages[index];
    let known = match &message.id {
        Some(id) => state.message_headers.get(id.as_str()),
        None => state.message_headers.get(""),
    };
    proof {
        reveal_strlit("");
        assert(""@ =~= Seq::<char>::empty());
    }
    match known {
        Some(pair) => {
            let mut text = "From: ".to_string();
            text.append(pair.1.as_str());
            let used: u128 = text.as_str().len() as u128 + date.len() as u128;
            let spacing: usize = if used < width as u128 {
                (width as u128 - used) as usize
            } else {
                1
            };
            let run = blank_run(spacing);
            text.append(run.as_str());
            text.append(date);
            text.append("\nSubject: ");
            text.append(pair.0.as_str());
            text
        },
        None => {
            let number = decimal_string(index + 1);
            let mut text = "#".to_string();
            text.append(number.as_str());
            text.append(": ");
            match &message.snippet {
                Some(s) => text.append(s.as_str()),
                None => text.append("(no snippet)"),
            }
            text
        },
    }
}

/// The name of a label as the label list shows it.
pub fn label_item(label: &crate::types::Label) -> (text: String)
    ensures
        text@ == match label@.name {
            Some(n) => n,
            None => "(unnamed)"@,
        },
{
    match &label.name {
        Some(n) => n.clone(),
        None => "(unnamed)".to_string(),
    }
}

/// The text of the header panel.
pub open spec fn header_panel(shown: Option<MessageHeadersDisplayView>, date: Seq<char>) -> Seq<char> {
    match shown {
        Some(h) => "From: "@ + h.from + "\nTo: "@ + h.to + "\nDate: "@ + date + "\nSubject: "@
            + h.subject,
        None => "No message selected or headers loaded."@,
    }
}

/// Builds the text of the header panel, given the date as it is to be
/// shown.
pub fn header_text(shown: &Option<MessageHeadersDisplay>, date: &str) -> (text: String)
    ensures
        text@ == header_panel(shown.deep_view(), date@),
{
    match shown {
        Some(h) => {
            let mut text = "From: ".to_string();
            text.append(h.from.as_str());
            text.append("\nTo: ");
            text.append(h.to.as_str());
            text.append("\nDate: ");
            text.append(date);
            text.append("\nSubject: ");
            text.append(h.subject.as_str());
            text
        },
        None => "No message selected or headers loaded.".to_string(),
    }
}

/// The body that the content pane shows: that of the selected message as
/// far as it is known, else a hint.
pub open spec fn body_on_display(state: AppStateView) -> Seq<char> {
    if state.selected_message < state.messages.len() {
        let id = match state.messages[state.selected_message as int].id {
            Some(i) => i,
            None => Seq::empty(),
        };
        if state.message_bodies.dom().contains(id) {
            state.message_bodies[id]
        } else {
            "Press Enter to load message body..."@
        }
    } else {
        "No message selected"@
    }
}

/// Texts joined by line feeds.
pub open spec fn joined(parts: Seq<Seq<char>>) -> Seq<char>
    decreases parts.len(),
{
    if parts.len() == 0 {
        Seq::empty()
    } else if parts.len() == 1 {
        parts[0]
    } else {
        joined(parts.drop_last()) + "\n"@ + parts.last()
    }
}

/// A text without its first `offset` lines.
pub open spec fn scrolled(body: Seq<char>, offset: usize) -> Seq<char> {
    if offset < lines(body).len() {
        joined(lines(body).skip(offset as int))
    } else {
        Seq::empty()
    }
}

/// Cuts the first `offset` lines from a text.
pub fn scroll_text(body: &str, offset: usize) -> (text: String)
    ensures
        text@ == scrolled(body@, offset),
{
    let all = lines_of(body);
    let mut text = String::new();
    if offset < all.len() {
        let ghost rest = all.deep_view().skip(offset as int);
        let mut i: usize = offset;
        assert(rest.take(0) =~= Seq::<Seq<char>>::empty());
        while i < all.len()
            invariant
                offset <= i <= all.len(),
                rest == all.deep_view().skip(offset as int),
                text@ == joined(rest.take(i - offset)),
            decreases all.len() - i,
        {
            assert(rest.take(i - offset + 1).drop_last() =~= rest.take(i - offset));
            assert(rest.take(i - offset + 1).last() == all[i as int]@);
            let ghost before = text@;
            if i > offset {
                text.append("\n");
            }
            text.append(all[i].as_str());
            assert(text@ =~= joined(rest.take(i - offset + 1)));
            i += 1;
        }
        assert(rest.take(all.len() - offset) =~= rest);
    }
    text
}

/// The content pane: the body on display, scrolled by the scroll offset.
pub fn content_text(state: &AppState) -> (text: String)
    ensures
        text@ == scrolled(body_on_display(state@), state.content_scroll_offset),
{
    proof {
        reveal_strlit("");
        assert(""@ =~= Seq::<char>::empty());
    }
    if state.selected_message < state.messages.len() {
        let known = match &state.messages[state.selected_message].id {
            Some(id) => state.message_bodies.get(id.as_str()),
            None => state.message_bodies.get(""),
        };
        match known {
            Some(body) => scroll_text(body.as_str(), state.content_scroll_offset),
            None => scroll_text("Press Enter to load message body...", state.content_scroll_offset),
        }
    } else {
        scroll_text("No message selected", state.content_scroll_offset)
    }
}

/// Where the cursor of the body field stands, as column and row: the scan
/// of the lines from line `k` on, with `before` bytes in the lines above.
/// The cursor stands in the first line that reaches it; where no line does,
/// it stands in the first row, as many columns in as it lies beyond the
/// text.
pub open spec fn cursor_scan(all: Seq<Seq<char>>, cursor: nat, k: int, before: nat) -> (nat, nat)
    decreases all.len() - k,
{
    if k < 0 || k >= all.len() {
        (
            if cursor >= before {
                (cursor - before) as nat
            } else {
                0
            },
            0,
        )
    } else if cursor <= before + encode_utf8(all[k]).len() as usize {
        (
            if cursor >= before {
                (cursor - before) as nat
            } else {
                0
            },
            k as nat,
        )
    } else {
        cursor_scan(
            all,
            cursor,
            k + 1,
            (before + (encode_utf8(all[k]).len() as usize) + 1) as nat,
        )
    }
}

/// Where the cursor of the body field stands, as column and row.
pub fn body_cursor_offset(body: &str, cursor: usize) -> (at: (usize, usize))
    ensures
        (at.0 as nat, at.1 as nat) == cursor_scan(lines(body@), cursor as nat, 0, 0),
{
    let all = lines_of(body);
    let ghost rows = all.deep_view();
    let mut before: u128 = 0;
    let mut k: usize = 0;
    while k < all.len()
        invariant
            k <= all.len(),
            rows == all.deep_view(),
            rows == lines(body@),
            before <= k as u128 * 0x1_0000_0000_0000_0001u128,
            cursor_scan(rows, cursor as nat, 0, 0) == cursor_scan(
                rows,
                cursor as nat,
                k as int,
                before as nat,
            ),
        decreases all.len() - k,
    {
        let len = all[k].as_str().len();
        assert(rows[k as int] == all[k as int]@);
        assert(k as u128 * 0x1_0000_0000_0000_0001u128 + 0x1_0000_0000_0000_0001u128 == (k + 1) as u128
            * 0x1_0000_0000_0000_0001u128) by (nonlinear_arith);
        assert(k as u128 * 0x1_0000_0000_0000_0001u128 <= 0xFFFF_FFFF_FFFF_FFFFu128
            * 0x1_0000_0000_0000_0001u128) by (nonlinear_arith)
            requires
                k <= 0xFFFF_FFFF_FFFF_FFFFu128,
        ;
        if cursor as u128 <= before + len as u128 {
            let column: usize = if cursor as u128 >= before {
                (cursor as u128 - before) as usize
            } else {
                0
            };
            return (column, k);
        }
        before = before + len as u128 + 1;
        k += 1;
    }
    let column: usize = if cursor as u128 >= before {
        (cursor as u128 - before) as usize
    } else {
        0
    };
    (column, 0)
}

/// The label of the send button.
pub fn send_button_text(sending: bool) -> (text: &'static str)
    ensures
        text@ == if sending {
            "Sending..."@
        } else {
            "[ Send Email ]"@
        },
{
    if sending {
        "Sending..."
    } else {
        "[ Send Email ]"
    }
}

/// The lines of the help bar for a pane.
pub fn help_text(pane: FocusedPane) -> (text: &'static str)
    ensures
        text@ == match pane {
            FocusedPane::Labels => "j/k or ↑/↓: Navigate up/down through folders\nEnter: Select folder and switch to messages\nTab/Shift+Tab: Switch panes | c: Compose email | f: Refresh messages\nCtrl+R: Re-authenticate | ?: Toggle this help | q: Quit application"@,
            FocusedPane::Messages => "j/k or ↑/↓: Navigate up/down through messages\nEnter: View message content | c: Compose email | r: Reply to message\na: Archive message | d: Delete message | f: Refresh messages\nTab/Shift+Tab: Switch panes | Esc: Back to folders\nCtrl+R: Re-authenticate | ?: Toggle this help | q: Quit application"@,
            FocusedPane::Content => "j/k or ↑/↓: Scroll up/down through content\nTab/Shift+Tab: Switch panes | c: Compose email | r: Reply to message\na: Archive message | d: Delete message | f: Refresh messages\nEsc: Back to folders pane\nCtrl+R: Re-authenticate | ?: Toggle this help | q: Quit application"@,
        },
{
    match pane {
        FocusedPane::Labels => "j/k or ↑/↓: Navigate up/down through folders\nEnter: Select folder and switch to messages\nTab/Shift+Tab: Switch panes | c: Compose email | f: Refresh messages\nCtrl+R: Re-authenticate | ?: Toggle this help | q: Quit application",
        FocusedPane::Messages => "j/k or ↑/↓: Navigate up/down through messages\nEnter: View message content | c: Compose email | r: Reply to message\na: Archive message | d: Delete message | f: Refresh messages\nTab/Shift+Tab: Switch panes | Esc: Back to folders\nCtrl+R: Re-authenticate | ?: Toggle this help | q: Quit application",
        FocusedPane::Content => "j/k or ↑/↓: Scroll up/down through content\nTab/Shift+Tab: Switch panes | c: Compose email | r: Reply to message\na: Archive message | d: Delete message | f: Refresh messages\nEsc: Back to folders pane\nCtrl+R: Re-authenticate | ?: Toggle this help | q: Quit application",
    }
}

} // verus!
