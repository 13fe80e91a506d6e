//! Requests that change the remote mailbox: what is sent, and where to.
use vstd::prelude::*;
use vstd::string::StringSliceAdditionalSpecFns;
use vstd::utf8::encode_utf8;
use crate::text::{decimal, decimal_string, is_all_mail, join3, spec_is_all_mail};

verus! {

/// The text that bytes stand for in URL-safe base64 without padding, as the
/// base64 crate's `URL_SAFE_NO_PAD` engine encodes them.
pub uninterp spec fn base64_url_unpadded(bytes: Seq<u8>) -> Seq<char>;

/// `Engine::encode` of the base64 crate's `URL_SAFE_NO_PAD` engine, on the
/// bytes of a text. The engine fails where the length of its result cannot
/// be told in a `usize`; such texts are left out.
#[verifier::external_body]
fn encode_base64_url(text: &str) -> (r: String)
    requires
        text.len() / 3 * 4 + 3 <= usize::MAX,
    ensures
        r@ == base64_url_unpadded(text.spec_bytes()),
{
    base64::Engine::encode(&base64::engine::general_purpose::URL_SAFE_NO_PAD, text.as_bytes())
}

/// A header line of a message to send.
pub open spec fn header_line(name: Seq<char>, value: Seq<char>) -> Seq<char> {
    name + value + "\r\n"@
}

/// A header line that is left out where the value is empty.
pub open spec fn optional_line(name: Seq<char>, value: Seq<char>) -> Seq<char> {
    if value.len() == 0 {
        Seq::empty()
    } else {
        header_line(name, value)
    }
}

/// The text of a message to send: recipient, copies where there are any,
/// subject and content type, an empty line, and the body as it stands.
pub open spec fn raw_email(
    to: Seq<char>,
    cc: Seq<char>,
    bcc: Seq<char>,
    subject: Seq<char>,
    body: Seq<char>,
) -> Seq<char> {
    header_line("To: "@, to) + optional_line("Cc: "@, cc) + optional_line("Bcc: "@, bcc)
        + header_line("Subject: "@, subject) + "Content-Type: text/plain; charset=utf-8\r\n"@
        + "\r\n"@ + body
}

/// Builds the text of a message to send.
pub fn build_raw_email(to: &str, cc: &str, bcc: &str, subject: &str, body: &str) -> (raw: String)
    ensures
        raw@ == raw_email(to@, cc@, bcc@, subject@, body@),
{
    let mut raw = join3("To: ", to, "\r\n");
    if !cc.is_empty() {
        raw.append("Cc: ");
        raw.append(cc);
        raw.append("\r\n");
    }
    if !bcc.is_empty() {
        raw.append("Bcc: ");
        raw.append(bcc);
        raw.append("\r\n");
    }
    raw.append("Subject: ");
    raw.append(subject);
    raw.append("\r\n");
    raw.append("Content-Type: text/plain; charset=utf-8\r\n");
    raw.append("\r\n");
    raw.append(body);
    assert(raw@ =~= raw_email(to@, cc@, bcc@, subject@, body@));
    raw
}

/// Whether a text is short enough to be encoded: whether the length of its
/// encoding can be told in a `usize`.
pub open spec fn encodable(text: Seq<char>) -> bool {
    (encode_utf8(text).len() as usize) / 3 * 4 + 3 <= usize::MAX
}

/// The message to send as the remote service takes it: its text in URL-safe
/// base64 without padding. There is none where the text is too long to
/// encode.
pub fn encode_email(to: &str, cc: &str, bcc: &str, subject: &str, body: &str) -> (encoded: Option<
    String,
>)
    ensures
        encoded matches Some(e) ==> e@ == base64_url_unpadded(
            encode_utf8(raw_email(to@, cc@, bcc@, subject@, body@)),
        ),
        encoded is Some <==> encodable(raw_email(to@, cc@, bcc@, subject@, body@)),
{
    let raw = build_raw_email(to, cc, bcc, subject, body);
    let chunks: usize = raw.as_str().len() / 3;
    let most: usize = (usize::MAX - 3) / 4;
    assert(chunks <= most <==> chunks * 4 + 3 <= usize::MAX) by {
        assert(most * 4 + 3 <= usize::MAX);
        assert(most * 4 + 3 > usize::MAX - 4);
    }
    if chunks <= most {
        Some(encode_base64_url(raw.as_str()))
    } else {
        None
    }
}

/// Where the messages of the account live.
pub open spec fn messages_base() -> Seq<char> {
    "https://gmail.googleapis.com/gmail/v1/users/me/messages"@
}

/// The address that lists at most `max_results` messages of a label, most
/// recent first; the virtual all-mail label asks for no label.
pub open spec fn spec_list_url(label: Seq<char>, max_results: nat) -> Seq<char> {
    if spec_is_all_mail(label) {
        messages_base() + "?maxResults="@ + decimal(max_results) + "&orderBy=date_desc"@
    } else {
        messages_base() + "?labelIds="@ + label + "&maxResults="@ + decimal(max_results)
            + "&orderBy=date_desc"@
    }
}

/// Builds the address of a message listing, given whether the label is the
/// virtual all-mail label.
pub fn list_url_for(label_id: &str, all_mail: bool, max_results: usize) -> (url: String)
    ensures
        url@ == if all_mail {
            messages_base() + "?maxResults="@ + decimal(max_results as nat) + "&orderBy=date_desc"@
        } else {
            messages_base() + "?labelIds="@ + label_id@ + "&maxResults="@ + decimal(
                max_results as nat,
            ) + "&orderBy=date_desc"@
        },
{
    let mut url = "https://gmail.googleapis.com/gmail/v1/users/me/messages".to_string();
    if !all_mail {
        url.append("?labelIds=");
        url.append(label_id);
        url.append("&maxResults=");
    } else {
        url.append("?maxResults=");
    }
    let number = decimal_string(max_results);
    url.append(number.as_str());
    url.append("&orderBy=date_desc");
    url
}

/// Builds the address of a message listing.
pub fn list_url(label_id: &str, max_results: usize) -> (url: String)
    ensures
        url@ == spec_list_url(label_id@, max_results as nat),
{
    list_url_for(label_id, is_all_mail(label_id), max_results)
}

/// Builds the address of one message, in full or with its headers alone.
pub fn message_url(message_id: &str, full: bool) -> (url: String)
    ensures
        url@ == messages_base() + "/"@ + message_id@ + if full {
            "?format=full"@
        } else {
            "?format=metadata"@
        },
{
    let mut url = "https://gmail.googleapis.com/gmail/v1/users/me/messages".to_string();
    url.append("/");
    url.append(message_id);
    if full {
        url.append("?format=full");
    } else {
        url.append("?format=metadata");
    }
    url
}

/// Builds the address that changes the labels of a message.
pub fn modify_url(message_id: &str) -> (url: String)
    ensures
        url@ == messages_base() + "/"@ + message_id@ + "/modify"@,
{
    let mut url = "https://gmail.googleapis.com/gmail/v1/users/me/messages".to_string();
    url.append("/");
    url.append(message_id);
    url.append("/modify");
    url
}

/// Builds the address that moves a message to the trash.
pub fn trash_url(message_id: &str) -> (url: String)
    ensures
        url@ == messages_base() + "/"@ + message_id@ + "/trash"@,
{
    let mut url = "https://gmail.googleapis.com/gmail/v1/users/me/messages".to_string();
    url.append("/");
    url.append(message_id);
    url.append("/trash");
    url
}

/// The labels that archiving takes from a message: the inbox label alone.
pub fn archive_removes() -> (labels: Vec<String>)
    ensures
        labels.deep_view() == seq!["INBOX"@],
{
    let mut labels: Vec<String> = Vec::new();
    labels.push("INBOX".to_string());
    assert(labels.deep_view() =~= seq!["INBOX"@]);
    labels
}

} // verus!
