//! Extraction of a message's text from its MIME tree.
use vstd::prelude::*;
use vstd::utf8::{decode_utf8, valid_utf8};
use crate::text::str_eq;
use crate::types::{part_view, parts_view, MessagePart, MessagePartView};

verus! {

/// The bytes that a text stands for in URL-safe base64 with padding, as the
/// base64 crate's `URL_SAFE` engine decodes it; none where the engine
/// rejects the text.
pub uninterp spec fn base64_url_decoded(data: Seq<char>) -> Option<Seq<u8>>;

/// `Engine::decode` of the base64 crate's `URL_SAFE` engine: the decoded
/// bytes, or nothing where the engine reports an error.
#[verifier::external_body]
fn decode_base64_url(data: &str) -> (r: Option<Vec<u8>>)
    ensures
        r matches Some(bytes) ==> base64_url_decoded(data@) == Some(bytes@),
        r is None ==> base64_url_decoded(data@) is None,
{
    match base64::Engine::decode(&base64::engine::general_purpose::URL_SAFE, data) {
        Ok(bytes) => Some(bytes),
        Err(_) => None,
    }
}

/// `String::from_utf8`: the string that the bytes encode, or nothing where
/// the bytes are no valid UTF-8.
#[verifier::external_body]
fn string_from_utf8(bytes: Vec<u8>) -> (r: Option<String>)
    ensures
        r is Some <==> valid_utf8(bytes@),
        r matches Some(s) ==> s@ == decode_utf8(bytes@),
{
    match String::from_utf8(bytes) {
        Ok(s) => Some(s),
        Err(_) => None,
    }
}

/// White space in the sense of `char::is_whitespace`: the characters with
/// the Unicode property `White_Space`.
pub open spec fn is_white_space(c: char) -> bool {
    let u = c as u32;
    ||| 0x09 <= u <= 0x0D
    ||| u == 0x20
    ||| u == 0x85
    ||| u == 0xA0
    ||| u == 0x1680
    ||| 0x2000 <= u <= 0x200A
    ||| u == 0x2028
    ||| u == 0x2029
    ||| u == 0x202F
    ||| u == 0x205F
    ||| u == 0x3000
}

/// A text without its leading white space.
pub open spec fn trim_start(s: Seq<char>) -> Seq<char>
    decreases s.len(),
{
    if s.len() > 0 && is_white_space(s[0]) {
        trim_start(s.skip(1))
    } else {
        s
    }
}

/// A text without its trailing white space.
pub open spec fn trim_end(s: Seq<char>) -> Seq<char>
    decreases s.len(),
{
    if s.len() > 0 && is_white_space(s.last()) {
        trim_end(s.drop_last())
    } else {
        s
    }
}

/// Whether a text holds nothing but white space.
pub open spec fn is_blank(s: Seq<char>) -> bool {
    trim_end(trim_start(s)).len() == 0
}

/// `str::trim`: the slice without leading and trailing white space.
#[verifier::external_body]
fn trim(s: &str) -> (r: &str)
    ensures
        r@ == trim_end(trim_start(s@)),
{
    s.trim()
}

/// The text that a part's encoded content stands for: the base64 decoding of
/// the content, read as UTF-8; none where either step fails.
pub open spec fn decoded_text(data: Seq<char>) -> Option<Seq<char>> {
    match base64_url_decoded(data) {
        Some(bytes) => if valid_utf8(bytes) {
            Some(decode_utf8(bytes))
        } else {
            None
        },
        None => None,
    }
}

/// The text that a part holds itself, if it is of the wanted kind.
pub open spec fn own_text(part: MessagePartView, mime: Seq<char>) -> Option<Seq<char>> {
    if part.mime_type == Some(mime) {
        match part.body {
            Some(body) => match body.data {
                Some(data) => decoded_text(data),
                None => None,
            },
            None => None,
        }
    } else {
        None
    }
}

/// The texts of a MIME tree: for each part, the text that it holds itself,
/// if it is of the wanted kind and can be decoded, and the texts of its
/// sub-parts in their order.
pub struct PartTexts {
    pub text: Option<String>,
    pub parts: Vec<PartTexts>,
}

pub struct PartTextsView {
    pub text: Option<Seq<char>>,
    pub parts: Seq<PartTextsView>,
}

/// Views of the texts of sibling parts, in order.
pub open spec fn texts_views(all: Seq<PartTexts>) -> Seq<PartTextsView>
    decreases all, 0nat,
{
    Seq::new(
        all.len(),
        |i: int|
            if 0 <= i < all.len() {
                texts_view(all[i])
            } else {
                arbitrary()
            },
    )
}

/// View of the texts of a part with its whole subtree.
pub open spec fn texts_view(texts: PartTexts) -> PartTextsView
    decreases texts, 1nat,
{
    PartTextsView { text: texts.text.deep_view(), parts: texts_views(texts.parts@) }
}

impl DeepView for PartTexts {
    type V = PartTextsView;

    open spec fn deep_view(&self) -> PartTextsView {
        texts_view(*self)
    }
}

/// The body among the texts of a MIME tree: the text of the root where it
/// has one, else the first body that is not blank among its sub-trees, in
/// their order.
pub open spec fn first_text(texts: PartTextsView) -> Option<Seq<char>>
    decreases texts, 0nat,
{
    match texts.text {
        Some(text) => Some(text),
        None => first_text_from(texts.parts, 0),
    }
}

/// The first body that is not blank among the sub-trees from index `k` on.
pub open spec fn first_text_from(parts: Seq<PartTextsView>, k: int) -> Option<Seq<char>>
    decreases parts, parts.len() - k,
{
    if 0 <= k < parts.len() {
        match first_text(parts[k]) {
            Some(text) => if is_blank(text) {
                first_text_from(parts, k + 1)
            } else {
                Some(text)
            },
            None => first_text_from(parts, k + 1),
        }
    } else {
        None
    }
}

/// The texts of the wanted kind in a MIME tree.
pub open spec fn texts_of(part: MessagePartView, mime: Seq<char>) -> PartTextsView
    decreases part, 1nat,
{
    PartTextsView {
        text: own_text(part, mime),
        parts: match part.parts {
            Some(parts) => all_texts_of(parts, mime),
            None => Seq::empty(),
        },
    }
}

/// The texts of the wanted kind in sibling parts, in order.
pub open spec fn all_texts_of(parts: Seq<MessagePartView>, mime: Seq<char>) -> Seq<PartTextsView>
    decreases parts, 0nat,
{
    Seq::new(
        parts.len(),
        |i: int|
            if 0 <= i < parts.len() {
                texts_of(parts[i], mime)
            } else {
                arbitrary()
            },
    )
}

/// The body of the wanted kind in a MIME tree: the text of the part itself
/// where it has one of that kind, else the first text that is not blank
/// among the bodies of its sub-parts, in their order.
pub open spec fn body_of_kind(part: MessagePartView, mime: Seq<char>) -> Option<Seq<char>> {
    first_text(texts_of(part, mime))
}

/// The text that a part holds itself, if it is of the wanted kind.
fn own_body(part: &MessagePart, mime: &str) -> (r: Option<String>)
    ensures
        r.deep_view() == own_text(part_view(*part), mime@),
{
    match &part.mime_type {
        Some(kind) => {
            if !str_eq(kind.as_str(), mime) {
                return None;
            }
        },
        None => {
            return None;
        },
    }
    match &part.body {
        Some(body) => match &body.data {
            Some(data) => match decode_base64_url(data.as_str()) {
                Some(bytes) => string_from_utf8(bytes),
                None => None,
            },
            None => None,
        },
        None => None,
    }
}

/// Decodes the texts of the wanted kind in sibling parts.
fn decode_all(parts: &Vec<MessagePart>, mime: &str) -> (all: Vec<PartTexts>)
    ensures
        texts_views(all@) == all_texts_of(parts_view(parts@), mime@),
    decreases parts, 0nat,
{
    let mut all: Vec<PartTexts> = Vec::new();
    let mut k: usize = 0;
    while k < parts.len()
        invariant
            k <= parts.len(),
            all.len() == k,
            forall|j: int|
                0 <= j < k ==> texts_view(#[trigger] all[j]) == texts_of(part_view(parts[j]), mime@),
        decreases parts.len() - k,
    {
        let texts = decode_texts(&parts[k], mime);
        all.push(texts);
        k += 1;
    }
    assert(texts_views(all@) =~= all_texts_of(parts_view(parts@), mime@));
    all
}

/// Decodes the texts of the wanted kind in a MIME tree.
pub fn decode_texts(part: &MessagePart, mime: &str) -> (texts: PartTexts)
    ensures
        texts_view(texts) == texts_of(part_view(*part), mime@),
    decreases *part, 1nat,
{
    let text = own_body(part, mime);
    let parts = match &part.parts {
        Some(parts) => decode_all(parts, mime),
        None => Vec::new(),
    };
    proof {
        if part.parts is None {
            assert(texts_views(parts@) =~= Seq::<PartTextsView>::empty());
        }
    }
    PartTexts { text, parts }
}

/// The first body that is not blank among the given sub-trees.
fn choose_among(parts: &Vec<PartTexts>) -> (r: Option<String>)
    ensures
        r.deep_view() == first_text_from(texts_views(parts@), 0),
    decreases parts, 0nat,
{
    let ghost views = texts_views(parts@);
    let mut k: usize = 0;
    while k < parts.len()
        invariant
            k <= parts.len(),
            views == texts_views(parts@),
            first_text_from(views, 0) == first_text_from(views, k as int),
        decreases parts.len() - k,
    {
        assert(views[k as int] == texts_view(parts[k as int]));
        match choose_text(&parts[k]) {
            Some(text) => {
                if !trim(text.as_str()).is_empty() {
                    return Some(text);
                }
            },
            None => {},
        }
        k += 1;
    }
    None
}

/// The body among the texts of a MIME tree: the text of the root where it
/// has one, else the first body that is not blank among its sub-trees.
pub fn choose_text(texts: &PartTexts) -> (r: Option<String>)
    ensures
        r.deep_view() == first_text(texts_view(*texts)),
    decreases *texts, 1nat,
{
    match &texts.text {
        Some(text) => Some(text.clone()),
        None => choose_among(&texts.parts),
    }
}

/// The plain-text body of a message: the decoded content of the first part
/// of type `text/plain` that holds text, searched from the root down.
pub fn extract_plain_text_body(payload: &MessagePart) -> (text: Option<String>)
    ensures
        text.deep_view() == body_of_kind(payload@, "text/plain"@),
{
    let texts = decode_texts(payload, "text/plain");
    choose_text(&texts)
}

/// The HTML body of a message: the decoded content of the first part of
/// type `text/html` that holds text, searched from the root down.
pub fn extract_html_body(payload: &MessagePart) -> (text: Option<String>)
    ensures
        text.deep_view() == body_of_kind(payload@, "text/html"@),
{
    let texts = decode_texts(payload, "text/html");
    choose_text(&texts)
}

} // verus!
