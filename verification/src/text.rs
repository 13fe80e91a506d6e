//! String operations of the standard library that the engine relies on, each
//! with the statement the verified code builds on.
use vstd::prelude::*;

verus! {

/// Upper-case form of a string as `str::to_uppercase` computes it.
pub uninterp spec fn uppercase(s: Seq<char>) -> Seq<char>;

/// Lower-case form of a string as `str::to_lowercase` computes it.
pub uninterp spec fn lowercase(s: Seq<char>) -> Seq<char>;

/// Lexicographic order of two strings by the code points of their characters.
pub open spec fn lex_le(a: Seq<char>, b: Seq<char>) -> bool
    decreases a.len(),
{
    if a.len() == 0 {
        true
    } else if b.len() == 0 {
        false
    } else if a[0] != b[0] {
        (a[0] as u32) < (b[0] as u32)
    } else {
        lex_le(a.skip(1), b.skip(1))
    }
}

/// Any two strings are comparable.
pub proof fn lemma_lex_le_total(a: Seq<char>, b: Seq<char>)
    ensures
        lex_le(a, b) || lex_le(b, a),
    decreases a.len(),
{
    if a.len() > 0 && b.len() > 0 {
        if a[0] == b[0] {
            lemma_lex_le_total(a.skip(1), b.skip(1));
        } else {
            vstd::utf8::char_u32_cast(a[0], a[0] as u32);
            vstd::utf8::char_u32_cast(b[0], b[0] as u32);
        }
    }
}

/// The order is transitive.
pub proof fn lemma_lex_le_transitive(a: Seq<char>, b: Seq<char>, c: Seq<char>)
    requires
        lex_le(a, b),
        lex_le(b, c),
    ensures
        lex_le(a, c),
    decreases a.len(),
{
    if a.len() > 0 && b.len() > 0 && c.len() > 0 && a[0] == b[0] && b[0] == c[0] {
        lemma_lex_le_transitive(a.skip(1), b.skip(1), c.skip(1));
    }
}

/// `str`'s equality: two string slices are equal when they hold the same
/// characters.
#[verifier::external_body]
pub(crate) fn str_eq(a: &str, b: &str) -> (r: bool)
    ensures
        r == (a@ == b@),
{
    a == b
}

/// `str`'s order: string slices compare lexicographically by code point.
#[verifier::external_body]
pub(crate) fn str_le(a: &str, b: &str) -> (r: bool)
    ensures
        r == lex_le(a@, b@),
{
    a <= b
}

/// `str::to_uppercase`: the result is the upper-case form of the argument.
#[verifier::external_body]
pub(crate) fn to_uppercase(s: &str) -> (r: String)
    ensures
        r@ == uppercase(s@),
{
    s.to_uppercase()
}

/// `str::to_lowercase`: the result is the lower-case form of the argument.
#[verifier::external_body]
pub(crate) fn to_lowercase(s: &str) -> (r: String)
    ensures
        r@ == lowercase(s@),
{
    s.to_lowercase()
}

/// Whether a label id names the virtual label that stands for all mail,
/// whatever its letter case.
pub open spec fn spec_is_all_mail(label_id: Seq<char>) -> bool {
    uppercase(label_id) == "ALLMAIL"@
}

/// Tests a label id for the virtual all-mail label.
pub fn is_all_mail(label_id: &str) -> (r: bool)
    ensures
        r == spec_is_all_mail(label_id@),
{
    let upper = to_uppercase(label_id);
    str_eq(upper.as_str(), "ALLMAIL")
}

/// `str::starts_with` with a string pattern: whether the pattern is a prefix
/// of the string.
#[verifier::external_body]
pub(crate) fn starts_with(s: &str, prefix: &str) -> (r: bool)
    ensures
        r == prefix@.is_prefix_of(s@),
{
    s.starts_with(prefix)
}

/// Whether `needle` occurs in `haystack` as a run of consecutive characters.
pub open spec fn occurs_in(needle: Seq<char>, haystack: Seq<char>) -> bool {
    exists|i: int|
        0 <= i && i + needle.len() <= haystack.len() && #[trigger] haystack.subrange(
            i,
            i + needle.len(),
        ) == needle
}

/// `str::contains` with a string pattern: whether the pattern occurs in the
/// string.
#[verifier::external_body]
pub(crate) fn contains(haystack: &str, needle: &str) -> (r: bool)
    ensures
        r == occurs_in(needle@, haystack@),
{
    haystack.contains(needle)
}

/// The decimal digit for a number below ten.
pub open spec fn digit(d: nat) -> char {
    if d == 0 {
        '0'
    } else if d == 1 {
        '1'
    } else if d == 2 {
        '2'
    } else if d == 3 {
        '3'
    } else if d == 4 {
        '4'
    } else if d == 5 {
        '5'
    } else if d == 6 {
        '6'
    } else if d == 7 {
        '7'
    } else if d == 8 {
        '8'
    } else {
        '9'
    }
}

/// The decimal numeral of a number, without leading zeros.
pub open spec fn decimal(n: nat) -> Seq<char>
    decreases n,
{
    if n < 10 {
        seq![digit(n)]
    } else {
        decimal(n / 10).push(digit(n % 10))
    }
}

/// `to_string` of `usize`: the decimal numeral of the number.
#[verifier::external_body]
pub(crate) fn decimal_string(n: usize) -> (r: String)
    ensures
        r@ == decimal(n as nat),
{
    n.to_string()
}

/// The two texts, one after the other.
pub fn join2(a: &str, b: &str) -> (r: String)
    ensures
        r@ == a@ + b@,
{
    let mut r = a.to_string();
    r.append(b);
    r
}

/// The three texts, one after the other.
pub fn join3(a: &str, b: &str, c: &str) -> (r: String)
    ensures
        r@ == a@ + b@ + c@,
{
    let mut r = a.to_string();
    r.append(b);
    r.append(c);
    r
}

/// A text with a character put in at a byte position of its UTF-8 encoding.
pub open spec fn inserted(text: Seq<char>, at: int, c: char) -> Seq<char> {
    let bytes = vstd::utf8::encode_utf8(text);
    vstd::utf8::decode_utf8(
        bytes.subrange(0, at) + vstd::utf8::encode_utf8(seq![c]) + bytes.subrange(
            at,
            bytes.len() as int,
        ),
    )
}

/// A text without the character that starts at a byte position of its UTF-8
/// encoding.
pub open spec fn removed(text: Seq<char>, at: int) -> Seq<char> {
    let bytes = vstd::utf8::encode_utf8(text);
    let width = vstd::utf8::length_of_first_scalar(bytes.subrange(at, bytes.len() as int));
    vstd::utf8::decode_utf8(bytes.subrange(0, at) + bytes.subrange(at + width, bytes.len() as int))
}

/// `String::insert`: puts a character in at a byte position. The position
/// must lie on a character boundary.
#[verifier::external_body]
pub(crate) fn insert_char(s: &mut String, at: usize, c: char)
    requires
        vstd::utf8::is_char_boundary(vstd::utf8::encode_utf8(old(s)@), at as int),
    ensures
        final(s)@ == inserted(old(s)@, at as int, c),
{
    s.insert(at, c);
}

/// `String::remove`: takes out the character that starts at a byte
/// position. The position must lie on a character boundary before the end.
#[verifier::external_body]
pub(crate) fn remove_char(s: &mut String, at: usize)
    requires
        at < vstd::utf8::encode_utf8(old(s)@).len(),
        vstd::utf8::is_char_boundary(vstd::utf8::encode_utf8(old(s)@), at as int),
    ensures
        final(s)@ == removed(old(s)@, at as int),
{
    s.remove(at);
}

/// The index of the first line feed of a text, or its length.
pub open spec fn line_end(s: Seq<char>) -> int
    decreases s.len(),
{
    if s.len() == 0 || s[0] == '\n' {
        0
    } else {
        1 + line_end(s.skip(1))
    }
}

/// The lines of a text: it is cut after each line feed; a line loses its
/// line feed and a carriage return before it; a last line without a line
/// feed is kept as it stands.
pub open spec fn lines(s: Seq<char>) -> Seq<Seq<char>>
    decreases s.len(),
{
    if s.len() == 0 {
        Seq::empty()
    } else {
        let end = line_end(s);
        if end < 0 || end >= s.len() {
            seq![s]
        } else {
            let line = s.take(end);
            let bare = if line.len() > 0 && line.last() == '\r' {
                line.drop_last()
            } else {
                line
            };
            seq![bare] + lines(s.skip(end + 1))
        }
    }
}

/// `str::lines`, each line as a string of its own.
#[verifier::external_body]
pub(crate) fn lines_of(s: &str) -> (r: Vec<String>)
    ensures
        r.deep_view() == lines(s@),
{
    s.lines().map(|line| line.to_string()).collect()
}

} // verus!
