use base64::engine::general_purpose::URL_SAFE;
use base64::engine::Engine;
use rmail::email_content::{choose_text, decode_texts, extract_html_body, extract_plain_text_body};
use rmail::email_content::PartTexts;
use rmail::types::{MessagePart, MessagePartBody};

fn create_message_part(
    mime_type: &str,
    data: Option<&str>,
    parts: Option<Vec<MessagePart>>,
) -> MessagePart {
    MessagePart {
        mime_type: Some(mime_type.to_string()),
        headers: None,
        body: data.map(|d| MessagePartBody { data: Some(URL_SAFE.encode(d)) }),
        parts,
    }
}

fn raw_part(mime_type: &str, data: &str) -> MessagePart {
    MessagePart {
        mime_type: Some(mime_type.to_string()),
        headers: None,
        body: Some(MessagePartBody { data: Some(data.to_string()) }),
        parts: None,
    }
}

fn texts(text: Option<&str>, parts: Vec<PartTexts>) -> PartTexts {
    PartTexts { text: text.map(|t| t.to_string()), parts }
}

#[test]
fn test_extract_plain_text_body_simple() {
    let payload = create_message_part("text/plain", Some("Hello, world!"), None);
    assert_eq!(extract_plain_text_body(&payload), Some("Hello, world!".to_string()));
}

#[test]
fn test_extract_plain_text_body_nested() {
    let inner_plain = create_message_part("text/plain", Some("Inner plain text."), None);
    let inner_html = create_message_part("text/html", Some("<b>Inner HTML</b>"), None);
    let multipart =
        create_message_part("multipart/alternative", None, Some(vec![inner_html, inner_plain]));
    assert_eq!(extract_plain_text_body(&multipart), Some("Inner plain text.".to_string()));
}

#[test]
fn test_extract_plain_text_body_no_plain_text() {
    let inner_html = create_message_part("text/html", Some("<b>Inner HTML</b>"), None);
    let multipart = create_message_part("multipart/alternative", None, Some(vec![inner_html]));
    assert_eq!(extract_plain_text_body(&multipart), None);
}

#[test]
fn test_extract_plain_text_body_empty() {
    let payload = create_message_part("text/plain", Some(""), None);
    assert_eq!(extract_plain_text_body(&payload), Some("".to_string()));
}

#[test]
fn test_extract_html_body_simple() {
    let payload = create_message_part("text/html", Some("<b>Hello, HTML!</b>"), None);
    assert_eq!(extract_html_body(&payload), Some("<b>Hello, HTML!</b>".to_string()));
}

#[test]
fn test_extract_html_body_nested() {
    let inner_plain = create_message_part("text/plain", Some("Inner plain text."), None);
    let inner_html = create_message_part("text/html", Some("<b>Inner HTML</b>"), None);
    let multipart =
        create_message_part("multipart/alternative", None, Some(vec![inner_plain, inner_html]));
    assert_eq!(extract_html_body(&multipart), Some("<b>Inner HTML</b>".to_string()));
}

#[test]
fn test_extract_html_body_no_html() {
    let inner_plain = create_message_part("text/plain", Some("Inner plain text."), None);
    let multipart = create_message_part("multipart/alternative", None, Some(vec![inner_plain]));
    assert_eq!(extract_html_body(&multipart), None);
}

#[test]
fn test_extract_html_body_empty() {
    let payload = create_message_part("text/html", Some(""), None);
    assert_eq!(extract_html_body(&payload), Some("".to_string()));
}

#[test]
fn decodes_known_base64_text() {
    let payload = raw_part("text/plain", "SGVsbG8sIHdvcmxkIQ==");
    assert_eq!(extract_plain_text_body(&payload), Some("Hello, world!".to_string()));
    let html = raw_part("text/html", "PGI-w7w_Pj48L2I-");
    assert_eq!(extract_html_body(&html), Some("<b>\u{fc}?>></b>".to_string()));
}

#[test]
fn rejects_what_is_no_base64_or_no_utf8() {
    assert_eq!(extract_plain_text_body(&raw_part("text/plain", "not base64!")), None);
    assert_eq!(extract_plain_text_body(&raw_part("text/plain", "SGVsbG8")), None);
    assert_eq!(extract_plain_text_body(&raw_part("text/plain", "__79")), None);
}

#[test]
fn a_blank_part_is_passed_over_among_siblings() {
    let blank = create_message_part("text/plain", Some("  \t\n"), None);
    let unicode_blank = create_message_part("text/plain", Some("\u{a0}\u{2003}\u{3000}"), None);
    let text = create_message_part("text/plain", Some("  kept  "), None);
    let later = create_message_part("text/plain", Some("later"), None);
    let multipart = create_message_part(
        "multipart/mixed",
        None,
        Some(vec![blank, unicode_blank, text, later]),
    );
    assert_eq!(extract_plain_text_body(&multipart), Some("  kept  ".to_string()));
}

#[test]
fn a_blank_root_is_returned_as_it_is() {
    let inner = create_message_part("text/plain", Some("inner"), None);
    let root = create_message_part("text/plain", Some("   "), Some(vec![inner]));
    assert_eq!(extract_plain_text_body(&root), Some("   ".to_string()));
}

#[test]
fn search_goes_depth_first() {
    let deep = create_message_part("text/plain", Some("deep"), None);
    let first = create_message_part("multipart/related", None, Some(vec![deep]));
    let shallow = create_message_part("text/plain", Some("shallow"), None);
    let root = create_message_part("multipart/mixed", None, Some(vec![first, shallow]));
    assert_eq!(extract_plain_text_body(&root), Some("deep".to_string()));
}

#[test]
fn a_part_without_type_or_body_gives_nothing() {
    let none = MessagePart::default();
    assert_eq!(extract_plain_text_body(&none), None);
    let no_data = MessagePart {
        mime_type: Some("text/plain".to_string()),
        headers: None,
        body: Some(MessagePartBody { data: None }),
        parts: Some(vec![]),
    };
    assert_eq!(extract_plain_text_body(&no_data), None);
}

#[test]
fn choose_text_prefers_the_root_and_skips_blank_parts() {
    assert_eq!(choose_text(&texts(Some("root"), vec![texts(Some("x"), vec![])])), Some("root".to_string()));
    assert_eq!(
        choose_text(&texts(None, vec![texts(Some(" \r\n"), vec![]), texts(Some("b"), vec![])])),
        Some("b".to_string())
    );
    assert_eq!(choose_text(&texts(None, vec![texts(Some(" "), vec![])])), None);
    assert_eq!(choose_text(&texts(None, vec![])), None);
    assert_eq!(
        choose_text(&texts(None, vec![texts(None, vec![texts(Some("deep"), vec![])]), texts(Some("late"), vec![])])),
        Some("deep".to_string())
    );
}

#[test]
fn decode_texts_keeps_the_shape_of_the_tree() {
    let inner_plain = create_message_part("text/plain", Some("p"), None);
    let inner_html = create_message_part("text/html", Some("h"), None);
    let root = create_message_part("multipart/alternative", None, Some(vec![inner_plain, inner_html]));
    let t = decode_texts(&root, "text/html");
    assert_eq!(t.text, None);
    assert_eq!(t.parts.len(), 2);
    assert_eq!(t.parts[0].text, None);
    assert_eq!(t.parts[1].text, Some("h".to_string()));
    assert!(t.parts[1].parts.is_empty());
}
