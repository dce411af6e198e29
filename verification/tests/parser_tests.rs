use gptranslate::parse::{parse_api_response, parse_translation_content};
use gptranslate::Error;

#[test]
fn wellformed_json_is_extracted() {
    let r = parse_translation_content(
        "{\"detected_language\": \"German\", \"translated_text\": \"Hallo Welt\"}",
    );
    assert_eq!(r.detected_language, "German");
    assert_eq!(r.translated_text, "Hallo Welt");
}

#[test]
fn prose_around_json_is_extracted() {
    let r = parse_translation_content(
        "Sure! {\"detected_language\":\"French\",\"translated_text\":\"Bonjour\"} Hope that helps!",
    );
    assert_eq!(r.detected_language, "French");
    assert_eq!(r.translated_text, "Bonjour");
}

#[test]
fn plain_text_passes_through() {
    let r = parse_translation_content("just a plain answer with no braces");
    assert_eq!(r.detected_language, "unknown");
    assert_eq!(r.translated_text, "just a plain answer with no braces");
}

#[test]
fn control_characters_are_stripped() {
    let r = parse_translation_content(
        "{\"detected_language\": \"English\",\u{1} \"translated_text\": \"ok\"}\u{7}",
    );
    assert_eq!(r.detected_language, "English");
    assert_eq!(r.translated_text, "ok");
}

#[test]
fn nested_braces_are_balanced() {
    let r = parse_translation_content(
        "note {\"detected_language\":\"x\",\"translated_text\":\"a {b} c\",\"extra\":{\"k\":1}} done",
    );
    assert_eq!(r.detected_language, "x");
    assert_eq!(r.translated_text, "a {b} c");
}

#[test]
fn unbalanced_brace_falls_back() {
    let r = parse_translation_content("oops { this never closes");
    assert_eq!(r.detected_language, "unknown");
    assert_eq!(r.translated_text, "oops { this never closes");
}

#[test]
fn missing_translated_text_yields_marker() {
    let r = parse_translation_content("{\"detected_language\":\"Dutch\"}");
    assert_eq!(r.detected_language, "Dutch");
    assert_eq!(r.translated_text, "translation failed");
}

#[test]
fn bare_string_document_is_the_translation() {
    let r = parse_translation_content("\"bonjour tout le monde\"");
    assert_eq!(r.detected_language, "unknown");
    assert_eq!(r.translated_text, "bonjour tout le monde");
}

#[test]
fn empty_detected_language_is_kept() {
    let r = parse_translation_content("{\"detected_language\":\"\",\"translated_text\":\"x\"}");
    assert_eq!(r.detected_language, "");
    assert_eq!(r.translated_text, "x");
}

#[test]
fn api_response_content_is_parsed() {
    let body = "{\"choices\":[{\"message\":{\"content\":\"{\\\"detected_language\\\":\\\"Spanish\\\",\\\"translated_text\\\":\\\"Hola\\\"}\"}}]}";
    let r = parse_api_response(body).unwrap();
    assert_eq!(r.detected_language, "Spanish");
    assert_eq!(r.translated_text, "Hola");
}

#[test]
fn api_response_without_content_is_an_error() {
    let e = parse_api_response("{\"choices\":[]}").unwrap_err();
    match e {
        Error::ApiError(m) => assert_eq!(m, "No content in response"),
        _ => panic!("expected an api error"),
    }
    let e2 = parse_api_response("not even json").unwrap_err();
    assert_eq!(e2.message(), "API error: No content in response");
}

#[test]
fn error_messages() {
    assert_eq!(Error::DuplicateRequest.message(), "Duplicate request");
    assert_eq!(
        Error::ApiError(String::from("boom")).message(),
        "API error: boom"
    );
}
