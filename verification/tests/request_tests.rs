use gptranslate::config::Config;
use gptranslate::request::{
    extract_api_version_from_url, plan_key_validation, plan_request, str_contains,
};
use gptranslate::text::preprocess_text;

#[test]
fn preprocessing_trims_lines_and_keeps_blank_ones() {
    assert_eq!(preprocess_text("a \n\n  b  \n"), "a\n\nb");
}

#[test]
fn preprocessing_handles_plain_and_windows_line_breaks() {
    assert_eq!(preprocess_text("  hello  "), "hello");
    assert_eq!(preprocess_text("one\r\ntwo\r\n"), "one\ntwo");
    assert_eq!(preprocess_text(""), "");
    assert_eq!(preprocess_text("\n"), "");
}

#[test]
fn openai_request_plan() {
    let mut c = Config::default();
    c.openai_api_key = String::from("sk-test");
    c.custom_prompt = String::from("Translate this.");
    let p = plan_request(&c, "hola");
    assert_eq!(p.url, "https://api.openai.com/v1/chat/completions");
    assert_eq!(p.header_name, "Authorization");
    assert_eq!(p.header_value, "Bearer sk-test");
    assert!(p.body.contains("\"model\":\"gpt-4.1-nano\""));
    assert!(p.body.contains("\"max_tokens\":800"));
    assert!(p.body.contains("\"temperature\":0.3"));
    assert!(p.body.contains("Text to translate: \\\"hola\\\""));
    assert!(p.body.contains("Translate this."));
    assert!(p.body.contains("Alternative Language Logic"));
    assert!(p.body.contains("- Primary target language: English"));
    assert!(p.body.contains("- Alternative target language: Norwegian"));
}

#[test]
fn azure_request_plan_sends_no_model() {
    let mut c = Config::default();
    c.api_provider = String::from("azure_openai");
    c.azure_endpoint = String::from("https://example.openai.azure.com/");
    c.azure_api_key = String::from("azkey");
    c.azure_deployment_name = String::from("dep");
    c.azure_api_version = String::from("2024-08-01-preview");
    let p = plan_request(&c, "hi");
    assert_eq!(
        p.url,
        "https://example.openai.azure.com/openai/deployments/dep/chat/completions?api-version=2024-08-01-preview"
    );
    assert_eq!(p.header_name, "api-key");
    assert_eq!(p.header_value, "azkey");
    assert!(!p.body.contains("\"model\""));
}

#[test]
fn request_body_is_valid_json_with_escapes() {
    let mut c = Config::default();
    c.custom_prompt = String::from("Line one\nLine \"two\"");
    let p = plan_request(&c, "multi\nline text");
    let v: serde_json::Value = serde_json::from_str(&p.body).unwrap();
    assert_eq!(v["max_tokens"], 800);
    let system = v["messages"][0]["content"][0]["text"].as_str().unwrap();
    assert!(system.starts_with("Line one\nLine \"two\""));
    let user = v["messages"][1]["content"].as_str().unwrap();
    assert_eq!(user, "Text to translate: \"multi\nline text\"");
}

#[test]
fn api_version_extraction() {
    assert_eq!(
        extract_api_version_from_url(
            "https://example.com/openai?api-version=2024-08-01-preview"
        ),
        Some(String::from("2024-08-01-preview"))
    );
    assert_eq!(
        extract_api_version_from_url("https://example.com/openai?other=1"),
        None
    );
    assert_eq!(extract_api_version_from_url("not a url"), None);
}

#[test]
fn substring_search() {
    assert!(str_contains("x.services.ai.azure.com/y", "services.ai.azure.com"));
    assert!(!str_contains("example.openai.azure.com", "services.ai.azure.com"));
    assert!(str_contains("abc", ""));
    assert!(!str_contains("ab", "abc"));
}

#[test]
fn openai_validation_plan() {
    let p = plan_key_validation("openai", "sk", &None, &None).unwrap();
    assert_eq!(p.url, "https://api.openai.com/v1/models");
    assert_eq!(p.header_name, "Authorization");
    assert_eq!(p.header_value, "Bearer sk");
}

#[test]
fn azure_validation_plan_uses_given_version() {
    let p = plan_key_validation(
        "azure_openai",
        "k",
        &Some(String::from("https://e.openai.azure.com/")),
        &Some(String::from("v9")),
    )
    .unwrap();
    assert_eq!(p.url, "https://e.openai.azure.com/openai/models?api-version=v9");
    assert_eq!(p.header_name, "api-key");
    assert_eq!(p.header_value, "k");
}

#[test]
fn azure_validation_plan_extracts_version_from_endpoint() {
    let p = plan_key_validation(
        "azure_openai",
        "k",
        &Some(String::from("https://e.openai.azure.com/?api-version=from-url")),
        &None,
    )
    .unwrap();
    assert!(p.url.ends_with("api-version=from-url"));
    let p2 = plan_key_validation(
        "azure_openai",
        "k",
        &Some(String::from("https://e.openai.azure.com")),
        &None,
    )
    .unwrap();
    assert_eq!(
        p2.url,
        "https://e.openai.azure.com/openai/models?api-version=2025-01-01-preview"
    );
}

#[test]
fn azure_models_endpoint_validates_under_models() {
    let p = plan_key_validation(
        "azure_openai",
        "k",
        &Some(String::from("https://e.services.ai.azure.com/")),
        &Some(String::from("v")),
    )
    .unwrap();
    assert_eq!(p.url, "https://e.services.ai.azure.com/models?api-version=v");
}

#[test]
fn validation_errors() {
    let e = plan_key_validation("azure_openai", "k", &None, &None).unwrap_err();
    assert_eq!(e, "Azure endpoint is required");
    let e2 = plan_key_validation("other", "k", &None, &None).unwrap_err();
    assert_eq!(e2, "Unsupported API provider");
}
