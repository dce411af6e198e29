use gptranslate::config::{config_json_text, load_config_from_text, Config};

fn full_config_text() -> String {
    String::from(
        "{\n  \"api_provider\": \"azure_openai\",\n  \"openai_api_key\": \"\",\n  \"azure_endpoint\": \"https://example.openai.azure.com/\",\n  \"azure_api_key\": \"k\",\n  \"azure_api_version\": \"2024-08-01-preview\",\n  \"azure_deployment_name\": \"dep\",\n  \"model\": \"gpt-4.1-nano\",\n  \"target_language\": \"Spanish\",\n  \"alternative_target_language\": \"English\",\n  \"auto_start\": false,\n  \"hotkey\": \"Ctrl+Alt+T\",\n  \"theme\": \"dark\",\n  \"minimize_to_tray\": false,\n  \"custom_prompt\": \"Translate.\"\n}",
    )
}

#[test]
fn default_config_values() {
    let c = Config::default();
    assert_eq!(c.api_provider, "openai");
    assert_eq!(c.model, "gpt-4.1-nano");
    assert_eq!(c.azure_deployment_name, "gpt-4.1-nano");
    assert_eq!(c.target_language, "English");
    assert_eq!(c.alternative_target_language, "Norwegian");
    assert!(c.auto_start);
    assert_eq!(c.hotkey, "CommandOrControl+Alt+C");
    assert_eq!(c.theme, "auto");
    assert!(c.minimize_to_tray);
    assert!(c.custom_prompt.contains("{detected_language}"));
    assert!(c.custom_prompt.contains("{target_language}"));
}

#[test]
fn current_schema_loads_as_is() {
    let (c, persist) = load_config_from_text(&full_config_text());
    assert!(!persist);
    assert_eq!(c.api_provider, "azure_openai");
    assert_eq!(c.target_language, "Spanish");
    assert_eq!(c.custom_prompt, "Translate.");
}

#[test]
fn missing_custom_prompt_is_backfilled() {
    let text = "{\"api_provider\": \"openai\", \"openai_api_key\": \"sk\", \"azure_endpoint\": \"\", \"azure_api_key\": \"\", \"azure_api_version\": \"v\", \"azure_deployment_name\": \"d\", \"model\": \"gpt-4.1-nano\", \"target_language\": \"German\", \"alternative_target_language\": \"English\", \"auto_start\": true, \"hotkey\": \"Ctrl+C\", \"theme\": \"auto\", \"minimize_to_tray\": true}";
    let (c, persist) = load_config_from_text(text);
    assert!(persist);
    assert_eq!(c.custom_prompt, Config::default().custom_prompt);
    assert_eq!(c.target_language, "German");
    assert_eq!(c.openai_api_key, "sk");
}

#[test]
fn migration_is_idempotent_through_save() {
    let text = "{\"api_provider\": \"openai\", \"openai_api_key\": \"sk\", \"azure_endpoint\": \"\", \"azure_api_key\": \"\", \"azure_api_version\": \"v\", \"azure_deployment_name\": \"d\", \"model\": \"gpt-4o-mini\", \"target_language\": \"auto\", \"auto_start\": true, \"hotkey\": \"Ctrl+C\", \"theme\": \"auto\", \"minimize_to_tray\": true}";
    let (c, persist) = load_config_from_text(text);
    assert!(persist);
    let saved = config_json_text(&c);
    let (c2, persist2) = load_config_from_text(&saved);
    assert!(!persist2);
    assert_eq!(c2.api_provider, c.api_provider);
    assert_eq!(c2.openai_api_key, c.openai_api_key);
    assert_eq!(c2.azure_endpoint, c.azure_endpoint);
    assert_eq!(c2.azure_api_key, c.azure_api_key);
    assert_eq!(c2.azure_api_version, c.azure_api_version);
    assert_eq!(c2.azure_deployment_name, c.azure_deployment_name);
    assert_eq!(c2.model, c.model);
    assert_eq!(c2.target_language, c.target_language);
    assert_eq!(c2.alternative_target_language, c.alternative_target_language);
    assert_eq!(c2.auto_start, c.auto_start);
    assert_eq!(c2.hotkey, c.hotkey);
    assert_eq!(c2.theme, c.theme);
    assert_eq!(c2.minimize_to_tray, c.minimize_to_tray);
    assert_eq!(c2.custom_prompt, c.custom_prompt);
}

#[test]
fn auto_target_language_migrates_to_english() {
    // an old-schema file: no custom_prompt, so the strict parse fails and
    // the migration path runs
    let text = "{\"api_provider\": \"openai\", \"openai_api_key\": \"\", \"azure_endpoint\": \"\", \"azure_api_key\": \"\", \"azure_api_version\": \"v\", \"azure_deployment_name\": \"d\", \"model\": \"m\", \"target_language\": \"auto\", \"alternative_target_language\": \"English\", \"auto_start\": true, \"hotkey\": \"h\", \"theme\": \"auto\", \"minimize_to_tray\": true}";
    let (c, persist) = load_config_from_text(text);
    assert!(persist);
    assert_eq!(c.target_language, "English");
    assert_eq!(c.model, "m");
}

#[test]
fn auto_target_language_in_a_current_file_is_kept() {
    // with every field present the strict parse succeeds and no coercion runs
    let text = "{\"api_provider\": \"openai\", \"openai_api_key\": \"\", \"azure_endpoint\": \"\", \"azure_api_key\": \"\", \"azure_api_version\": \"v\", \"azure_deployment_name\": \"d\", \"model\": \"m\", \"target_language\": \"auto\", \"alternative_target_language\": \"English\", \"auto_start\": true, \"hotkey\": \"h\", \"theme\": \"auto\", \"minimize_to_tray\": true, \"custom_prompt\": \"p\"}";
    let (c, persist) = load_config_from_text(text);
    assert!(!persist);
    assert_eq!(c.target_language, "auto");
}

#[test]
fn deprecated_model_name_is_replaced() {
    let text = "{\"api_provider\": \"openai\", \"openai_api_key\": \"\", \"azure_endpoint\": \"\", \"azure_api_key\": \"\", \"azure_api_version\": \"v\", \"azure_deployment_name\": \"d\", \"model\": \"gpt-4o-mini\", \"target_language\": \"French\", \"alternative_target_language\": \"English\", \"auto_start\": true, \"hotkey\": \"h\", \"theme\": \"auto\", \"minimize_to_tray\": true}";
    let (c, _) = load_config_from_text(text);
    assert_eq!(c.model, "gpt-4.1-nano");
}

#[test]
fn deprecated_source_language_is_dropped() {
    let text = "{\"api_provider\": \"openai\", \"openai_api_key\": \"\", \"azure_endpoint\": \"\", \"azure_api_key\": \"\", \"azure_api_version\": \"v\", \"azure_deployment_name\": \"d\", \"model\": \"m\", \"source_language\": \"Danish\", \"target_language\": \"French\", \"alternative_target_language\": \"English\", \"auto_start\": true, \"hotkey\": \"h\", \"theme\": \"auto\", \"minimize_to_tray\": true}";
    let (c, persist) = load_config_from_text(text);
    assert!(persist);
    assert_eq!(c.target_language, "French");
    let saved = config_json_text(&c);
    assert!(!saved.contains("source_language"));
}

#[test]
fn unreadable_text_falls_back_to_defaults() {
    let (c, persist) = load_config_from_text("###");
    assert!(persist);
    assert_eq!(c.api_provider, "openai");
    assert_eq!(c.custom_prompt, Config::default().custom_prompt);
    let (c2, persist2) = load_config_from_text("[1, 2]");
    assert!(persist2);
    assert_eq!(c2.model, "gpt-4.1-nano");
}

#[test]
fn config_paths() {
    assert_eq!(Config::get_config_dir("/home/me"), "/home/me/.gptranslate");
    assert_eq!(
        Config::get_config_path("/home/me/.gptranslate"),
        "/home/me/.gptranslate/config.json"
    );
}
