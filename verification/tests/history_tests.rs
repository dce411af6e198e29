use gptranslate::history::{
    add_translation_to_history, clear_translation_history, history_from_text, history_json_text,
    TranslationEntry, TranslationHistory,
};

fn entry(n: usize) -> TranslationEntry {
    TranslationEntry {
        id: format!("id-{}", n),
        original_text: format!("original {}", n),
        translated_text: format!("translated {}", n),
        detected_language: String::from("English"),
        target_language: String::from("Norwegian"),
        timestamp: String::from("2024-01-01T00:00:00Z"),
    }
}

#[test]
fn newest_entry_is_first() {
    let mut h = TranslationHistory::new();
    h.add_entry(entry(1));
    h.add_entry(entry(2));
    assert_eq!(h.entries.len(), 2);
    assert_eq!(h.entries[0].original_text, "original 2");
    assert_eq!(h.entries[1].original_text, "original 1");
}

#[test]
fn store_is_capped_at_one_hundred() {
    let mut h = TranslationHistory::new();
    for n in 0..100 {
        h.add_entry(entry(n));
    }
    assert_eq!(h.entries.len(), 100);
    h.add_entry(entry(100));
    assert_eq!(h.entries.len(), 100);
    assert_eq!(h.entries[0].original_text, "original 100");
    assert_eq!(h.entries[99].original_text, "original 1");
}

#[test]
fn clearing_empties_the_store() {
    let mut h = TranslationHistory::new();
    h.add_entry(entry(1));
    clear_translation_history(&mut h);
    assert_eq!(h.entries.len(), 0);
}

#[test]
fn recorded_translations_carry_fresh_ids() {
    let mut h = TranslationHistory::new();
    add_translation_to_history(
        &mut h,
        String::from("bonjour"),
        String::from("hello"),
        String::from("French"),
        String::from("English"),
    );
    add_translation_to_history(
        &mut h,
        String::from("hallo"),
        String::from("hello"),
        String::from("German"),
        String::from("English"),
    );
    assert_eq!(h.entries.len(), 2);
    assert_eq!(h.entries[0].original_text, "hallo");
    assert_eq!(h.entries[0].id.len(), 36);
    assert_ne!(h.entries[0].id, h.entries[1].id);
    assert!(!h.entries[0].timestamp.is_empty());
}

#[test]
fn file_text_round_trips() {
    let mut h = TranslationHistory::new();
    h.add_entry(entry(1));
    h.add_entry(entry(2));
    let text = history_json_text(&h);
    let back = history_from_text(&text);
    assert_eq!(back.entries.len(), 2);
    assert_eq!(back.entries[0].id, "id-2");
    assert_eq!(back.entries[0].translated_text, "translated 2");
    assert_eq!(back.entries[1].original_text, "original 1");
    assert_eq!(back.entries[1].timestamp, "2024-01-01T00:00:00Z");
}

#[test]
fn file_text_escapes_content() {
    let mut h = TranslationHistory::new();
    let mut e = entry(1);
    e.translated_text = String::from("line one\nline \"two\" \\ end");
    h.add_entry(e);
    let text = history_json_text(&h);
    let back = history_from_text(&text);
    assert_eq!(back.entries[0].translated_text, "line one\nline \"two\" \\ end");
}

#[test]
fn malformed_history_text_yields_empty_store() {
    assert_eq!(history_from_text("not json").entries.len(), 0);
    assert_eq!(history_from_text("{\"entries\": 3}").entries.len(), 0);
    assert_eq!(
        history_from_text("{\"entries\":[{\"id\":\"a\"}]}").entries.len(),
        0
    );
    assert_eq!(history_from_text("{\"entries\":[]}").entries.len(), 0);
}
