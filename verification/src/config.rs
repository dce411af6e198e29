//! Configuration: provider credentials, prompt template and language
//! preferences, loaded from and saved to a flat JSON record. Loading is
//! tolerant: a file written by an older release is migrated forward —
//! missing fields backfilled, deprecated fields dropped, obsolete sentinel
//! values coerced — and the migrated record is persisted.

use crate::json::{
    bool_binding, get_bool_binding, get_text_binding, json_doc_of, obj_get, obj_lookup, obj_remove,
    obj_set, parse_json_chars, push_json_quoted, spec_json_string, JsonValue,
};
use crate::text::{chars_of, push_str_chars, string_of};
use vstd::prelude::*;
use vstd::string::StringExecFns;

verus! {

/// The configuration record. `api_provider` selects the active provider:
/// `azure_openai` routes calls to the Azure endpoint, anything else to
/// OpenAI.
#[derive(Debug, Clone)]
pub struct Config {
    pub api_provider: String,
    pub openai_api_key: String,
    pub azure_endpoint: String,
    pub azure_api_key: String,
    pub azure_api_version: String,
    pub azure_deployment_name: String,
    pub model: String,
    pub target_language: String,
    pub alternative_target_language: String,
    pub auto_start: bool,
    pub hotkey: String,
    pub theme: String,
    pub minimize_to_tray: bool,
    pub custom_prompt: String,
}

/// The upstream back end a configuration selects. Exactly one variant is
/// active at a time: the `azure_openai` selector names the Azure-hosted
/// back end, every other value the OpenAI one.
#[derive(Debug, Clone, Copy, PartialEq, Eq, Structural)]
pub enum ApiProvider {
    OpenAI,
    AzureOpenAI,
}

/// The provider the configuration's selector names.
pub open spec fn spec_provider(c: Config) -> ApiProvider {
    if c.api_provider@ == "azure_openai"@ {
        ApiProvider::AzureOpenAI
    } else {
        ApiProvider::OpenAI
    }
}

/// The default prompt template; `{detected_language}` and
/// `{target_language}` are substitutable placeholders.
pub open spec fn spec_default_custom_prompt() -> Seq<char> {
    "Translate the given text from {detected_language} to {target_language} accurately while preserving the meaning, tone, and nuance of the original content.\n\n# Additional Details\n- Ensure the translation retains the context, cultural meaning, tone, formal/informal style, and any idiomatic expressions.\n- Do **not** alter names, technical terms, or specific formatting unless required for grammatical correctness in the target language.\n- If the detected language is the same as the target language, choose the most appropriate alternative language for translation.\n\n# Output Format\nThe translation output should be provided as valid JSON containing 'detected_language' and 'translated_text' fields.\n\n# Notes\n- Ensure punctuation and capitalization match the norms of the target language.\n- When encountering idiomatic expressions, adapt them to equivalent phrases in the target language rather than direct word-for-word translation.\n- For ambiguous content, aim for the most contextually appropriate meaning.\n- Take into consideration the whole text and what it is about."@
}

/// The default prompt template as a `String`.
pub fn default_custom_prompt() -> (r: String)
    ensures
        r@ == spec_default_custom_prompt(),
{
    String::from_str(
        "Translate the given text from {detected_language} to {target_language} accurately while preserving the meaning, tone, and nuance of the original content.\n\n# Additional Details\n- Ensure the translation retains the context, cultural meaning, tone, formal/informal style, and any idiomatic expressions.\n- Do **not** alter names, technical terms, or specific formatting unless required for grammatical correctness in the target language.\n- If the detected language is the same as the target language, choose the most appropriate alternative language for translation.\n\n# Output Format\nThe translation output should be provided as valid JSON containing 'detected_language' and 'translated_text' fields.\n\n# Notes\n- Ensure punctuation and capitalization match the norms of the target language.\n- When encountering idiomatic expressions, adapt them to equivalent phrases in the target language rather than direct word-for-word translation.\n- For ambiguous content, aim for the most contextually appropriate meaning.\n- Take into consideration the whole text and what it is about.",
    )
}

/// What the default configuration holds.
pub open spec fn spec_is_default_config(c: Config) -> bool {
    &&& c.api_provider@ == "openai"@
    &&& c.openai_api_key@ == ""@
    &&& c.azure_endpoint@ == ""@
    &&& c.azure_api_key@ == ""@
    &&& c.azure_api_version@ == "2024-08-01-preview"@
    &&& c.azure_deployment_name@ == "gpt-4.1-nano"@
    &&& c.model@ == "gpt-4.1-nano"@
    &&& c.target_language@ == "English"@
    &&& c.alternative_target_language@ == "Norwegian"@
    &&& c.auto_start == true
    &&& c.hotkey@ == "CommandOrControl+Alt+C"@
    &&& c.theme@ == "auto"@
    &&& c.minimize_to_tray == true
    &&& c.custom_prompt@ == spec_default_custom_prompt()
}

impl Default for Config {
    /// The configuration used when no file exists or nothing else can be
    /// recovered.
    fn default() -> (r: Self)
        ensures
            spec_is_default_config(r),
    {
        Config {
            api_provider: String::from_str("openai"),
            openai_api_key: String::from_str(""),
            azure_endpoint: String::from_str(""),
            azure_api_key: String::from_str(""),
            azure_api_version: String::from_str("2024-08-01-preview"),
            azure_deployment_name: String::from_str("gpt-4.1-nano"),
            model: String::from_str("gpt-4.1-nano"),
            target_language: String::from_str("English"),
            alternative_target_language: String::from_str("Norwegian"),
            auto_start: true,
            hotkey: String::from_str("CommandOrControl+Alt+C"),
            theme: String::from_str("auto"),
            minimize_to_tray: true,
            custom_prompt: default_custom_prompt(),
        }
    }
}

impl Config {
    /// The configuration directory under the user's home directory; the
    /// application resolves the home directory and creates the directory.
    pub fn get_config_dir(home_dir: &str) -> (r: String)
        ensures
            r@ == home_dir@ + "/.gptranslate"@,
    {
        String::from_str(home_dir).concat("/.gptranslate")
    }

    /// The configuration file's path inside the configuration directory.
    pub fn get_config_path(config_dir: &str) -> (r: String)
        ensures
            r@ == config_dir@ + "/config.json"@,
    {
        String::from_str(config_dir).concat("/config.json")
    }

    /// The active provider, per `spec_provider`.
    pub fn provider(&self) -> (r: ApiProvider)
        ensures
            r == spec_provider(*self),
    {
        if crate::text::str_eq(self.api_provider.as_str(), "azure_openai") {
            ApiProvider::AzureOpenAI
        } else {
            ApiProvider::OpenAI
        }
    }
}

/// Whether the fields bind every configuration key to a value of its type;
/// exactly then does the strict parse succeed.
pub open spec fn config_fields_ok(f: Seq<(String, JsonValue)>) -> bool {
    &&& crate::json::text_binding(f, "api_provider"@) is Some
    &&& crate::json::text_binding(f, "openai_api_key"@) is Some
    &&& crate::json::text_binding(f, "azure_endpoint"@) is Some
    &&& crate::json::text_binding(f, "azure_api_key"@) is Some
    &&& crate::json::text_binding(f, "azure_api_version"@) is Some
    &&& crate::json::text_binding(f, "azure_deployment_name"@) is Some
    &&& crate::json::text_binding(f, "model"@) is Some
    &&& crate::json::text_binding(f, "target_language"@) is Some
    &&& crate::json::text_binding(f, "alternative_target_language"@) is Some
    &&& bool_binding(f, "auto_start"@) is Some
    &&& crate::json::text_binding(f, "hotkey"@) is Some
    &&& crate::json::text_binding(f, "theme"@) is Some
    &&& bool_binding(f, "minimize_to_tray"@) is Some
    &&& crate::json::text_binding(f, "custom_prompt"@) is Some
}

/// Whether `c` carries exactly what the fields bind.
pub open spec fn config_matches_fields(c: Config, f: Seq<(String, JsonValue)>) -> bool {
    &&& crate::json::text_binding(f, "api_provider"@) == Some(c.api_provider@)
    &&& crate::json::text_binding(f, "openai_api_key"@) == Some(c.openai_api_key@)
    &&& crate::json::text_binding(f, "azure_endpoint"@) == Some(c.azure_endpoint@)
    &&& crate::json::text_binding(f, "azure_api_key"@) == Some(c.azure_api_key@)
    &&& crate::json::text_binding(f, "azure_api_version"@) == Some(c.azure_api_version@)
    &&& crate::json::text_binding(f, "azure_deployment_name"@) == Some(c.azure_deployment_name@)
    &&& crate::json::text_binding(f, "model"@) == Some(c.model@)
    &&& crate::json::text_binding(f, "target_language"@) == Some(c.target_language@)
    &&& crate::json::text_binding(f, "alternative_target_language"@) == Some(
        c.alternative_target_language@,
    )
    &&& bool_binding(f, "auto_start"@) == Some(c.auto_start)
    &&& crate::json::text_binding(f, "hotkey"@) == Some(c.hotkey@)
    &&& crate::json::text_binding(f, "theme"@) == Some(c.theme@)
    &&& bool_binding(f, "minimize_to_tray"@) == Some(c.minimize_to_tray)
    &&& crate::json::text_binding(f, "custom_prompt"@) == Some(c.custom_prompt@)
}

/// The strict parse: a configuration from fields that bind every key to a
/// value of its type; `None` exactly when some key is missing or of the
/// wrong type.
pub fn config_from_fields(fields: &Vec<(String, JsonValue)>) -> (r: Option<Config>)
    ensures
        match r {
            Some(c) => config_fields_ok(fields@) && config_matches_fields(c, fields@),
            None => !config_fields_ok(fields@),
        },
{
    let api_provider = match get_text_binding(fields, "api_provider") {
        Some(s) => s,
        None => {
            return None;
        },
    };
    let openai_api_key = match get_text_binding(fields, "openai_api_key") {
        Some(s) => s,
        None => {
            return None;
        },
    };
    let azure_endpoint = match get_text_binding(fields, "azure_endpoint") {
        Some(s) => s,
        None => {
            return None;
        },
    };
    let azure_api_key = match get_text_binding(fields, "azure_api_key") {
        Some(s) => s,
        None => {
            return None;
        },
    };
    let azure_api_version = match get_text_binding(fields, "azure_api_version") {
        Some(s) => s,
        None => {
            return None;
        },
    };
    let azure_deployment_name = match get_text_binding(fields, "azure_deployment_name") {
        Some(s) => s,
        None => {
            return None;
        },
    };
    let model = match get_text_binding(fields, "model") {
        Some(s) => s,
        None => {
            return None;
        },
    };
    let target_language = match get_text_binding(fields, "target_language") {
        Some(s) => s,
        None => {
            return None;
        },
    };
    let alternative_target_language = match get_text_binding(
        fields,
        "alternative_target_language",
    ) {
        Some(s) => s,
        None => {
            return None;
        },
    };
    let auto_start = match get_bool_binding(fields, "auto_start") {
        Some(b) => b,
        None => {
            return None;
        },
    };
    let hotkey = match get_text_binding(fields, "hotkey") {
        Some(s) => s,
        None => {
            return None;
        },
    };
    let theme = match get_text_binding(fields, "theme") {
        Some(s) => s,
        None => {
            return None;
        },
    };
    let minimize_to_tray = match get_bool_binding(fields, "minimize_to_tray") {
        Some(b) => b,
        None => {
            return None;
        },
    };
    let custom_prompt = match get_text_binding(fields, "custom_prompt") {
        Some(s) => s,
        None => {
            return None;
        },
    };
    Some(
        Config {
            api_provider,
            openai_api_key,
            azure_endpoint,
            azure_api_key,
            azure_api_version,
            azure_deployment_name,
            model,
            target_language,
            alternative_target_language,
            auto_start,
            hotkey,
            theme,
            minimize_to_tray,
            custom_prompt,
        },
    )
}

/// What the one-way forward migration does to an old record's fields.
pub open spec fn migrate_rel(oldf: Seq<(String, JsonValue)>, newf: Seq<(String, JsonValue)>) -> bool {
    &&& match obj_lookup(oldf, "custom_prompt"@) {
        Some(v) => obj_lookup(newf, "custom_prompt"@) == Some(v),
        None => crate::json::text_binding(newf, "custom_prompt"@) == Some(
            spec_default_custom_prompt(),
        ),
    }
    &&& match obj_lookup(oldf, "alternative_target_language"@) {
        Some(v) => obj_lookup(newf, "alternative_target_language"@) == Some(v),
        None => crate::json::text_binding(newf, "alternative_target_language"@) == Some(
            "Norwegian"@,
        ),
    }
    &&& match obj_lookup(oldf, "model"@) {
        Some(JsonValue::Text(s)) => if s@ == "gpt-4o-mini"@ {
            crate::json::text_binding(newf, "model"@) == Some("gpt-4.1-nano"@)
        } else {
            obj_lookup(newf, "model"@) == Some(JsonValue::Text(s))
        },
        Some(v) => obj_lookup(newf, "model"@) == Some(v),
        None => crate::json::text_binding(newf, "model"@) == Some("gpt-4.1-nano"@),
    }
    &&& obj_lookup(newf, "source_language"@) is None
    &&& match obj_lookup(oldf, "target_language"@) {
        Some(JsonValue::Text(s)) => if s@ == "auto"@ {
            crate::json::text_binding(newf, "target_language"@) == Some("English"@)
        } else {
            obj_lookup(newf, "target_language"@) == Some(JsonValue::Text(s))
        },
        Some(v) => obj_lookup(newf, "target_language"@) == Some(v),
        None => crate::json::text_binding(newf, "target_language"@) == Some("English"@),
    }
    &&& forall|k: Seq<char>|
        k != "custom_prompt"@ && k != "alternative_target_language"@ && k != "model"@ && k
            != "source_language"@ && k != "target_language"@ ==> #[trigger] obj_lookup(newf, k)
            == obj_lookup(oldf, k)
}

/// The five keys the migration touches are five different keys.
proof fn lemma_migration_keys_distinct()
    ensures
        "custom_prompt"@ != "alternative_target_language"@,
        "custom_prompt"@ != "model"@,
        "custom_prompt"@ != "source_language"@,
        "custom_prompt"@ != "target_language"@,
        "alternative_target_language"@ != "model"@,
        "alternative_target_language"@ != "source_language"@,
        "alternative_target_language"@ != "target_language"@,
        "model"@ != "source_language"@,
        "model"@ != "target_language"@,
        "source_language"@ != "target_language"@,
{
    reveal_strlit("custom_prompt");
    reveal_strlit("alternative_target_language");
    reveal_strlit("model");
    reveal_strlit("source_language");
    reveal_strlit("target_language");
    assert("custom_prompt"@.len() == 13);
    assert("alternative_target_language"@.len() == 27);
    assert("model"@.len() == 5);
    assert("source_language"@.len() == 15);
    assert("target_language"@.len() == 15);
    assert("source_language"@[0] == 's');
    assert("target_language"@[0] == 't');
}

/// The one-way forward migration of an old record: backfill the prompt
/// template and the alternative language, replace the deprecated default
/// model name, drop the deprecated `source_language` field, and coerce
/// `target_language` away from the obsolete `auto` sentinel.
pub fn migrate_config_fields(fields: Vec<(String, JsonValue)>) -> (r: Vec<(String, JsonValue)>)
    ensures
        migrate_rel(fields@, r@),
{
    proof {
        lemma_migration_keys_distinct();
    }
    let mut f = fields;
    let needs_prompt = obj_get(&f, "custom_prompt").is_none();
    if needs_prompt {
        f = obj_set(f, "custom_prompt", JsonValue::Text(default_custom_prompt()));
    }
    let needs_alt = obj_get(&f, "alternative_target_language").is_none();
    if needs_alt {
        f = obj_set(
            f,
            "alternative_target_language",
            JsonValue::Text(String::from_str("Norwegian")),
        );
    }
    let replace_model = match obj_get(&f, "model") {
        Some(v) => match v {
            JsonValue::Text(s) => crate::text::str_eq(s.as_str(), "gpt-4o-mini"),
            _ => false,
        },
        None => true,
    };
    if replace_model {
        f = obj_set(f, "model", JsonValue::Text(String::from_str("gpt-4.1-nano")));
    }
    proof {
        crate::json::lemma_obj_remove_lookup(f@, "source_language"@);
    }
    f = obj_remove(f, "source_language");
    let replace_target = match obj_get(&f, "target_language") {
        Some(v) => match v {
            JsonValue::Text(s) => crate::text::str_eq(s.as_str(), "auto"),
            _ => false,
        },
        None => true,
    };
    if replace_target {
        f = obj_set(f, "target_language", JsonValue::Text(String::from_str("English")));
    }
    f
}

/// The boolean's JSON text.
pub open spec fn spec_bool_text(b: bool) -> Seq<char> {
    if b {
        "true"@
    } else {
        "false"@
    }
}

/// The configuration file's text for `c`: a pretty-printed flat JSON
/// object, one field per line, in the record's own field order.
pub open spec fn spec_config_json(c: Config) -> Seq<char> {
    "{\n  \"api_provider\": "@ + spec_json_string(c.api_provider@)
        + ",\n  \"openai_api_key\": "@ + spec_json_string(c.openai_api_key@)
        + ",\n  \"azure_endpoint\": "@ + spec_json_string(c.azure_endpoint@)
        + ",\n  \"azure_api_key\": "@ + spec_json_string(c.azure_api_key@)
        + ",\n  \"azure_api_version\": "@ + spec_json_string(c.azure_api_version@)
        + ",\n  \"azure_deployment_name\": "@ + spec_json_string(c.azure_deployment_name@)
        + ",\n  \"model\": "@ + spec_json_string(c.model@) + ",\n  \"target_language\": "@
        + spec_json_string(c.target_language@) + ",\n  \"alternative_target_language\": "@
        + spec_json_string(c.alternative_target_language@) + ",\n  \"auto_start\": "@
        + spec_bool_text(c.auto_start) + ",\n  \"hotkey\": "@ + spec_json_string(c.hotkey@)
        + ",\n  \"theme\": "@ + spec_json_string(c.theme@) + ",\n  \"minimize_to_tray\": "@
        + spec_bool_text(c.minimize_to_tray) + ",\n  \"custom_prompt\": "@ + spec_json_string(
        c.custom_prompt@,
    ) + "\n}"@
}

fn push_bool_text(out: &mut Vec<char>, b: bool)
    ensures
        final(out)@ == old(out)@ + spec_bool_text(b),
{
    if b {
        push_str_chars(out, "true");
    } else {
        push_str_chars(out, "false");
    }
}

/// The text written to the configuration file for `c`.
pub fn config_json_text(c: &Config) -> (r: String)
    ensures
        r@ == spec_config_json(*c),
{
    let mut out: Vec<char> = Vec::new();
    push_str_chars(&mut out, "{\n  \"api_provider\": ");
    push_json_quoted(&mut out, c.api_provider.as_str());
    push_str_chars(&mut out, ",\n  \"openai_api_key\": ");
    push_json_quoted(&mut out, c.openai_api_key.as_str());
    push_str_chars(&mut out, ",\n  \"azure_endpoint\": ");
    push_json_quoted(&mut out, c.azure_endpoint.as_str());
    push_str_chars(&mut out, ",\n  \"azure_api_key\": ");
    push_json_quoted(&mut out, c.azure_api_key.as_str());
    push_str_chars(&mut out, ",\n  \"azure_api_version\": ");
    push_json_quoted(&mut out, c.azure_api_version.as_str());
    push_str_chars(&mut out, ",\n  \"azure_deployment_name\": ");
    push_json_quoted(&mut out, c.azure_deployment_name.as_str());
    push_str_chars(&mut out, ",\n  \"model\": ");
    push_json_quoted(&mut out, c.model.as_str());
    push_str_chars(&mut out, ",\n  \"target_language\": ");
    push_json_quoted(&mut out, c.target_language.as_str());
    push_str_chars(&mut out, ",\n  \"alternative_target_language\": ");
    push_json_quoted(&mut out, c.alternative_target_language.as_str());
    push_str_chars(&mut out, ",\n  \"auto_start\": ");
    push_bool_text(&mut out, c.auto_start);
    push_str_chars(&mut out, ",\n  \"hotkey\": ");
    push_json_quoted(&mut out, c.hotkey.as_str());
    push_str_chars(&mut out, ",\n  \"theme\": ");
    push_json_quoted(&mut out, c.theme.as_str());
    push_str_chars(&mut out, ",\n  \"minimize_to_tray\": ");
    push_bool_text(&mut out, c.minimize_to_tray);
    push_str_chars(&mut out, ",\n  \"custom_prompt\": ");
    push_json_quoted(&mut out, c.custom_prompt.as_str());
    push_str_chars(&mut out, "\n}");
    proof {
        assert(out@ =~= spec_config_json(*c));
    }
    string_of(&out)
}

/// What loading yields from the configuration file's text, and whether the
/// caller must persist the result: text that strict-parses is returned
/// as-is; an object that does not is migrated and persisted; anything else
/// falls back to the defaults, persisted.
pub fn load_config_from_text(content: &str) -> (r: (Config, bool))
    ensures
        match json_doc_of(content@) {
            Some(doc) => match doc {
                JsonValue::Obj(fields) => if config_fields_ok(fields@) {
                    config_matches_fields(r.0, fields@) && r.1 == false
                } else {
                    r.1 == true && exists|newf: Seq<(String, JsonValue)>|
                        #[trigger] migrate_rel(fields@, newf) && if config_fields_ok(newf) {
                            config_matches_fields(r.0, newf)
                        } else {
                            spec_is_default_config(r.0)
                        }
                },
                _ => spec_is_default_config(r.0) && r.1 == true,
            },
            None => spec_is_default_config(r.0) && r.1 == true,
        },
{
    let chars = chars_of(content);
    let doc = match parse_json_chars(&chars) {
        Some(doc) => doc,
        None => {
            return (Config::default(), true);
        },
    };
    let fields = match doc {
        JsonValue::Obj(fields) => fields,
        _ => {
            return (Config::default(), true);
        },
    };
    match config_from_fields(&fields) {
        Some(c) => (c, false),
        None => {
            let ghost oldf = fields@;
            let migrated = migrate_config_fields(fields);
            proof {
                assert(migrate_rel(oldf, migrated@));
            }
            match config_from_fields(&migrated) {
                Some(c) => (c, true),
                None => (Config::default(), true),
            }
        },
    }
}

/// Two configurations read strictly from the same fields carry the same
/// values: loading a persisted record a second time yields what the first
/// load yielded.
pub proof fn lemma_strict_parse_deterministic(c1: Config, c2: Config, f: Seq<(String, JsonValue)>)
    requires
        config_matches_fields(c1, f),
        config_matches_fields(c2, f),
    ensures
        c1.api_provider@ == c2.api_provider@,
        c1.openai_api_key@ == c2.openai_api_key@,
        c1.azure_endpoint@ == c2.azure_endpoint@,
        c1.azure_api_key@ == c2.azure_api_key@,
        c1.azure_api_version@ == c2.azure_api_version@,
        c1.azure_deployment_name@ == c2.azure_deployment_name@,
        c1.model@ == c2.model@,
        c1.target_language@ == c2.target_language@,
        c1.alternative_target_language@ == c2.alternative_target_language@,
        c1.auto_start == c2.auto_start,
        c1.hotkey@ == c2.hotkey@,
        c1.theme@ == c2.theme@,
        c1.minimize_to_tray == c2.minimize_to_tray,
        c1.custom_prompt@ == c2.custom_prompt@,
{
}

} // verus!
