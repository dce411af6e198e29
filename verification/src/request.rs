//! Building the provider-specific HTTP requests: the prompt with its
//! alternative-language directive, the chat-completion body, the endpoint
//! URLs, and the lightweight key-validation probes. The application issues
//! the requests; everything they are made of is computed and specified
//! here.

use crate::config::Config;
use crate::json::{push_json_quoted, spec_json_string};
use crate::text::str_eq;
use crate::text::{chars_of, push_chars, push_str_chars, spec_preprocess, string_of};
use vstd::prelude::*;
use vstd::string::StringExecFns;

verus! {

/// The prompt sent as the system instruction's head: the configured
/// template with the alternative-language directive block appended.
pub open spec fn spec_smart_prompt(
    custom_prompt: Seq<char>,
    target: Seq<char>,
    alternative: Seq<char>,
) -> Seq<char> {
    custom_prompt + "\n\n# Alternative Language Logic\n- Primary target language: "@ + target
        + "\n- Alternative target language: "@ + alternative
        + "\n- If the detected language matches the primary target language, translate to the alternative target language instead.\n- If the detected language is different from the primary target language, translate to the primary target language."@
}

/// The whole system instruction: the smart prompt plus the demand for
/// valid JSON with the two result fields.
pub open spec fn spec_system_text(smart_prompt: Seq<char>) -> Seq<char> {
    smart_prompt
        + "\n\nAlways respond with valid JSON containing 'detected_language' and 'translated_text' fields. Make sure to properly escape newlines in the translated_text field."@
}

/// The user message around the preprocessed text.
pub open spec fn spec_user_prompt(cleaned_text: Seq<char>) -> Seq<char> {
    "Text to translate: \""@ + cleaned_text + "\""@
}

/// The chat-completion request body: the system and user messages, the
/// token and temperature settings, and — for the OpenAI provider only —
/// the model name. The Azure deployment already encodes the model, so none
/// is sent there.
pub open spec fn spec_request_body(
    system_text: Seq<char>,
    user_prompt: Seq<char>,
    model: Option<Seq<char>>,
) -> Seq<char> {
    "{\"messages\":[{\"role\":\"system\",\"content\":[{\"type\":\"text\",\"text\":"@
        + spec_json_string(system_text) + "}]},{\"role\":\"user\",\"content\":"@
        + spec_json_string(user_prompt) + "}],\"max_tokens\":800,\"temperature\":0.3"@ + (
    match model {
        Some(m) => ",\"model\":"@ + spec_json_string(m),
        None => Seq::<char>::empty(),
    }) + "}"@
}

/// The body sent for this configuration and raw text.
pub open spec fn spec_body_for(c: Config, text: Seq<char>) -> Seq<char> {
    spec_request_body(
        spec_system_text(
            spec_smart_prompt(
                c.custom_prompt@,
                c.target_language@,
                c.alternative_target_language@,
            ),
        ),
        spec_user_prompt(spec_preprocess(text)),
        if c.api_provider@ == "openai"@ {
            Some(c.model@)
        } else {
            None
        },
    )
}

/// One upstream HTTP call, fully determined: where to post, which
/// authentication header to set, and the body.
pub struct RequestPlan {
    pub url: String,
    pub header_name: String,
    pub header_value: String,
    pub body: String,
}

/// The Azure chat-completion URL for this configuration.
pub open spec fn spec_azure_url(c: Config) -> Seq<char> {
    c.azure_endpoint@ + "openai/deployments/"@ + c.azure_deployment_name@
        + "/chat/completions?api-version="@ + c.azure_api_version@
}

/// Build the one upstream call for this configuration and text: the Azure
/// provider posts to the deployment URL with the `api-key` header; every
/// other provider posts to the OpenAI endpoint with bearer-token
/// authentication.
pub fn plan_request(c: &Config, text: &str) -> (r: RequestPlan)
    ensures
        r.body@ == spec_body_for(*c, text@),
        c.api_provider@ == "azure_openai"@ ==> r.url@ == spec_azure_url(*c) && r.header_name@
            == "api-key"@ && r.header_value@ == c.azure_api_key@,
        c.api_provider@ != "azure_openai"@ ==> r.url@ == "https://api.openai.com/v1/chat/completions"@
            && r.header_name@ == "Authorization"@ && r.header_value@ == "Bearer "@
            + c.openai_api_key@,
{
    let cleaned = crate::text::preprocess_text(text);
    let mut body: Vec<char> = Vec::new();
    push_str_chars(
        &mut body,
        "{\"messages\":[{\"role\":\"system\",\"content\":[{\"type\":\"text\",\"text\":",
    );
    let mut system_text: Vec<char> = Vec::new();
    push_chars(&mut system_text, &chars_of(c.custom_prompt.as_str()));
    push_str_chars(&mut system_text, "\n\n# Alternative Language Logic\n- Primary target language: ");
    push_chars(&mut system_text, &chars_of(c.target_language.as_str()));
    push_str_chars(&mut system_text, "\n- Alternative target language: ");
    push_chars(&mut system_text, &chars_of(c.alternative_target_language.as_str()));
    push_str_chars(
        &mut system_text,
        "\n- If the detected language matches the primary target language, translate to the alternative target language instead.\n- If the detected language is different from the primary target language, translate to the primary target language.",
    );
    push_str_chars(
        &mut system_text,
        "\n\nAlways respond with valid JSON containing 'detected_language' and 'translated_text' fields. Make sure to properly escape newlines in the translated_text field.",
    );
    let system_string = string_of(&system_text);
    push_json_quoted(&mut body, system_string.as_str());
    push_str_chars(&mut body, "}]},{\"role\":\"user\",\"content\":");
    let mut user_prompt: Vec<char> = Vec::new();
    push_str_chars(&mut user_prompt, "Text to translate: \"");
    push_chars(&mut user_prompt, &chars_of(cleaned.as_str()));
    push_str_chars(&mut user_prompt, "\"");
    let user_string = string_of(&user_prompt);
    push_json_quoted(&mut body, user_string.as_str());
    push_str_chars(&mut body, "}],\"max_tokens\":800,\"temperature\":0.3");
    if str_eq(c.api_provider.as_str(), "openai") {
        push_str_chars(&mut body, ",\"model\":");
        push_json_quoted(&mut body, c.model.as_str());
    }
    push_str_chars(&mut body, "}");
    proof {
        assert(body@ =~= spec_body_for(*c, text@));
    }
    let body_string = string_of(&body);
    match c.provider() {
        crate::config::ApiProvider::AzureOpenAI => {
            let mut url: Vec<char> = Vec::new();
            push_chars(&mut url, &chars_of(c.azure_endpoint.as_str()));
            push_str_chars(&mut url, "openai/deployments/");
            push_chars(&mut url, &chars_of(c.azure_deployment_name.as_str()));
            push_str_chars(&mut url, "/chat/completions?api-version=");
            push_chars(&mut url, &chars_of(c.azure_api_version.as_str()));
            proof {
                assert(url@ =~= spec_azure_url(*c));
            }
            RequestPlan {
                url: string_of(&url),
                header_name: String::from_str("api-key"),
                header_value: c.azure_api_key.clone(),
                body: body_string,
            }
        },
        crate::config::ApiProvider::OpenAI => {
            RequestPlan {
                url: String::from_str("https://api.openai.com/v1/chat/completions"),
                header_name: String::from_str("Authorization"),
                header_value: String::from_str("Bearer ").concat(c.openai_api_key.as_str()),
                body: body_string,
            }
        },
    }
}

/// Whether `sub` occurs somewhere in `s`.
pub open spec fn spec_contains(s: Seq<char>, sub: Seq<char>) -> bool {
    exists|i: int| 0 <= i <= s.len() - sub.len() && #[trigger] s.subrange(i, i + sub.len()) == sub
}

/// Naive substring search, per `spec_contains`.
pub fn str_contains(s: &str, sub: &str) -> (r: bool)
    ensures
        r == spec_contains(s@, sub@),
{
    let sv = chars_of(s);
    let bv = chars_of(sub);
    let n = sv.len();
    let m = bv.len();
    if m > n {
        return false;
    }
    let mut i: usize = 0;
    while i <= n - m
        invariant
            m <= n,
            n == sv@.len(),
            m == bv@.len(),
            sv@ == s@,
            bv@ == sub@,
            i <= n - m + 1,
            forall|q: int| 0 <= q < i ==> #[trigger] s@.subrange(q, q + m) != sub@,
        decreases n + 1 - i,
    {
        let mut j: usize = 0;
        while j < m && sv[i + j] == bv[j]
            invariant
                m <= n,
                n == sv@.len(),
                m == bv@.len(),
                i + m <= n,
                j <= m,
                forall|q: int| 0 <= q < j ==> sv@[i + q] == bv@[q],
            decreases m - j,
        {
            j = j + 1;
        }
        if j == m {
            proof {
                assert(s@.subrange(i as int, i + m) =~= sub@);
            }
            return true;
        }
        proof {
            assert(s@.subrange(i as int, i + m)[j as int] == s@[i + j]);
            assert(s@.subrange(i as int, i + m) != sub@);
        }
        i = i + 1;
    }
    proof {
        assert forall|q: int| 0 <= q <= s@.len() - sub@.len() implies #[trigger] s@.subrange(
            q,
            q + sub@.len(),
        ) != sub@ by {}
    }
    false
}

/// The text without its trailing slashes.
pub open spec fn spec_trim_end_slashes(s: Seq<char>) -> Seq<char>
    decreases s.len(),
{
    if s.len() > 0 && s.last() == '/' {
        spec_trim_end_slashes(s.drop_last())
    } else {
        s
    }
}

/// Trailing slashes reach exactly back to the last other character.
proof fn lemma_trim_slashes_at(s: Seq<char>, k: int)
    requires
        0 <= k <= s.len(),
        forall|j: int| k <= j < s.len() ==> s[j] == '/',
        k > 0 ==> s[k - 1] != '/',
    ensures
        spec_trim_end_slashes(s) == s.subrange(0, k),
    decreases s.len() - k,
{
    if k == s.len() {
        assert(s.subrange(0, k) =~= s);
    } else {
        lemma_trim_slashes_at(s.drop_last(), k);
        assert(s.drop_last().subrange(0, k) =~= s.subrange(0, k));
    }
}

fn trim_end_slashes(s: &str) -> (r: Vec<char>)
    ensures
        r@ == spec_trim_end_slashes(s@),
{
    let v = chars_of(s);
    let n = v.len();
    let mut hi: usize = n;
    while hi > 0 && v[hi - 1] == '/'
        invariant
            hi <= n,
            n == v@.len(),
            v@ == s@,
            forall|j: int| hi <= j < n ==> v@[j] == '/',
        decreases hi,
    {
        hi = hi - 1;
    }
    proof {
        lemma_trim_slashes_at(s@, hi as int);
    }
    crate::text::sub_chars(&v, 0, hi)
}

/// What `url::Url::parse` followed by `Url::query_pairs` yields for this
/// text: the query string's key–value pairs, percent-decoded, in order;
/// `None` when the text is not an absolute URL. The result depends on the
/// text alone.
pub uninterp spec fn url_query_pairs_of(s: Seq<char>) -> Option<Seq<(Seq<char>, Seq<char>)>>;

/// Relies on `url::Url::parse` and `Url::query_pairs`: parses the URL and
/// hands its query parameters out as owned pairs. The pair of calls is
/// named [`url_query_pairs_of`].
#[verifier::external_body]
fn url_query_pairs(s: &str) -> (r: Option<Vec<(String, String)>>)
    ensures
        match r {
            Some(v) => url_query_pairs_of(s@) == Some(
                v@.map_values(|p: (String, String)| (p.0@, p.1@)),
            ),
            None => url_query_pairs_of(s@) is None,
        },
{
    match url::Url::parse(s) {
        Ok(u) => Some(u.query_pairs().map(|p| (p.0.into_owned(), p.1.into_owned())).collect()),
        Err(_) => None,
    }
}

/// The value of the first pair bearing `key`.
pub open spec fn spec_find_pair(pairs: Seq<(Seq<char>, Seq<char>)>, key: Seq<char>) -> Option<
    Seq<char>,
>
    decreases pairs.len(),
{
    if pairs.len() == 0 {
        None
    } else if pairs[0].0 == key {
        Some(pairs[0].1)
    } else {
        spec_find_pair(pairs.drop_first(), key)
    }
}

/// The `api-version` query parameter of a URL, if the URL parses and
/// carries one.
pub open spec fn spec_api_version_of_url(u: Seq<char>) -> Option<Seq<char>> {
    match url_query_pairs_of(u) {
        Some(pairs) => spec_find_pair(pairs, "api-version"@),
        None => None,
    }
}

/// Extract the `api-version` query parameter from a URL.
pub fn extract_api_version_from_url(url: &str) -> (r: Option<String>)
    ensures
        match spec_api_version_of_url(url@) {
            Some(v) => r is Some && r->0@ == v,
            None => r is None,
        },
{
    let pairs = match url_query_pairs(url) {
        Some(pairs) => pairs,
        None => {
            return None;
        },
    };
    let ghost mapped = pairs@.map_values(|p: (String, String)| (p.0@, p.1@));
    let mut i: usize = 0;
    proof {
        assert(mapped.skip(0) =~= mapped);
    }
    while i < pairs.len()
        invariant
            url_query_pairs_of(url@) == Some(mapped),
            mapped == pairs@.map_values(|p: (String, String)| (p.0@, p.1@)),
            i <= pairs@.len(),
            spec_find_pair(mapped, "api-version"@) == spec_find_pair(
                mapped.skip(i as int),
                "api-version"@,
            ),
        decreases pairs@.len() - i,
    {
        proof {
            assert(mapped.skip(i as int)[0] == mapped[i as int]);
            assert(mapped.skip(i as int).drop_first() =~= mapped.skip(i + 1));
        }
        if str_eq(pairs[i].0.as_str(), "api-version") {
            return Some(pairs[i].1.clone());
        }
        i = i + 1;
    }
    proof {
        assert(mapped.skip(pairs@.len() as int).len() == 0);
    }
    None
}

/// One key-validation probe, fully determined: where to issue the GET and
/// which authentication header to set. Any 2xx answer validates the key.
#[derive(Debug)]
pub struct ValidationPlan {
    pub url: String,
    pub header_name: String,
    pub header_value: String,
}

/// The version the Azure probe uses: the given one, else the one in the
/// endpoint's own query string, else the default.
pub open spec fn spec_probe_version(api_version: Option<Seq<char>>, endpoint: Seq<char>) -> Seq<
    char,
> {
    match api_version {
        Some(v) => v,
        None => match spec_api_version_of_url(endpoint) {
            Some(v) => v,
            None => "2025-01-01-preview"@,
        },
    }
}

/// The Azure probe URL: the endpoint without trailing slashes, the models
/// listing — under `/openai` except on a models-API endpoint — and the
/// version.
pub open spec fn spec_probe_url(endpoint: Seq<char>, version: Seq<char>) -> Seq<char> {
    spec_trim_end_slashes(endpoint) + (if spec_contains(endpoint, "services.ai.azure.com"@) {
        "/models?api-version="@
    } else {
        "/openai/models?api-version="@
    }) + version
}

/// Build the lightweight key-validation probe for a provider. The OpenAI
/// provider lists models with bearer-token authentication; the Azure
/// provider needs an endpoint — without one the call is rejected — and
/// lists models with the `api-key` header; any other provider is rejected.
pub fn plan_key_validation(
    api_provider: &str,
    api_key: &str,
    endpoint: &Option<String>,
    api_version: &Option<String>,
) -> (r: Result<ValidationPlan, String>)
    ensures
        api_provider@ == "openai"@ ==> match r {
            Ok(p) => p.url@ == "https://api.openai.com/v1/models"@ && p.header_name@
                == "Authorization"@ && p.header_value@ == "Bearer "@ + api_key@,
            Err(_) => false,
        },
        api_provider@ == "azure_openai"@ ==> match endpoint {
            Some(ep) => match r {
                Ok(p) => p.url@ == spec_probe_url(
                    ep@,
                    spec_probe_version(
                        match api_version {
                            Some(v) => Some(v@),
                            None => None,
                        },
                        ep@,
                    ),
                ) && p.header_name@ == "api-key"@ && p.header_value@ == api_key@,
                Err(_) => false,
            },
            None => match r {
                Err(m) => m@ == "Azure endpoint is required"@,
                Ok(_) => false,
            },
        },
        api_provider@ != "openai"@ && api_provider@ != "azure_openai"@ ==> match r {
            Err(m) => m@ == "Unsupported API provider"@,
            Ok(_) => false,
        },
{
    proof {
        reveal_strlit("openai");
        reveal_strlit("azure_openai");
        assert("openai"@.len() == 6);
        assert("azure_openai"@.len() == 12);
    }
    if str_eq(api_provider, "openai") {
        Ok(
            ValidationPlan {
                url: String::from_str("https://api.openai.com/v1/models"),
                header_name: String::from_str("Authorization"),
                header_value: String::from_str("Bearer ").concat(api_key),
            },
        )
    } else if str_eq(api_provider, "azure_openai") {
        match endpoint {
            Some(ep) => {
                let version: String = match api_version {
                    Some(v) => v.clone(),
                    None => match extract_api_version_from_url(ep.as_str()) {
                        Some(v) => v,
                        None => String::from_str("2025-01-01-preview"),
                    },
                };
                let models_endpoint = str_contains(ep.as_str(), "services.ai.azure.com");
                let mut url: Vec<char> = Vec::new();
                let base = trim_end_slashes(ep.as_str());
                push_chars(&mut url, &base);
                if models_endpoint {
                    push_str_chars(&mut url, "/models?api-version=");
                } else {
                    push_str_chars(&mut url, "/openai/models?api-version=");
                }
                push_chars(&mut url, &chars_of(version.as_str()));
                proof {
                    assert(url@ =~= spec_probe_url(
                        ep@,
                        spec_probe_version(
                            match api_version {
                                Some(v) => Some(v@),
                                None => None,
                            },
                            ep@,
                        ),
                    ));
                }
                Ok(
                    ValidationPlan {
                        url: string_of(&url),
                        header_name: String::from_str("api-key"),
                        header_value: String::from_str(api_key),
                    },
                )
            },
            None => Err(String::from_str("Azure endpoint is required")),
        }
    } else {
        Err(String::from_str("Unsupported API provider"))
    }
}

} // verus!
