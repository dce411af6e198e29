//! The tolerant response parser: recovers a `{detected_language,
//! translated_text}` pair from the upstream content string, which is not
//! guaranteed to be clean JSON. An ordered fallback chain — direct parse,
//! brace-delimited extraction, plain pass-through — guarantees that a result
//! is always produced.

use crate::json::{get_text_field, json_doc_of, obj_text, parse_json_chars, JsonValue};
use crate::text::{chars_of, is_control, is_control_char, string_of, sub_chars};
use crate::TranslationResult;
use vstd::prelude::*;
use vstd::string::StringExecFns;

verus! {

/// Whether cleaning keeps this character: control characters are stripped,
/// except newline, carriage return and tab.
pub open spec fn keep_char(c: char) -> bool {
    !is_control_char(c) || c == '\n' || c == '\r' || c == '\t'
}

/// The content with every stripped character removed.
pub open spec fn spec_clean(s: Seq<char>) -> Seq<char>
    decreases s.len(),
{
    if s.len() == 0 {
        Seq::empty()
    } else if keep_char(s.last()) {
        spec_clean(s.drop_last()).push(s.last())
    } else {
        spec_clean(s.drop_last())
    }
}

/// The position of the first `{` at or after `i`.
pub open spec fn first_brace_from(s: Seq<char>, i: int) -> Option<int>
    decreases s.len() - i,
{
    if i < 0 || i >= s.len() {
        None
    } else if s[i] == '{' {
        Some(i)
    } else {
        first_brace_from(s, i + 1)
    }
}

/// The position one past the `}` that balances the braces seen so far,
/// scanning from `i` with `depth` currently open braces. Braces are counted
/// without regard to string quoting, as the upstream extraction does.
pub open spec fn close_from(s: Seq<char>, i: int, depth: int) -> Option<int>
    decreases s.len() - i,
{
    if i < 0 || i >= s.len() {
        None
    } else {
        let d = if s[i] == '{' {
            depth + 1
        } else if s[i] == '}' {
            depth - 1
        } else {
            depth
        };
        if s[i] == '}' && d == 0 {
            Some(i + 1)
        } else {
            close_from(s, i + 1, d)
        }
    }
}

/// The pair read out of a parsed document: `detected_language` if bound to
/// a string, else "unknown"; `translated_text` if bound to a string, else
/// the document itself when it is a bare string, else a failure marker.
pub open spec fn spec_extract_pair(doc: JsonValue) -> (Seq<char>, Seq<char>) {
    (
        match obj_text(doc, "detected_language"@) {
            Some(s) => s,
            None => "unknown"@,
        },
        match obj_text(doc, "translated_text"@) {
            Some(s) => s,
            None => match doc {
                JsonValue::Text(s) => s@,
                _ => "translation failed"@,
            },
        },
    )
}

/// The whole fallback chain over the raw upstream content.
pub open spec fn spec_parse_content(content: Seq<char>) -> (Seq<char>, Seq<char>) {
    let cleaned = spec_clean(content);
    match json_doc_of(cleaned) {
        Some(doc) => spec_extract_pair(doc),
        None => match first_brace_from(cleaned, 0) {
            Some(i) => match close_from(cleaned, i, 0) {
                Some(j) => match json_doc_of(cleaned.subrange(i, j)) {
                    Some(doc) => spec_extract_pair(doc),
                    None => ("unknown"@, cleaned),
                },
                None => ("unknown"@, cleaned),
            },
            None => ("unknown"@, cleaned),
        },
    }
}

/// Strip control characters, keeping newline, carriage return and tab.
pub fn clean_chars(v: &Vec<char>) -> (r: Vec<char>)
    ensures
        r@ == spec_clean(v@),
{
    let mut r: Vec<char> = Vec::new();
    let mut i: usize = 0;
    while i < v.len()
        invariant
            i <= v@.len(),
            r@ == spec_clean(v@.take(i as int)),
        decreases v@.len() - i,
    {
        let c = v[i];
        proof {
            assert(v@.take(i + 1).drop_last() =~= v@.take(i as int));
            assert(v@.take(i + 1).last() == v@[i as int]);
        }
        if !is_control(c) || c == '\n' || c == '\r' || c == '\t' {
            r.push(c);
        }
        i = i + 1;
    }
    proof {
        assert(v@.take(v@.len() as int) =~= v@);
    }
    r
}

/// The position of the first `{`, if any.
pub fn find_brace(v: &Vec<char>) -> (r: Option<usize>)
    ensures
        match r {
            Some(i) => first_brace_from(v@, 0) == Some(i as int) && i < v@.len() && v@[i as int]
                == '{',
            None => first_brace_from(v@, 0) is None,
        },
{
    let mut i: usize = 0;
    while i < v.len()
        invariant
            i <= v@.len(),
            first_brace_from(v@, 0) == first_brace_from(v@, i as int),
        decreases v@.len() - i,
    {
        if v[i] == '{' {
            return Some(i);
        }
        i = i + 1;
    }
    None
}

/// The end (exclusive) of the brace-balanced region opened at `start`,
/// found by depth counting.
pub fn find_close(v: &Vec<char>, start: usize) -> (r: Option<usize>)
    requires
        start < v@.len(),
        v@[start as int] == '{',
    ensures
        match r {
            Some(j) => close_from(v@, start as int, 0) == Some(j as int) && start < j <= v@.len(),
            None => close_from(v@, start as int, 0) is None,
        },
{
    let mut i: usize = start;
    let mut depth: usize = 0;
    while i < v.len()
        invariant
            start <= i <= v@.len(),
            start < v@.len(),
            v@[start as int] == '{',
            close_from(v@, start as int, 0) == close_from(v@, i as int, depth as int),
            depth <= i - start,
            i == start ==> depth == 0,
            i > start ==> depth >= 1,
        decreases v@.len() - i,
    {
        let c = v[i];
        if c == '{' {
            depth = depth + 1;
        } else if c == '}' {
            if depth == 1 {
                return Some(i + 1);
            }
            depth = depth - 1;
        }
        i = i + 1;
    }
    None
}

/// Read the result pair out of a parsed document, per `spec_extract_pair`.
pub fn extract_result(doc: &JsonValue) -> (r: TranslationResult)
    ensures
        r.detected_language@ == spec_extract_pair(*doc).0,
        r.translated_text@ == spec_extract_pair(*doc).1,
{
    let detected = match get_text_field(doc, "detected_language") {
        Some(s) => s,
        None => String::from_str("unknown"),
    };
    let translated = match get_text_field(doc, "translated_text") {
        Some(s) => s,
        None => match doc {
            JsonValue::Text(s) => s.clone(),
            _ => String::from_str("translation failed"),
        },
    };
    TranslationResult { detected_language: detected, translated_text: translated }
}

fn passthrough_result(cleaned: &Vec<char>) -> (r: TranslationResult)
    ensures
        r.detected_language@ == "unknown"@,
        r.translated_text@ == cleaned@,
{
    TranslationResult {
        detected_language: String::from_str("unknown"),
        translated_text: string_of(cleaned),
    }
}

/// Recover a translation result from the upstream content string. Never
/// fails: malformed upstream JSON degrades to passing the cleaned text
/// through.
pub fn parse_translation_content(content: &str) -> (r: TranslationResult)
    ensures
        r.detected_language@ == spec_parse_content(content@).0,
        r.translated_text@ == spec_parse_content(content@).1,
{
    let raw = chars_of(content);
    let cleaned = clean_chars(&raw);
    match parse_json_chars(&cleaned) {
        Some(doc) => extract_result(&doc),
        None => match find_brace(&cleaned) {
            Some(i) => match find_close(&cleaned, i) {
                Some(j) => {
                    let sub = sub_chars(&cleaned, i, j);
                    match parse_json_chars(&sub) {
                        Some(doc) => extract_result(&doc),
                        None => passthrough_result(&cleaned),
                    }
                },
                None => passthrough_result(&cleaned),
            },
            None => passthrough_result(&cleaned),
        },
    }
}

/// The content of the first completion choice: `choices[0].message.content`,
/// when the response document has that shape and the content is a string.
pub open spec fn response_content(doc: JsonValue) -> Option<Seq<char>> {
    match doc {
        JsonValue::Obj(fields) => match crate::json::obj_lookup(fields@, "choices"@) {
            Some(JsonValue::Arr(items)) => if items@.len() > 0 {
                match items@[0] {
                    JsonValue::Obj(m) => match crate::json::obj_lookup(m@, "message"@) {
                        Some(JsonValue::Obj(mm)) => crate::json::text_binding(mm@, "content"@),
                        _ => None,
                    },
                    _ => None,
                }
            } else {
                None
            },
            _ => None,
        },
        _ => None,
    }
}

/// Parse a whole upstream HTTP response body: find the first completion
/// choice's content — its absence is the one parse failure this chain
/// surfaces — and run the tolerant fallback chain on it.
pub fn parse_api_response(body: &str) -> (r: Result<TranslationResult, crate::Error>)
    ensures
        match json_doc_of(body@) {
            Some(doc) => match response_content(doc) {
                Some(content) => match r {
                    Ok(tr) => tr.detected_language@ == spec_parse_content(content).0
                        && tr.translated_text@ == spec_parse_content(content).1,
                    Err(_) => false,
                },
                None => match r {
                    Err(crate::Error::ApiError(m)) => m@ == "No content in response"@,
                    _ => false,
                },
            },
            None => match r {
                Err(crate::Error::ApiError(m)) => m@ == "No content in response"@,
                _ => false,
            },
        },
{
    let chars = chars_of(body);
    let doc = match parse_json_chars(&chars) {
        Some(doc) => doc,
        None => {
            return Err(crate::Error::ApiError(String::from_str("No content in response")));
        },
    };
    let content: String = match &doc {
        JsonValue::Obj(fields) => match crate::json::obj_get(fields, "choices") {
            Some(v) => match v {
                JsonValue::Arr(items) => {
                    if items.len() > 0 {
                        match &items[0] {
                            JsonValue::Obj(m) => match crate::json::obj_get(m, "message") {
                                Some(mv) => match mv {
                                    JsonValue::Obj(mm) => match crate::json::get_text_binding(
                                        mm,
                                        "content",
                                    ) {
                                        Some(s) => s,
                                        None => {
                                            return Err(
                                                crate::Error::ApiError(
                                                    String::from_str("No content in response"),
                                                ),
                                            );
                                        },
                                    },
                                    _ => {
                                        return Err(
                                            crate::Error::ApiError(
                                                String::from_str("No content in response"),
                                            ),
                                        );
                                    },
                                },
                                None => {
                                    return Err(
                                        crate::Error::ApiError(
                                            String::from_str("No content in response"),
                                        ),
                                    );
                                },
                            },
                            _ => {
                                return Err(
                                    crate::Error::ApiError(
                                        String::from_str("No content in response"),
                                    ),
                                );
                            },
                        }
                    } else {
                        return Err(
                            crate::Error::ApiError(String::from_str("No content in response")),
                        );
                    }
                },
                _ => {
                    return Err(
                        crate::Error::ApiError(String::from_str("No content in response")),
                    );
                },
            },
            None => {
                return Err(crate::Error::ApiError(String::from_str("No content in response")));
            },
        },
        _ => {
            return Err(crate::Error::ApiError(String::from_str("No content in response")));
        },
    };
    Ok(parse_translation_content(content.as_str()))
}

/// Cleaning keeps a text unchanged when no character of it is stripped.
pub proof fn lemma_clean_keeps_all(s: Seq<char>)
    requires
        forall|k: int| 0 <= k < s.len() ==> keep_char(s[k]),
    ensures
        spec_clean(s) == s,
    decreases s.len(),
{
    if s.len() > 0 {
        lemma_clean_keeps_all(s.drop_last());
        assert(spec_clean(s.drop_last()).push(s.last()) =~= s);
    } else {
        assert(spec_clean(s) =~= s);
    }
}

/// A text without `{` has no first brace.
pub proof fn lemma_no_brace(s: Seq<char>, i: int)
    requires
        forall|k: int| 0 <= k < s.len() ==> s[k] != '{',
    ensures
        first_brace_from(s, i) is None,
    decreases s.len() - i,
{
    if 0 <= i < s.len() {
        lemma_no_brace(s, i + 1);
    }
}

/// For content that is well-formed JSON binding `detected_language` and
/// `translated_text` to the strings `d` and `t`, the parser returns exactly
/// `(d, t)`.
pub proof fn lemma_wellformed_json_pair(content: Seq<char>, doc: JsonValue, d: Seq<char>, t: Seq<
    char,
>)
    requires
        json_doc_of(spec_clean(content)) == Some(doc),
        obj_text(doc, "detected_language"@) == Some(d),
        obj_text(doc, "translated_text"@) == Some(t),
    ensures
        spec_parse_content(content) == (d, t),
{
}

/// For content whose direct parse fails but which holds a brace-delimited
/// region that is well-formed JSON binding the two fields to `d` and `t`,
/// the parser extracts exactly `(d, t)` from that region.
pub proof fn lemma_embedded_json_pair(
    content: Seq<char>,
    i: int,
    j: int,
    doc: JsonValue,
    d: Seq<char>,
    t: Seq<char>,
)
    requires
        json_doc_of(spec_clean(content)) is None,
        first_brace_from(spec_clean(content), 0) == Some(i),
        close_from(spec_clean(content), i, 0) == Some(j),
        json_doc_of(spec_clean(content).subrange(i, j)) == Some(doc),
        obj_text(doc, "detected_language"@) == Some(d),
        obj_text(doc, "translated_text"@) == Some(t),
    ensures
        spec_parse_content(content) == (d, t),
{
}

/// Plain unstructured text — no stripped character, not itself JSON, and
/// holding no `{` — passes through unchanged, with language "unknown".
pub proof fn lemma_plain_text_passthrough(content: Seq<char>)
    requires
        forall|k: int| 0 <= k < content.len() ==> keep_char(content[k]),
        json_doc_of(content) is None,
        forall|k: int| 0 <= k < content.len() ==> content[k] != '{',
    ensures
        spec_parse_content(content) == ("unknown"@, content),
{
    lemma_clean_keeps_all(content);
    lemma_no_brace(content, 0);
}

} // verus!
