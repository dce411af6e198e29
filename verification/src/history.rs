//! The translation history store: an append-bounded log of past
//! translations, newest first, capped at one hundred entries. Entries are
//! never mutated after creation; they leave the store only by eviction or
//! by clearing it. Reading and writing the history file is the
//! application's concern; this module computes the file's text and reads a
//! parsed document back.

use crate::json::{
    get_text_field, json_doc_of, obj_lookup, obj_text, parse_json_chars, push_json_quoted,
    spec_json_string, JsonValue,
};
use crate::text::{chars_of, push_str_chars, string_of};
use vstd::prelude::*;

verus! {

/// The greatest number of entries the store keeps.
pub const HISTORY_CAP: usize = 100;

/// One past translation. The timestamp is kept as the text it is stored
/// as, an RFC 3339 date and time.
pub struct TranslationEntry {
    pub id: String,
    pub original_text: String,
    pub translated_text: String,
    pub detected_language: String,
    pub target_language: String,
    pub timestamp: String,
}

/// The bounded log itself, newest entry first.
pub struct TranslationHistory {
    pub entries: Vec<TranslationEntry>,
}

/// The log after an insertion at the head, trimmed to the cap.
pub open spec fn spec_add_entry(entries: Seq<TranslationEntry>, entry: TranslationEntry) -> Seq<
    TranslationEntry,
> {
    let grown = seq![entry] + entries;
    if grown.len() > HISTORY_CAP as nat {
        grown.take(HISTORY_CAP as int)
    } else {
        grown
    }
}

impl TranslationHistory {
    /// An empty log.
    pub fn new() -> (r: Self)
        ensures
            r.entries@ == Seq::<TranslationEntry>::empty(),
    {
        TranslationHistory { entries: Vec::new() }
    }

    /// Insert at the head, keeping the newest entry at index zero and at
    /// most the cap of entries.
    pub fn add_entry(&mut self, entry: TranslationEntry)
        ensures
            final(self).entries@ == spec_add_entry(old(self).entries@, entry),
    {
        self.entries.insert(0, entry);
        if self.entries.len() > HISTORY_CAP {
            self.entries.truncate(HISTORY_CAP);
        }
        proof {
            assert(old(self).entries@.insert(0, entry) =~= seq![entry] + old(self).entries@);
        }
    }
}

impl Default for TranslationHistory {
    /// The empty log.
    fn default() -> (r: Self)
        ensures
            r.entries@ == Seq::<TranslationEntry>::empty(),
    {
        TranslationHistory::new()
    }
}

/// The store never exceeds its cap, the newest entry is always at index
/// zero, and inserting into a full store evicts exactly the oldest entry.
pub proof fn lemma_history_bounded(entries: Seq<TranslationEntry>, entry: TranslationEntry)
    requires
        entries.len() <= HISTORY_CAP as nat,
    ensures
        spec_add_entry(entries, entry).len() <= HISTORY_CAP as nat,
        spec_add_entry(entries, entry)[0] == entry,
        entries.len() < HISTORY_CAP as nat ==> spec_add_entry(entries, entry) == seq![entry]
            + entries,
        entries.len() == HISTORY_CAP as nat ==> spec_add_entry(entries, entry) == seq![entry]
            + entries.drop_last(),
{
    if entries.len() == HISTORY_CAP as nat {
        assert((seq![entry] + entries).take(HISTORY_CAP as int) =~= seq![entry]
            + entries.drop_last());
    }
}

/// Clear the log; the application persists the emptied store, as it does
/// after every mutation.
pub fn clear_translation_history(history: &mut TranslationHistory)
    ensures
        final(history).entries@ == Seq::<TranslationEntry>::empty(),
{
    history.entries.clear();
}

/// Relies on `uuid::Uuid::new_v4` and its `Display`: a fresh random
/// version-4 UUID, rendered in the 36-character hyphenated form. Nothing
/// is assumed of the value beyond its length.
#[verifier::external_body]
fn fresh_entry_id() -> (r: String)
    ensures
        r@.len() == 36,
{
    uuid::Uuid::new_v4().to_string()
}

/// Relies on `chrono::Utc::now` and `DateTime::to_rfc3339`: the current
/// time as an RFC 3339 date-and-time string. Nothing is assumed of the
/// value.
#[verifier::external_body]
fn current_timestamp() -> String {
    chrono::Utc::now().to_rfc3339()
}

/// Record one successful translation: a fresh entry — opaque unique id,
/// current timestamp — inserted at the head of the log, which stays within
/// its cap.
pub fn add_translation_to_history(
    history: &mut TranslationHistory,
    original_text: String,
    translated_text: String,
    detected_language: String,
    target_language: String,
)
    ensures
        final(history).entries@.len() >= 1,
        final(history).entries@ == spec_add_entry(
            old(history).entries@,
            final(history).entries@[0],
        ),
        final(history).entries@[0].original_text == original_text,
        final(history).entries@[0].translated_text == translated_text,
        final(history).entries@[0].detected_language == detected_language,
        final(history).entries@[0].target_language == target_language,
        final(history).entries@[0].id@.len() == 36,
{
    let entry = TranslationEntry {
        id: fresh_entry_id(),
        original_text,
        translated_text,
        detected_language,
        target_language,
        timestamp: current_timestamp(),
    };
    let ghost entry0 = entry;
    history.add_entry(entry);
    proof {
        assert((seq![entry0] + old(history).entries@)[0] == entry0);
        assert(spec_add_entry(old(history).entries@, entry0)[0] == entry0);
    }
}

/// The file text of one entry: a flat JSON object of its six fields.
pub open spec fn spec_entry_json(e: TranslationEntry) -> Seq<char> {
    "{\"id\":"@ + spec_json_string(e.id@) + ",\"original_text\":"@ + spec_json_string(
        e.original_text@,
    ) + ",\"translated_text\":"@ + spec_json_string(e.translated_text@)
        + ",\"detected_language\":"@ + spec_json_string(e.detected_language@)
        + ",\"target_language\":"@ + spec_json_string(e.target_language@) + ",\"timestamp\":"@
        + spec_json_string(e.timestamp@) + "}"@
}

/// The entry texts joined with commas.
pub open spec fn spec_entries_json(entries: Seq<TranslationEntry>) -> Seq<char>
    decreases entries.len(),
{
    if entries.len() == 0 {
        Seq::empty()
    } else if entries.len() == 1 {
        spec_entry_json(entries[0])
    } else {
        spec_entries_json(entries.drop_last()) + seq![','] + spec_entry_json(entries.last())
    }
}

/// The whole history file's text: one object holding the entry array.
pub open spec fn spec_history_json(entries: Seq<TranslationEntry>) -> Seq<char> {
    "{\"entries\":["@ + spec_entries_json(entries) + "]}"@
}

fn push_entry_json(out: &mut Vec<char>, e: &TranslationEntry)
    ensures
        final(out)@ == old(out)@ + spec_entry_json(*e),
{
    push_str_chars(out, "{\"id\":");
    push_json_quoted(out, e.id.as_str());
    push_str_chars(out, ",\"original_text\":");
    push_json_quoted(out, e.original_text.as_str());
    push_str_chars(out, ",\"translated_text\":");
    push_json_quoted(out, e.translated_text.as_str());
    push_str_chars(out, ",\"detected_language\":");
    push_json_quoted(out, e.detected_language.as_str());
    push_str_chars(out, ",\"target_language\":");
    push_json_quoted(out, e.target_language.as_str());
    push_str_chars(out, ",\"timestamp\":");
    push_json_quoted(out, e.timestamp.as_str());
    push_str_chars(out, "}");
    proof {
        assert(out@ =~= old(out)@ + spec_entry_json(*e));
    }
}

/// The text written to the history file for this store.
pub fn history_json_text(history: &TranslationHistory) -> (r: String)
    ensures
        r@ == spec_history_json(history.entries@),
{
    let mut out: Vec<char> = Vec::new();
    push_str_chars(&mut out, "{\"entries\":[");
    let n = history.entries.len();
    let mut i: usize = 0;
    while i < n
        invariant
            n == history.entries@.len(),
            i <= n,
            out@ == "{\"entries\":["@ + spec_entries_json(history.entries@.take(i as int)),
        decreases n - i,
    {
        proof {
            assert(history.entries@.take(i + 1).drop_last() =~= history.entries@.take(i as int));
            assert(history.entries@.take(i + 1).last() == history.entries@[i as int]);
        }
        if i > 0 {
            out.push(',');
        }
        push_entry_json(&mut out, &history.entries[i]);
        i = i + 1;
        proof {
            assert(out@ =~= "{\"entries\":["@ + spec_entries_json(
                history.entries@.take(i as int),
            ));
        }
    }
    push_str_chars(&mut out, "]}");
    proof {
        assert(history.entries@.take(n as int) =~= history.entries@);
        assert(out@ =~= spec_history_json(history.entries@));
    }
    string_of(&out)
}

/// Whether an entry document binds all six fields to strings.
pub open spec fn entry_doc_ok(item: JsonValue) -> bool {
    &&& obj_text(item, "id"@) is Some
    &&& obj_text(item, "original_text"@) is Some
    &&& obj_text(item, "translated_text"@) is Some
    &&& obj_text(item, "detected_language"@) is Some
    &&& obj_text(item, "target_language"@) is Some
    &&& obj_text(item, "timestamp"@) is Some
}

/// Whether `e` carries exactly the strings the entry document binds.
pub open spec fn entry_matches_doc(e: TranslationEntry, item: JsonValue) -> bool {
    &&& obj_text(item, "id"@) == Some(e.id@)
    &&& obj_text(item, "original_text"@) == Some(e.original_text@)
    &&& obj_text(item, "translated_text"@) == Some(e.translated_text@)
    &&& obj_text(item, "detected_language"@) == Some(e.detected_language@)
    &&& obj_text(item, "target_language"@) == Some(e.target_language@)
    &&& obj_text(item, "timestamp"@) == Some(e.timestamp@)
}

/// The entry array of a history document, when the document is an object
/// binding `entries` to an array.
pub open spec fn history_items(doc: JsonValue) -> Option<Seq<JsonValue>> {
    match doc {
        JsonValue::Obj(fields) => match obj_lookup(fields@, "entries"@) {
            Some(JsonValue::Arr(items)) => Some(items@),
            _ => None,
        },
        _ => None,
    }
}

/// Whether every item of the array is a well-shaped entry document.
pub open spec fn all_entries_ok(items: Seq<JsonValue>) -> bool {
    forall|k: int| 0 <= k < items.len() ==> entry_doc_ok(items[k])
}

fn entry_from_doc(item: &JsonValue) -> (r: Option<TranslationEntry>)
    ensures
        match r {
            Some(e) => entry_doc_ok(*item) && entry_matches_doc(e, *item),
            None => !entry_doc_ok(*item),
        },
{
    let id = match get_text_field(item, "id") {
        Some(s) => s,
        None => {
            return None;
        },
    };
    let original_text = match get_text_field(item, "original_text") {
        Some(s) => s,
        None => {
            return None;
        },
    };
    let translated_text = match get_text_field(item, "translated_text") {
        Some(s) => s,
        None => {
            return None;
        },
    };
    let detected_language = match get_text_field(item, "detected_language") {
        Some(s) => s,
        None => {
            return None;
        },
    };
    let target_language = match get_text_field(item, "target_language") {
        Some(s) => s,
        None => {
            return None;
        },
    };
    let timestamp = match get_text_field(item, "timestamp") {
        Some(s) => s,
        None => {
            return None;
        },
    };
    Some(
        TranslationEntry {
            id,
            original_text,
            translated_text,
            detected_language,
            target_language,
            timestamp,
        },
    )
}

/// Read a history store back from the history file's text. Tolerant: text
/// that is not a JSON object binding `entries` to an array of well-shaped
/// entries yields the empty store rather than an error.
pub fn history_from_text(s: &str) -> (r: TranslationHistory)
    ensures
        match json_doc_of(s@) {
            Some(doc) => match history_items(doc) {
                Some(items) => if all_entries_ok(items) {
                    r.entries@.len() == items.len() && (forall|k: int|
                        0 <= k < items.len() ==> entry_matches_doc(r.entries@[k], items[k]))
                } else {
                    r.entries@.len() == 0
                },
                None => r.entries@.len() == 0,
            },
            None => r.entries@.len() == 0,
        },
{
    let chars = chars_of(s);
    let doc = match parse_json_chars(&chars) {
        Some(doc) => doc,
        None => {
            return TranslationHistory::new();
        },
    };
    let items = match &doc {
        JsonValue::Obj(fields) => match crate::json::obj_get(fields, "entries") {
            Some(v) => match v {
                JsonValue::Arr(items) => items,
                _ => {
                    return TranslationHistory::new();
                },
            },
            None => {
                return TranslationHistory::new();
            },
        },
        _ => {
            return TranslationHistory::new();
        },
    };
    let mut entries: Vec<TranslationEntry> = Vec::new();
    let mut i: usize = 0;
    while i < items.len()
        invariant
            json_doc_of(s@) == Some(doc),
            history_items(doc) == Some(items@),
            i <= items@.len(),
            entries@.len() == i,
            forall|k: int| 0 <= k < i ==> entry_doc_ok(items@[k]),
            forall|k: int| 0 <= k < i ==> entry_matches_doc(entries@[k], items@[k]),
        decreases items@.len() - i,
    {
        match entry_from_doc(&items[i]) {
            Some(e) => {
                entries.push(e);
            },
            None => {
                return TranslationHistory::new();
            },
        }
        i = i + 1;
    }
    TranslationHistory { entries }
}

} // verus!
