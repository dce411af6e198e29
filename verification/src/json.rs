//! A loosely-typed JSON document value, mirrored from `serde_json` at a
//! single trusted boundary. All logic that inspects a parsed document
//! (response extraction, configuration migration) works on this type and is
//! verified.

use crate::text::str_eq;
use vstd::prelude::*;

verus! {

/// An untyped JSON document: the library's own tagged union over plain
/// values. A number is kept as its decimal text, so that no value of the
/// document ever holds a floating-point field.
pub enum JsonValue {
    Null,
    Bool(bool),
    Num(String),
    Text(String),
    Arr(Vec<JsonValue>),
    Obj(Vec<(String, JsonValue)>),
}

/// The first binding of `key` among an object's fields, if any.
pub open spec fn obj_lookup(fields: Seq<(String, JsonValue)>, key: Seq<char>) -> Option<
    JsonValue,
>
    decreases fields.len(),
{
    if fields.len() == 0 {
        None
    } else if fields[0].0@ == key {
        Some(fields[0].1)
    } else {
        obj_lookup(fields.drop_first(), key)
    }
}

/// The string bound to `key` among an object's fields, if it is bound to
/// one.
pub open spec fn text_binding(fields: Seq<(String, JsonValue)>, key: Seq<char>) -> Option<
    Seq<char>,
> {
    match obj_lookup(fields, key) {
        Some(JsonValue::Text(s)) => Some(s@),
        _ => None,
    }
}

/// The boolean bound to `key` among an object's fields, if it is bound to
/// one.
pub open spec fn bool_binding(fields: Seq<(String, JsonValue)>, key: Seq<char>) -> Option<bool> {
    match obj_lookup(fields, key) {
        Some(JsonValue::Bool(b)) => Some(b),
        _ => None,
    }
}

/// The value bound to `key`, for an object document that binds it to a
/// string; `None` for every other document.
pub open spec fn obj_text(doc: JsonValue, key: Seq<char>) -> Option<Seq<char>> {
    match doc {
        JsonValue::Obj(fields) => text_binding(fields@, key),
        _ => None,
    }
}

/// A reference to the value bound to `key`, following `obj_lookup`.
pub fn obj_get<'a>(fields: &'a Vec<(String, JsonValue)>, key: &str) -> (r: Option<&'a JsonValue>)
    ensures
        match r {
            Some(v) => obj_lookup(fields@, key@) == Some(*v),
            None => obj_lookup(fields@, key@) is None,
        },
{
    let mut i: usize = 0;
    proof {
        assert(fields@.skip(0) =~= fields@);
    }
    while i < fields.len()
        invariant
            i <= fields@.len(),
            obj_lookup(fields@, key@) == obj_lookup(fields@.skip(i as int), key@),
        decreases fields@.len() - i,
    {
        proof {
            assert(fields@.skip(i as int)[0] == fields@[i as int]);
            assert(fields@.skip(i as int).drop_first() =~= fields@.skip(i + 1));
        }
        if str_eq(fields[i].0.as_str(), key) {
            return Some(&fields[i].1);
        }
        i = i + 1;
    }
    proof {
        assert(fields@.skip(fields@.len() as int).len() == 0);
    }
    None
}

/// The string bound to `key` among the fields, cloned; follows
/// `text_binding`.
pub fn get_text_binding(fields: &Vec<(String, JsonValue)>, key: &str) -> (r: Option<String>)
    ensures
        match r {
            Some(s) => text_binding(fields@, key@) == Some(s@),
            None => text_binding(fields@, key@) is None,
        },
{
    match obj_get(fields, key) {
        Some(JsonValue::Text(s)) => Some(s.clone()),
        _ => None,
    }
}

/// The boolean bound to `key` among the fields; follows `bool_binding`.
pub fn get_bool_binding(fields: &Vec<(String, JsonValue)>, key: &str) -> (r: Option<bool>)
    ensures
        match r {
            Some(b) => bool_binding(fields@, key@) == Some(b),
            None => bool_binding(fields@, key@) is None,
        },
{
    match obj_get(fields, key) {
        Some(JsonValue::Bool(b)) => Some(*b),
        _ => None,
    }
}

/// The fields with every binding of `key` removed.
pub open spec fn spec_obj_remove(fields: Seq<(String, JsonValue)>, key: Seq<char>) -> Seq<
    (String, JsonValue),
>
    decreases fields.len(),
{
    if fields.len() == 0 {
        Seq::empty()
    } else if fields[0].0@ == key {
        spec_obj_remove(fields.drop_first(), key)
    } else {
        seq![fields[0]] + spec_obj_remove(fields.drop_first(), key)
    }
}

/// Removing a key unbinds it and touches no other key.
pub proof fn lemma_obj_remove_lookup(fields: Seq<(String, JsonValue)>, key: Seq<char>)
    ensures
        obj_lookup(spec_obj_remove(fields, key), key) is None,
        forall|k: Seq<char>|
            k != key ==> #[trigger] obj_lookup(spec_obj_remove(fields, key), k) == obj_lookup(
                fields,
                k,
            ),
    decreases fields.len(),
{
    if fields.len() > 0 {
        lemma_obj_remove_lookup(fields.drop_first(), key);
        let rest = spec_obj_remove(fields.drop_first(), key);
        if fields[0].0@ != key {
            assert((seq![fields[0]] + rest)[0] == fields[0]);
            assert((seq![fields[0]] + rest).drop_first() =~= rest);
        }
        assert forall|k: Seq<char>| k != key implies #[trigger] obj_lookup(
            spec_obj_remove(fields, key),
            k,
        ) == obj_lookup(fields, k) by {
            if fields[0].0@ == key {
                assert(obj_lookup(fields, k) == obj_lookup(fields.drop_first(), k));
            } else {
                assert(obj_lookup(rest, k) == obj_lookup(fields.drop_first(), k));
            }
        }
    }
}

/// Appending a binding of an unbound key binds it and touches no other
/// key.
pub proof fn lemma_obj_push_lookup(fields: Seq<(String, JsonValue)>, pair: (String, JsonValue))
    requires
        obj_lookup(fields, pair.0@) is None,
    ensures
        obj_lookup(fields.push(pair), pair.0@) == Some(pair.1),
        forall|k: Seq<char>|
            k != pair.0@ ==> #[trigger] obj_lookup(fields.push(pair), k) == obj_lookup(fields, k),
    decreases fields.len(),
{
    if fields.len() == 0 {
        assert(fields.push(pair)[0] == pair);
        assert(fields.push(pair).drop_first() =~= Seq::<(String, JsonValue)>::empty());
        assert forall|k: Seq<char>| k != pair.0@ implies #[trigger] obj_lookup(
            fields.push(pair),
            k,
        ) == obj_lookup(fields, k) by {
            assert(obj_lookup(fields.push(pair), k) == obj_lookup(
                Seq::<(String, JsonValue)>::empty(),
                k,
            ));
        }
    } else {
        assert(fields.push(pair)[0] == fields[0]);
        assert(fields.push(pair).drop_first() =~= fields.drop_first().push(pair));
        lemma_obj_push_lookup(fields.drop_first(), pair);
        assert forall|k: Seq<char>| k != pair.0@ implies #[trigger] obj_lookup(
            fields.push(pair),
            k,
        ) == obj_lookup(fields, k) by {
            if fields[0].0@ != k {
                assert(obj_lookup(fields.drop_first().push(pair), k) == obj_lookup(
                    fields.drop_first(),
                    k,
                ));
            }
        }
    }
}

/// The fields with every binding of `key` removed, as `spec_obj_remove`.
pub fn obj_remove(fields: Vec<(String, JsonValue)>, key: &str) -> (r: Vec<(String, JsonValue)>)
    ensures
        r@ == spec_obj_remove(fields@, key@),
{
    let mut r: Vec<(String, JsonValue)> = Vec::new();
    let mut rest = fields;
    let ghost all = rest@;
    proof {
        assert(spec_obj_remove(all, key@) =~= r@ + spec_obj_remove(rest@, key@));
    }
    while rest.len() > 0
        invariant
            spec_obj_remove(all, key@) == r@ + spec_obj_remove(rest@, key@),
        decreases rest.len(),
    {
        let ghost prev_rest = rest@;
        let pair = rest.remove(0);
        proof {
            assert(rest@ =~= prev_rest.drop_first());
        }
        if !str_eq(pair.0.as_str(), key) {
            let ghost prev = r@;
            r.push(pair);
            proof {
                assert(spec_obj_remove(prev_rest, key@) =~= seq![pair] + spec_obj_remove(
                    rest@,
                    key@,
                ));
                assert(prev + (seq![pair] + spec_obj_remove(rest@, key@)) =~= r@ + spec_obj_remove(
                    rest@,
                    key@,
                ));
            }
        }
    }
    proof {
        assert(spec_obj_remove(rest@, key@) =~= Seq::<(String, JsonValue)>::empty());
        assert(r@ + spec_obj_remove(rest@, key@) =~= r@);
    }
    r
}

/// Bind `key` to `value`, replacing any earlier binding; no other key's
/// binding changes.
pub fn obj_set(fields: Vec<(String, JsonValue)>, key: &str, value: JsonValue) -> (r: Vec<
    (String, JsonValue),
>)
    ensures
        obj_lookup(r@, key@) == Some(value),
        forall|k: Seq<char>|
            k != key@ ==> #[trigger] obj_lookup(r@, k) == obj_lookup(fields@, k),
{
    let ghost oldf = fields@;
    let mut r = obj_remove(fields, key);
    proof {
        lemma_obj_remove_lookup(oldf, key@);
    }
    let pair = (String::from_str(key), value);
    proof {
        lemma_obj_push_lookup(r@, pair);
    }
    r.push(pair);
    r
}

/// The string bound to `key`, cloned out of the document; follows
/// `obj_text`.
pub fn get_text_field(doc: &JsonValue, key: &str) -> (r: Option<String>)
    ensures
        match r {
            Some(s) => obj_text(*doc, key@) == Some(s@),
            None => obj_text(*doc, key@) is None,
        },
{
    match doc {
        JsonValue::Obj(fields) => match obj_get(fields, key) {
            Some(JsonValue::Text(s)) => Some(s.clone()),
            _ => None,
        },
        _ => None,
    }
}

/// The lower-case hexadecimal digit of a value below sixteen.
pub open spec fn hex_digit(d: nat) -> char {
    if d == 0 {
        '0'
    } else if d == 1 {
        '1'
    } else if d == 2 {
        '2'
    } else if d == 3 {
        '3'
    } else if d == 4 {
        '4'
    } else if d == 5 {
        '5'
    } else if d == 6 {
        '6'
    } else if d == 7 {
        '7'
    } else if d == 8 {
        '8'
    } else if d == 9 {
        '9'
    } else if d == 10 {
        'a'
    } else if d == 11 {
        'b'
    } else if d == 12 {
        'c'
    } else if d == 13 {
        'd'
    } else if d == 14 {
        'e'
    } else {
        'f'
    }
}

/// How one character is written inside a JSON string literal: quote,
/// backslash and the named control characters get a two-character escape,
/// any other control character below space a `\u00XX` escape, and every
/// other character stands as itself.
pub open spec fn esc_char(c: char) -> Seq<char> {
    if c == '"' {
        seq!['\\', '"']
    } else if c == '\\' {
        seq!['\\', '\\']
    } else if c == '\n' {
        seq!['\\', 'n']
    } else if c == '\r' {
        seq!['\\', 'r']
    } else if c == '\t' {
        seq!['\\', 't']
    } else if (c as u32) < 0x20 {
        seq!['\\', 'u', '0', '0', hex_digit((c as u32) as nat / 16), hex_digit(
            (c as u32) as nat % 16,
        )]
    } else {
        seq![c]
    }
}

/// The body of a JSON string literal for `s`.
pub open spec fn spec_escape(s: Seq<char>) -> Seq<char>
    decreases s.len(),
{
    if s.len() == 0 {
        Seq::empty()
    } else {
        spec_escape(s.drop_last()) + esc_char(s.last())
    }
}

/// A complete JSON string literal for `s`, quotes included.
pub open spec fn spec_json_string(s: Seq<char>) -> Seq<char> {
    seq!['"'] + spec_escape(s) + seq!['"']
}

fn hex_digit_of(d: u32) -> (c: char)
    requires
        d < 16,
    ensures
        c == hex_digit(d as nat),
{
    match d {
        0 => '0',
        1 => '1',
        2 => '2',
        3 => '3',
        4 => '4',
        5 => '5',
        6 => '6',
        7 => '7',
        8 => '8',
        9 => '9',
        10 => 'a',
        11 => 'b',
        12 => 'c',
        13 => 'd',
        14 => 'e',
        _ => 'f',
    }
}

fn push_escaped_char(out: &mut Vec<char>, c: char)
    ensures
        final(out)@ == old(out)@ + esc_char(c),
{
    if c == '"' {
        out.push('\\');
        out.push('"');
    } else if c == '\\' {
        out.push('\\');
        out.push('\\');
    } else if c == '\n' {
        out.push('\\');
        out.push('n');
    } else if c == '\r' {
        out.push('\\');
        out.push('r');
    } else if c == '\t' {
        out.push('\\');
        out.push('t');
    } else {
        let u = c as u32;
        if u < 0x20 {
            out.push('\\');
            out.push('u');
            out.push('0');
            out.push('0');
            out.push(hex_digit_of(u / 16));
            out.push(hex_digit_of(u % 16));
        } else {
            out.push(c);
        }
    }
    proof {
        assert(out@ =~= old(out)@ + esc_char(c));
    }
}

/// Append the complete JSON string literal for `s`, quotes included.
pub fn push_json_quoted(out: &mut Vec<char>, s: &str)
    ensures
        final(out)@ == old(out)@ + spec_json_string(s@),
{
    let chars = crate::text::chars_of(s);
    out.push('"');
    proof {
        assert(out@ =~= old(out)@ + seq!['"'] + spec_escape(chars@.take(0)));
    }
    let mut i: usize = 0;
    while i < chars.len()
        invariant
            i <= chars@.len(),
            out@ == old(out)@ + seq!['"'] + spec_escape(chars@.take(i as int)),
        decreases chars@.len() - i,
    {
        proof {
            assert(chars@.take(i + 1).drop_last() =~= chars@.take(i as int));
            assert(chars@.take(i + 1).last() == chars@[i as int]);
        }
        push_escaped_char(out, chars[i]);
        i = i + 1;
    }
    out.push('"');
    proof {
        assert(chars@.take(chars@.len() as int) =~= chars@);
        assert(out@ =~= old(out)@ + spec_json_string(s@));
    }
}

/// What `serde_json` yields for this text: `Some` of the mirrored document
/// when the text is a single well-formed JSON value (within serde_json's
/// nesting limit), `None` otherwise. The result depends on the text alone.
pub uninterp spec fn json_doc_of(s: Seq<char>) -> Option<JsonValue>;

/// Relies on `serde_json::from_str::<serde_json::Value>`: parses the whole
/// text as one JSON value, or fails. The parsed value is mirrored into
/// [`JsonValue`] by [`doc_of_value`]; the pair of calls is named
/// [`json_doc_of`].
#[verifier::external_body]
pub fn parse_json_chars(s: &Vec<char>) -> (r: Option<JsonValue>)
    ensures
        r == json_doc_of(s@),
{
    let text: String = s.iter().collect();
    serde_json::from_str::<serde_json::Value>(&text).ok().map(doc_of_value)
}

#[verifier::external_type_specification]
#[verifier::external_body]
pub struct ExSerdeValue(serde_json::Value);

/// Relies on the shape of `serde_json::Value`: each variant is carried over
/// one for one, a number as its decimal text, an object as its entries in
/// iteration order.
#[verifier::external_body]
fn doc_of_value(v: serde_json::Value) -> JsonValue {
    match v {
        serde_json::Value::Null => JsonValue::Null,
        serde_json::Value::Bool(b) => JsonValue::Bool(b),
        serde_json::Value::Number(n) => JsonValue::Num(n.to_string()),
        serde_json::Value::String(s) => JsonValue::Text(s),
        serde_json::Value::Array(a) => JsonValue::Arr(a.into_iter().map(doc_of_value).collect()),
        serde_json::Value::Object(m) => JsonValue::Obj(
            m.into_iter().map(|p| (p.0, doc_of_value(p.1))).collect(),
        ),
    }
}

} // verus!
