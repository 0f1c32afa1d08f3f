//! JSON values, as `serde_json` holds, reads and writes them.
//!
//! A `serde_json::Value` is opaque; what it holds is named by [`json_view`].
use vstd::prelude::*;
use vstd::string::*;

verus! {

#[verifier::external_type_specification]
#[verifier::external_body]
pub struct ExValue(serde_json::Value);

/// What a JSON value holds.
pub enum Json {
    /// `null`
    Null,
    /// `true` or `false`
    Bool(bool),
    /// A number, as it is written.
    Number(Seq<char>),
    /// A string.
    Str(Seq<char>),
    /// An array.
    Array(Seq<Json>),
    /// An object: its entries in the order in which they are walked, no key twice.
    Object(Seq<(Seq<char>, Json)>),
}

/// What `value` holds.
pub uninterp spec fn json_view(value: serde_json::Value) -> Json;

/// What `serde_json` reads from a text in UTF-8; nothing where it is no JSON text.
pub uninterp spec fn json_parsed(bytes: Seq<u8>) -> Option<Json>;

/// What an optional value holds.
pub open spec fn opt_json(value: Option<serde_json::Value>) -> Option<Json> {
    match value {
        Some(v) => Some(json_view(v)),
        None => None,
    }
}

/// What a list of values holds.
pub open spec fn json_views(values: Seq<serde_json::Value>) -> Seq<Json> {
    values.map_values(|v: serde_json::Value| json_view(v))
}

/// The value of the first entry with the given key.
pub open spec fn entry(entries: Seq<(Seq<char>, Json)>, key: Seq<char>) -> Option<Json>
    decreases entries.len(),
{
    if entries.len() == 0 {
        None
    } else if entries[0].0 == key {
        Some(entries[0].1)
    } else {
        entry(entries.drop_first(), key)
    }
}

/// The value under `key`, where `json` is an object that has that key.
pub open spec fn get(json: Json, key: Seq<char>) -> Option<Json> {
    match json {
        Json::Object(entries) => entry(entries, key),
        _ => None,
    }
}

/// The text under `key`, where `json` is an object that has a string there.
pub open spec fn get_text(json: Json, key: Seq<char>) -> Option<Seq<char>> {
    match get(json, key) {
        Some(Json::Str(s)) => Some(s),
        _ => None,
    }
}

/// The text under `inner` of the object under `outer`.
pub open spec fn get_text_in(json: Json, outer: Seq<char>, inner: Seq<char>) -> Option<Seq<char>> {
    match get(json, outer) {
        Some(object) => get_text(object, inner),
        None => None,
    }
}

/// An object whose only entry is a string.
pub open spec fn single_entry(key: Seq<char>, text: Seq<char>) -> Json {
    Json::Object(seq![(key, Json::Str(text))])
}

/// The hexadecimal digit for a number under sixteen, with small letters.
pub open spec fn small_hex_digit(n: int) -> char {
    if n < 10 {
        (48 + n) as char
    } else {
        (87 + n) as char
    }
}

/// A character as it is written in a JSON string: quotes, backslashes and the
/// characters under the space with a backslash, and every other one as it is.
pub open spec fn escaped_char(c: char) -> Seq<char> {
    let n = c as int;
    if c == '"' {
        seq!['\\', '"']
    } else if c == '\\' {
        seq!['\\', '\\']
    } else if n == 0x08 {
        seq!['\\', 'b']
    } else if n == 0x09 {
        seq!['\\', 't']
    } else if n == 0x0a {
        seq!['\\', 'n']
    } else if n == 0x0c {
        seq!['\\', 'f']
    } else if n == 0x0d {
        seq!['\\', 'r']
    } else if n < 0x20 {
        seq!['\\', 'u', '0', '0', small_hex_digit(n / 16), small_hex_digit(n % 16)]
    } else {
        seq![c]
    }
}

/// The characters of a JSON string as they are written.
pub open spec fn escaped(s: Seq<char>) -> Seq<char>
    decreases s.len(),
{
    if s.len() == 0 {
        Seq::empty()
    } else {
        escaped_char(s[0]) + escaped(s.drop_first())
    }
}

/// A JSON string as it is written.
pub open spec fn quoted(s: Seq<char>) -> Seq<char> {
    seq!['"'] + escaped(s) + seq!['"']
}

/// The compact text of a value.
pub open spec fn json_text(json: Json) -> Seq<char>
    decreases json,
{
    match json {
        Json::Null => "null"@,
        Json::Bool(b) => if b {
            "true"@
        } else {
            "false"@
        },
        Json::Number(n) => n,
        Json::Str(s) => quoted(s),
        Json::Array(items) => seq!['['] + items_text(items) + seq![']'],
        Json::Object(entries) => seq!['{'] + entries_text(entries) + seq!['}'],
    }
}

/// The texts of the elements of an array, with commas between them.
pub open spec fn items_text(items: Seq<Json>) -> Seq<char>
    decreases items,
{
    if items.len() == 0 {
        Seq::empty()
    } else if items.len() == 1 {
        json_text(items[0])
    } else {
        items_text(items.drop_last()) + seq![','] + json_text(items.last())
    }
}

/// The texts of the entries of an object, with commas between them.
pub open spec fn entries_text(entries: Seq<(Seq<char>, Json)>) -> Seq<char>
    decreases entries,
{
    if entries.len() == 0 {
        Seq::empty()
    } else if entries.len() == 1 {
        quoted(entries[0].0) + seq![':'] + json_text(entries[0].1)
    } else {
        entries_text(entries.drop_last()) + seq![','] + quoted(entries.last().0) + seq![':']
            + json_text(entries.last().1)
    }
}

/// The character that a backslash and the given one stand for.
pub open spec fn unescaped_char(c: char) -> char {
    if c == 'b' {
        8 as char
    } else if c == 't' {
        9 as char
    } else if c == 'n' {
        10 as char
    } else if c == 'f' {
        12 as char
    } else if c == 'r' {
        13 as char
    } else {
        c
    }
}

/// The number that a hexadecimal digit with small letters stands for.
pub open spec fn small_hex_value(c: char) -> int {
    if c as int <= 57 {
        c as int - 48
    } else {
        c as int - 87
    }
}

/// The characters that the inside of a written JSON string stands for.
pub open spec fn unescaped(t: Seq<char>) -> Seq<char>
    decreases t.len(),
{
    if t.len() == 0 {
        Seq::empty()
    } else if t[0] == '\\' && t.len() >= 6 && t[1] == 'u' {
        seq![(16 * small_hex_value(t[4]) + small_hex_value(t[5])) as char] + unescaped(t.skip(6))
    } else if t[0] == '\\' && t.len() >= 2 {
        seq![unescaped_char(t[1])] + unescaped(t.skip(2))
    } else {
        seq![t[0]] + unescaped(t.drop_first())
    }
}

proof fn lemma_control_char(c: char)
    requires
        (c as int) < 0x20,
    ensures
        (16 * small_hex_value(small_hex_digit(c as int / 16)) + small_hex_value(
            small_hex_digit(c as int % 16),
        )) as char == c,
{
    let n = c as int;
    assert(0 <= n < 0x20);
    assert(n / 16 < 10);
    assert(small_hex_value(small_hex_digit(n % 16)) == n % 16);
    assert(16 * (n / 16) + n % 16 == n);
}

/// Writing a string loses nothing: what is written reads back as the string.
pub proof fn law_written_string_reads_back(s: Seq<char>)
    ensures
        unescaped(escaped(s)) == s,
    decreases s.len(),
{
    if s.len() > 0 {
        let rest = escaped(s.drop_first());
        let all = escaped(s);
        law_written_string_reads_back(s.drop_first());
        let n = escaped_char(s[0]).len() as int;
        assert(all.skip(n) =~= rest);
        assert(n == 1 ==> all.drop_first() =~= rest);
        assert(forall|k: int| 0 <= k < n ==> all[k] == escaped_char(s[0])[k]);
        if n == 6 {
            assert(all[1] == 'u');
            lemma_control_char(s[0]);
            assert(unescaped(all) =~= seq![s[0]] + unescaped(rest));
        } else if n == 2 {
            assert(unescaped_char(all[1]) == s[0]);
            assert(unescaped(all) =~= seq![s[0]] + unescaped(rest));
        } else {
            assert(unescaped(all) =~= seq![s[0]] + unescaped(rest));
        }
        assert(seq![s[0]] + s.drop_first() =~= s);
    }
}

/// `serde_json::Value::get` with a string: the value under the key, where the
/// value is an object that has it.
#[verifier::external_body]
pub(crate) fn value_get<'a>(value: &'a serde_json::Value, key: &str) -> (r: Option<
    &'a serde_json::Value,
>)
    ensures
        match r {
            Some(v) => get(json_view(*value), key@) == Some(json_view(*v)),
            None => get(json_view(*value), key@) is None,
        },
{
    value.get(key)
}

/// `serde_json::Value::as_array`: the elements, where the value is an array.
#[verifier::external_body]
pub(crate) fn value_array(value: &serde_json::Value) -> (r: Option<&Vec<serde_json::Value>>)
    ensures
        match r {
            Some(list) => json_view(*value) == Json::Array(json_views(list@)),
            None => json_view(*value) !is Array,
        },
{
    value.as_array()
}

/// `serde_json::Value::as_str`: the text, where the value is a string.
#[verifier::external_body]
pub(crate) fn value_str(value: &serde_json::Value) -> (r: Option<&str>)
    ensures
        match r {
            Some(s) => json_view(*value) == Json::Str(s@),
            None => json_view(*value) !is Str,
        },
{
    value.as_str()
}

/// `to_string` of a `serde_json::Value`: its compact text.
#[verifier::external_body]
pub(crate) fn value_text(value: &serde_json::Value) -> (r: String)
    ensures
        r@ == json_text(json_view(*value)),
{
    value.to_string()
}

/// `serde_json::Map::insert` into an empty map: an object whose only entry is a
/// string.
#[verifier::external_body]
pub(crate) fn value_single_entry(key: &str, text: &str) -> (r: serde_json::Value)
    ensures
        json_view(r) == single_entry(key@, text@),
{
    let mut map = serde_json::Map::new();
    map.insert(key.to_string(), serde_json::Value::String(text.to_string()));
    serde_json::Value::Object(map)
}

/// `serde_json::from_slice` into a `serde_json::Value`: what the bytes hold, if they
/// are a JSON text.
#[verifier::external_body]
pub(crate) fn value_from_slice(bytes: &[u8]) -> (r: Option<serde_json::Value>)
    ensures
        opt_json(r) == json_parsed(bytes@),
{
    serde_json::from_slice(bytes).ok()
}

/// The text under `key`, where `value` is an object that has a string there.
pub fn text_at<'a>(value: &'a serde_json::Value, key: &str) -> (r: Option<&'a str>)
    ensures
        match r {
            Some(s) => get_text(json_view(*value), key@) == Some(s@),
            None => get_text(json_view(*value), key@) is None,
        },
        match r {
            Some(s) => get(json_view(*value), key@) == Some(Json::Str(s@)),
            None => get(json_view(*value), key@) is None || get(json_view(*value), key@)->0 !is Str,
        },
{
    match value_get(value, key) {
        Some(v) => value_str(v),
        None => None,
    }
}

/// The text under `inner` of the object under `outer`.
pub fn text_in<'a>(value: &'a serde_json::Value, outer: &str, inner: &str) -> (r: Option<&'a str>)
    ensures
        match r {
            Some(s) => get_text_in(json_view(*value), outer@, inner@) == Some(s@),
            None => get_text_in(json_view(*value), outer@, inner@) is None,
        },
{
    match value_get(value, outer) {
        Some(v) => text_at(v, inner),
        None => None,
    }
}

/// The text of a value as it stands on a command line: a string stands for itself,
/// without quotes; any other value is written as JSON.
pub open spec fn plain_text(json: Json) -> Seq<char> {
    match json {
        Json::Str(s) => s,
        other => json_text(other),
    }
}

/// The text of a value as it stands on a command line.
pub fn value_plain_text(value: &serde_json::Value) -> (r: String)
    ensures
        r@ == plain_text(json_view(*value)),
        match json_view(*value) {
            Json::Str(s) => r@ == s,
            other => r@ == json_text(other),
        },
{
    match value_str(value) {
        Some(s) => s.to_owned(),
        None => value_text(value),
    }
}

/// A text is found under a key exactly where the value there is a string, and within the
/// object under another key exactly where that object has such a string.
pub proof fn law_texts_are_strings_under_keys(
    json: Json,
    outer: Seq<char>,
    inner: Seq<char>,
    text: Seq<char>,
)
    ensures
        get_text(json, inner) == Some(text) <==> get(json, inner) == Some(Json::Str(text)),
        get_text_in(json, outer, inner) == Some(text) <==> (get(json, outer) is Some && get(
            get(json, outer)->0,
            inner,
        ) == Some(Json::Str(text))),
{
}

/// An object gives the value of the first entry with the key, and nothing where no entry
/// has it; what is no object gives nothing.
pub proof fn law_entries_are_found_by_their_keys(
    entries: Seq<(Seq<char>, Json)>,
    key: Seq<char>,
    other: Json,
)
    ensures
        match get(Json::Object(entries), key) {
            Some(value) => exists|i: int|
                0 <= i < entries.len() && #[trigger] entries[i] == (key, value) && (forall|j: int|
                    0 <= j < i ==> (#[trigger] entries[j]).0 != key),
            None => forall|i: int| 0 <= i < entries.len() ==> (#[trigger] entries[i]).0 != key,
        },
        other !is Object ==> get(other, key) is None,
    decreases entries.len(),
{
    if entries.len() > 0 {
        let rest = entries.drop_first();
        if entries[0].0 == key {
            assert(entries[0] == (key, entries[0].1));
        } else {
            law_entries_are_found_by_their_keys(rest, key, other);
            match get(Json::Object(rest), key) {
                Some(value) => {
                    let i = choose|i: int|
                        0 <= i < rest.len() && #[trigger] rest[i] == (key, value) && (forall|j: int|
                            0 <= j < i ==> (#[trigger] rest[j]).0 != key);
                    assert(entries[i + 1] == (key, value));
                    assert forall|j: int| 0 <= j < i + 1 implies (#[trigger] entries[j]).0
                        != key by {
                        if j > 0 {
                            assert(rest[j - 1] == entries[j]);
                        }
                    }
                },
                None => {
                    assert forall|i: int| 0 <= i < entries.len() implies (
                    #[trigger] entries[i]).0 != key by {
                        if i > 0 {
                            assert(rest[i - 1] == entries[i]);
                        }
                    }
                },
            }
        }
    }
}

/// On a command line a string stands as it is, and every other value as JSON.
pub proof fn law_strings_stand_for_themselves(s: Seq<char>, other: Json)
    ensures
        plain_text(Json::Str(s)) == s,
        other !is Str ==> plain_text(other) == json_text(other),
{
}

} // verus!
