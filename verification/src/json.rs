//! The JSON values the wire carries: an exact model of what the parser hands back, the
//! compact text those values serialize to, and lookups by key.
//!
//! Parsing is serde_json's; everything the library does with a parsed value — classifying it,
//! reading fields out of it — works on [`Json`], the library's own value type, and is verified
//! against the [`JsonTree`] model. Serializing is the compact JSON text of a value, written
//! here and proved against [`tree_text`].
use vstd::prelude::*;
use crate::text::{push_char, chars_of, push_decimal, decimal, append_str};
use vstd::string::StringExecFns;

verus! {

/// A JSON number as the parser distinguishes it: a non-negative integer, a negative integer,
/// or a float (carried as its compact JSON text).
pub enum NumberTree {
    Pos(u64),
    Neg(i64),
    Float(Seq<char>),
}

/// A JSON value with the order of its object fields: the model of [`Json`].
pub enum JsonTree {
    Null,
    Bool(bool),
    Number(NumberTree),
    Str(Seq<char>),
    Array(Seq<JsonTree>),
    Object(Seq<(Seq<char>, JsonTree)>),
}

/// A JSON value up to the order of its object fields: what a lookup by key can observe.
pub enum JsonValue {
    Null,
    Bool(bool),
    Number(NumberTree),
    Str(Seq<char>),
    Array(Seq<JsonValue>),
    Object(Map<Seq<char>, JsonValue>),
}

/// A JSON number.
#[derive(Debug)]
pub enum JsonNumber {
    /// An integer in `0..=u64::MAX`.
    Pos(u64),
    /// An integer below zero.
    Neg(i64),
    /// A float, as its compact JSON text.
    Float(String),
}

/// A JSON value; object fields keep their order.
#[derive(Debug)]
pub enum Json {
    Null,
    Bool(bool),
    Number(JsonNumber),
    Str(String),
    Array(Vec<Json>),
    Object(Vec<(String, Json)>),
}

/// The model of a number.
pub open spec fn number_tree(n: JsonNumber) -> NumberTree {
    match n {
        JsonNumber::Pos(u) => NumberTree::Pos(u),
        JsonNumber::Neg(i) => NumberTree::Neg(i),
        JsonNumber::Float(t) => NumberTree::Float(t@),
    }
}

/// The model of a value.
pub open spec fn json_tree(j: Json) -> JsonTree
    decreases j,
{
    match j {
        Json::Null => JsonTree::Null,
        Json::Bool(b) => JsonTree::Bool(b),
        Json::Number(n) => JsonTree::Number(number_tree(n)),
        Json::Str(s) => JsonTree::Str(s@),
        Json::Array(v) => JsonTree::Array(
            Seq::new(
                v@.len(),
                |i: int|
                    if 0 <= i < v@.len() {
                        json_tree(v@[i])
                    } else {
                        JsonTree::Null
                    },
            ),
        ),
        Json::Object(v) => JsonTree::Object(
            Seq::new(
                v@.len(),
                |i: int|
                    if 0 <= i < v@.len() {
                        (v@[i].0@, json_tree(v@[i].1))
                    } else {
                        (Seq::empty(), JsonTree::Null)
                    },
            ),
        ),
    }
}

impl View for Json {
    type V = JsonTree;

    open spec fn view(&self) -> JsonTree {
        json_tree(*self)
    }
}

/// The index of the first field named `key`, if any.
pub open spec fn field_index(fields: Seq<(Seq<char>, JsonTree)>, key: Seq<char>) -> Option<nat>
    decreases fields.len(),
{
    if fields.len() == 0 {
        None
    } else if fields[0].0 == key {
        Some(0)
    } else {
        match field_index(fields.drop_first(), key) {
            Some(i) => Some(i + 1),
            None => None,
        }
    }
}

/// The value of the first field named `key` of an object; `None` for a missing field and for
/// anything that is not an object.
pub open spec fn tree_get(t: JsonTree, key: Seq<char>) -> Option<JsonTree> {
    match t {
        JsonTree::Object(fields) => match field_index(fields, key) {
            Some(i) => if i < fields.len() {
                Some(fields[i as int].1)
            } else {
                None
            },
            None => None,
        },
        _ => None,
    }
}

/// The value a tree denotes once field order is forgotten (the first of two equal keys wins).
pub open spec fn tree_value(t: JsonTree) -> JsonValue
    decreases t,
{
    match t {
        JsonTree::Null => JsonValue::Null,
        JsonTree::Bool(b) => JsonValue::Bool(b),
        JsonTree::Number(n) => JsonValue::Number(n),
        JsonTree::Str(s) => JsonValue::Str(s),
        JsonTree::Array(items) => JsonValue::Array(
            Seq::new(
                items.len(),
                |i: int|
                    if 0 <= i < items.len() {
                        tree_value(items[i])
                    } else {
                        JsonValue::Null
                    },
            ),
        ),
        JsonTree::Object(fields) => JsonValue::Object(
            Map::new(
                |k: Seq<char>| field_index(fields, k) is Some,
                |k: Seq<char>|
                    match field_index(fields, k) {
                        Some(i) => if i < fields.len() {
                            tree_value(fields[i as int].1)
                        } else {
                            JsonValue::Null
                        },
                        None => JsonValue::Null,
                    },
            ),
        ),
    }
}

/// Characterizes `field_index`: the first index whose key matches.
pub proof fn lemma_field_index(fields: Seq<(Seq<char>, JsonTree)>, key: Seq<char>)
    ensures
        field_index(fields, key) matches Some(i) ==> i < fields.len() && fields[i as int].0
            == key && forall|j: int| 0 <= j < i ==> fields[j].0 != key,
        field_index(fields, key) is None ==> forall|j: int|
            0 <= j < fields.len() ==> fields[j].0 != key,
    decreases fields.len(),
{
    if fields.len() > 0 && fields[0].0 != key {
        lemma_field_index(fields.drop_first(), key);
        if field_index(fields, key) is None {
            assert forall|j: int| 0 <= j < fields.len() implies fields[j].0 != key by {
                if j > 0 {
                    assert(fields[j] == fields.drop_first()[j - 1]);
                }
            }
        } else {
            let i = field_index(fields, key)->Some_0;
            assert forall|j: int| 0 <= j < i implies fields[j].0 != key by {
                if j > 0 {
                    assert(fields[j] == fields.drop_first()[j - 1]);
                }
            }
        }
    }
}

/// The converse: the first matching index is what `field_index` finds.
pub proof fn lemma_field_index_is(fields: Seq<(Seq<char>, JsonTree)>, key: Seq<char>, i: nat)
    requires
        i < fields.len(),
        fields[i as int].0 == key,
        forall|j: int| 0 <= j < i ==> fields[j].0 != key,
    ensures
        field_index(fields, key) == Some(i),
    decreases i,
{
    if i > 0 {
        assert forall|j: int| 0 <= j < i - 1 implies fields.drop_first()[j].0 != key by {
            assert(fields.drop_first()[j] == fields[j + 1]);
        }
        lemma_field_index_is(fields.drop_first(), key, (i - 1) as nat);
    }
}

/// A field of a value, once field order is forgotten.
pub open spec fn value_get(v: JsonValue, key: Seq<char>) -> Option<JsonValue> {
    match v {
        JsonValue::Object(m) => if m.dom().contains(key) {
            Some(m[key])
        } else {
            None
        },
        _ => None,
    }
}

/// A lookup in a tree agrees with the lookup in the value it denotes.
pub proof fn lemma_tree_get_value(t: JsonTree, key: Seq<char>)
    ensures
        tree_get(t, key) matches Some(x) ==> value_get(tree_value(t), key) == Some(tree_value(x)),
        tree_get(t, key) is None ==> value_get(tree_value(t), key) is None,
{
    if let JsonTree::Object(fields) = t {
        lemma_field_index(fields, key);
    }
}

/// The hex digit for `n < 16`, lower case.
pub open spec fn hex_char(n: nat) -> char {
    if n < 10 {
        ((48 + n) as u8) as char
    } else {
        ((87 + n) as u8) as char
    }
}

/// How one character of a JSON string is written: `"` and `\` and the control characters are
/// escaped (the common ones by letter, the rest as `\u00XX`); everything else is itself.
pub open spec fn escape_char(c: char) -> Seq<char> {
    if c == '"' {
        seq!['\\', '"']
    } else if c == '\\' {
        seq!['\\', '\\']
    } else if c == '\u{8}' {
        seq!['\\', 'b']
    } else if c == '\t' {
        seq!['\\', 't']
    } else if c == '\n' {
        seq!['\\', 'n']
    } else if c == '\u{c}' {
        seq!['\\', 'f']
    } else if c == '\r' {
        seq!['\\', 'r']
    } else if (c as u32) < 32 {
        seq!['\\', 'u', '0', '0', hex_char((c as u32 / 16) as nat), hex_char((c as u32 % 16) as nat)]
    } else {
        seq![c]
    }
}

/// The escaped body of a JSON string.
pub open spec fn escape_str(s: Seq<char>) -> Seq<char>
    decreases s.len(),
{
    if s.len() == 0 {
        Seq::empty()
    } else {
        escape_str(s.drop_last()) + escape_char(s.last())
    }
}

/// A JSON string literal for `s`.
pub open spec fn quote(s: Seq<char>) -> Seq<char> {
    seq!['"'] + escape_str(s) + seq!['"']
}

/// The compact text of a number.
pub open spec fn number_text(n: NumberTree) -> Seq<char> {
    match n {
        NumberTree::Pos(u) => decimal(u as nat),
        NumberTree::Neg(i) => if i < 0 {
            seq!['-'] + decimal((-i) as nat)
        } else {
            decimal(i as nat)
        },
        NumberTree::Float(t) => t,
    }
}

/// The compact JSON text of a value: no whitespace, fields in order.
pub open spec fn tree_text(t: JsonTree) -> Seq<char>
    decreases t, 0nat,
{
    match t {
        JsonTree::Null => seq!['n', 'u', 'l', 'l'],
        JsonTree::Bool(b) => if b {
            seq!['t', 'r', 'u', 'e']
        } else {
            seq!['f', 'a', 'l', 's', 'e']
        },
        JsonTree::Number(n) => number_text(n),
        JsonTree::Str(s) => quote(s),
        JsonTree::Array(items) => seq!['['] + items_text(items, items.len()) + seq![']'],
        JsonTree::Object(fields) => seq!['{'] + fields_text(fields, fields.len()) + seq!['}'],
    }
}

/// The first `n` items of an array, comma separated.
pub open spec fn items_text(items: Seq<JsonTree>, n: nat) -> Seq<char>
    decreases items, n,
{
    if n == 0 || n > items.len() {
        Seq::empty()
    } else if n == 1 {
        tree_text(items[0])
    } else {
        items_text(items, (n - 1) as nat) + seq![','] + tree_text(items[n - 1])
    }
}

/// One object field: the quoted key, a colon, the value.
pub open spec fn field_text(key: Seq<char>, value: JsonTree) -> Seq<char>
    decreases value, 1nat,
{
    quote(key) + seq![':'] + tree_text(value)
}

/// The first `n` fields of an object, comma separated.
pub open spec fn fields_text(fields: Seq<(Seq<char>, JsonTree)>, n: nat) -> Seq<char>
    decreases fields, n,
{
    if n == 0 || n > fields.len() {
        Seq::empty()
    } else if n == 1 {
        field_text(fields[0].0, fields[0].1)
    } else {
        fields_text(fields, (n - 1) as nat) + seq![','] + field_text(
            fields[n - 1].0,
            fields[n - 1].1,
        )
    }
}


/// A value the compact text of which serde_json reads back as the same value: integers only
/// (a negative integer below zero), object keys distinct, and nested no deeper than `depth`.
pub open spec fn plain_at(t: JsonTree, depth: nat) -> bool
    decreases t,
{
    match t {
        JsonTree::Number(n) => match n {
            NumberTree::Pos(_) => true,
            NumberTree::Neg(i) => i < 0,
            NumberTree::Float(_) => false,
        },
        JsonTree::Array(items) => depth > 0 && forall|i: int|
            0 <= i < items.len() ==> plain_at(#[trigger] items[i], (depth - 1) as nat),
        JsonTree::Object(fields) => depth > 0 && (forall|i: int, j: int|
            0 <= i < j < fields.len() ==> fields[i].0 != fields[j].0) && forall|i: int|
            0 <= i < fields.len() ==> plain_at(#[trigger] fields[i].1, (depth - 1) as nat),
        _ => true,
    }
}

/// The bytes of a value's compact text.
pub open spec fn tree_bytes(t: JsonTree) -> Seq<u8> {
    vstd::utf8::encode_utf8(tree_text(t))
}

/// What `serde_json::from_slice::<serde_json::Value>` makes of `bytes`: `None` when it
/// rejects them, else the value with its fields in the map's order.
pub uninterp spec fn json_parse(bytes: Seq<u8>) -> Option<JsonTree>;

#[verifier::external_type_specification]
#[verifier::external_body]
pub struct ExJsonError(serde_json::Error);

#[verifier::external_type_specification]
#[verifier::external_body]
pub struct ExJsonValue(serde_json::Value);

#[verifier::external_type_specification]
#[verifier::external_body]
pub struct ExJsonNumber(serde_json::Number);

/// `serde_json::from_slice` into a `serde_json::Value`, converted to a [`Json`].
///
/// Claims: the result is exactly `json_parse(bytes)`; and serde_json reads the compact text
/// of a plain value (see [`plain_at`]) back as that value, up to field order — its map keeps
/// one value per key, in key order. It does not claim which bytes serde_json rejects beyond
/// that, nor the text of a float.
#[verifier::external_body]
pub fn parse_json(bytes: &[u8]) -> (r: Result<Json, serde_json::Error>)
    ensures
        r is Ok <==> json_parse(bytes@) is Some,
        r matches Ok(j) ==> json_parse(bytes@) == Some(j@),
        forall|t: JsonTree|
            #[trigger] tree_bytes(t) == bytes@ && plain_at(t, 100) ==> r is Ok
                && tree_value(r->Ok_0@) == tree_value(t),
{
    serde_json::from_slice::<serde_json::Value>(bytes).map(json_from_value)
}

/// The [`Json`] for a `serde_json::Value`, variant for variant — the conversion of
/// [`parse_json`]'s result, recursive and so a function of its own. A number is its `u64`,
/// else its `i64`, else its text.
#[verifier::external_body]
fn json_from_value(value: serde_json::Value) -> Json {
    match value {
        serde_json::Value::Null => Json::Null,
        serde_json::Value::Bool(b) => Json::Bool(b),
        serde_json::Value::Number(n) => Json::Number(match (n.as_u64(), n.as_i64()) {
            (Some(u), _) => JsonNumber::Pos(u),
            (None, Some(i)) => JsonNumber::Neg(i),
            (None, None) => JsonNumber::Float(n.to_string()),
        }),
        serde_json::Value::String(s) => Json::Str(s),
        serde_json::Value::Array(items) => Json::Array(items.into_iter().map(json_from_value).collect()),
        serde_json::Value::Object(map) => Json::Object(map.into_iter().map(|(k, v)| (k, json_from_value(v))).collect()),
    }
}

/// `Display` of a `serde_json::Error`: its message, with the position it stopped at.
///
/// Nothing is claimed of the text.
#[verifier::external_body]
pub(crate) fn error_text(e: &serde_json::Error) -> String {
    e.to_string()
}

/// A tree whose value is a string is that string.
pub proof fn lemma_value_str(t: JsonTree)
    ensures
        tree_value(t) is Str ==> t == JsonTree::Str(tree_value(t)->Str_0),
        tree_value(t) is Number ==> t == JsonTree::Number(tree_value(t)->Number_0),
        tree_value(t) is Bool ==> t == JsonTree::Bool(tree_value(t)->Bool_0),
        tree_value(t) is Null ==> t == JsonTree::Null,
{
}

/// The string a value holds, when it is one.
pub open spec fn tree_str(t: JsonTree) -> Option<Seq<char>> {
    match t {
        JsonTree::Str(s) => Some(s),
        _ => None,
    }
}

/// `serde_json::Value::as_u64`: a non-negative integer.
pub open spec fn tree_u64(t: JsonTree) -> Option<u64> {
    match t {
        JsonTree::Number(NumberTree::Pos(u)) => Some(u),
        _ => None,
    }
}

/// `serde_json::Value::as_i64`: an integer that fits an `i64`.
pub open spec fn tree_i64(t: JsonTree) -> Option<i64> {
    match t {
        JsonTree::Number(NumberTree::Pos(u)) => if u <= i64::MAX {
            Some(u as i64)
        } else {
            None
        },
        JsonTree::Number(NumberTree::Neg(i)) => Some(i),
        _ => None,
    }
}

impl Json {
    /// The first field named `key`, when this is an object that has one.
    pub fn get(&self, key: &str) -> (r: Option<&Json>)
        ensures
            r matches Some(v) ==> tree_get(self@, key@) == Some(v@),
            r is None ==> tree_get(self@, key@) is None,
    {
        match self {
            Json::Object(fields) => {
                let ghost fs = self@->Object_0;
                proof {
                    assert(self@ == JsonTree::Object(fs));
                    assert forall|k: int| 0 <= k < fields@.len() implies #[trigger] fs[k] == (fields@[k].0@, fields@[k].1@) by {}
                }
                let mut i: usize = 0;
                while i < fields.len()
                    invariant
                        i <= fields@.len(),
                        fs == json_tree(*self)->Object_0,
                        self@ == JsonTree::Object(fs),
                        fs.len() == fields@.len(),
                        forall|k: int| 0 <= k < fields@.len() ==> #[trigger] fs[k] == (fields@[k].0@, fields@[k].1@),
                        forall|k: int| 0 <= k < i ==> fs[k].0 != key@,
                    decreases fields@.len() - i,
                {
                    if crate::text::str_eq(fields[i].0.as_str(), key) {
                        proof {
                            lemma_field_index_is(fs, key@, i as nat);
                            assert(fs[i as int].1 == fields@[i as int].1@);
                        }
                        return Some(&fields[i].1);
                    }
                    i = i + 1;
                }
                proof {
                    lemma_field_index(fs, key@);
                    if field_index(fs, key@) is Some {
                        let i = field_index(fs, key@)->Some_0;
                        assert(fs[i as int].0 == key@);
                    }
                }
                None
            },
            _ => None,
        }
    }

    /// The string this value holds, when it is one.
    pub fn as_str(&self) -> (r: Option<&String>)
        ensures
            r matches Some(s) ==> tree_str(self@) == Some(s@),
            r is None ==> tree_str(self@) is None,
    {
        match self {
            Json::Str(s) => Some(s),
            _ => None,
        }
    }

    /// `as_u64`: the value as a non-negative integer.
    pub fn as_u64(&self) -> (r: Option<u64>)
        ensures
            r == tree_u64(self@),
    {
        match self {
            Json::Number(JsonNumber::Pos(u)) => Some(*u),
            _ => None,
        }
    }

    /// `as_i64`: the value as an integer that fits an `i64`.
    pub fn as_i64(&self) -> (r: Option<i64>)
        ensures
            r == tree_i64(self@),
    {
        match self {
            Json::Number(JsonNumber::Pos(u)) => if *u <= 9223372036854775807u64 {
                Some(*u as i64)
            } else {
                None
            },
            Json::Number(JsonNumber::Neg(i)) => Some(*i),
            _ => None,
        }
    }
}

/// The model of a list of object fields.
pub open spec fn fields_view(v: Seq<(String, Json)>) -> Seq<(Seq<char>, JsonTree)> {
    v.map_values(|f: (String, Json)| (f.0@, f.1@))
}

/// The model of a list of values.
pub open spec fn items_view(v: Seq<Json>) -> Seq<JsonTree> {
    v.map_values(|j: Json| j@)
}

/// An object with exactly these fields, in this order.
pub fn object_of(fields: Vec<(String, Json)>) -> (r: Json)
    ensures
        r@ == JsonTree::Object(fields_view(fields@)),
{
    let r: Json = Json::Object(fields);
    proof {
        assert(r@->Object_0 =~= fields_view(fields@));
    }
    r
}

/// An array with exactly these items, in this order.
pub fn array_of(items: Vec<Json>) -> (r: Json)
    ensures
        r@ == JsonTree::Array(items_view(items@)),
{
    let r: Json = Json::Array(items);
    proof {
        assert(r@->Array_0 =~= items_view(items@));
    }
    r
}

/// Append the field `key: value`.
pub fn push_field(fields: &mut Vec<(String, Json)>, key: &str, value: Json)
    ensures
        fields_view(final(fields)@) == fields_view(old(fields)@).push((key@, value@)),
{
    let k: String = String::from_str(key);
    fields.push((k, value));
    proof {
        assert(fields_view(fields@) =~= fields_view(old(fields)@).push((key@, value@)));
    }
}

/// The fields of those optional entries that are present, in order.
pub open spec fn present_fields(entries: Seq<(Seq<char>, Option<JsonTree>)>) -> Seq<(Seq<char>, JsonTree)>
    decreases entries.len(),
{
    if entries.len() == 0 {
        Seq::empty()
    } else {
        let rest = present_fields(entries.drop_last());
        match entries.last().1 {
            Some(t) => rest.push((entries.last().0, t)),
            None => rest,
        }
    }
}

/// Whether no two fields share a key.
pub open spec fn distinct_keys<T>(fields: Seq<(Seq<char>, T)>) -> bool {
    forall|i: int, j: int| 0 <= i < j < fields.len() ==> fields[i].0 != fields[j].0
}

/// Looking a key up after appending a field: an earlier match wins, else the new field.
pub proof fn lemma_field_index_push(fields: Seq<(Seq<char>, JsonTree)>, f: (Seq<char>, JsonTree), key: Seq<char>)
    ensures
        field_index(fields.push(f), key) == (match field_index(fields, key) {
            Some(i) => Some(i),
            None => if f.0 == key {
                Some(fields.len())
            } else {
                None
            },
        }),
{
    let s = fields.push(f);
    lemma_field_index(fields, key);
    lemma_field_index(s, key);
    match field_index(fields, key) {
        Some(i) => {
            assert forall|j: int| 0 <= j < i implies s[j].0 != key by {
                assert(s[j] == fields[j]);
            }
            lemma_field_index_is(s, key, i);
        },
        None => {
            if f.0 == key {
                assert forall|j: int| 0 <= j < fields.len() implies s[j].0 != key by {
                    assert(s[j] == fields[j]);
                }
                lemma_field_index_is(s, key, fields.len());
            } else {
                if field_index(s, key) is Some {
                    let i = field_index(s, key)->Some_0;
                    if i < fields.len() {
                        assert(s[i as int] == fields[i as int]);
                    }
                }
            }
        },
    }
}

/// Every present field comes from an entry with the same key and value.
pub proof fn lemma_present_from(entries: Seq<(Seq<char>, Option<JsonTree>)>)
    ensures
        forall|i: int|
            0 <= i < present_fields(entries).len() ==> exists|j: int|
                0 <= j < entries.len() && #[trigger] present_fields(entries)[i].0 == entries[j].0
                    && entries[j].1 == Some(present_fields(entries)[i].1),
    decreases entries.len(),
{
    if entries.len() > 0 {
        let e = entries.drop_last();
        lemma_present_from(e);
        let p = present_fields(entries);
        assert forall|i: int| 0 <= i < p.len() implies exists|j: int|
            0 <= j < entries.len() && #[trigger] p[i].0 == entries[j].0 && entries[j].1 == Some(p[i].1) by {
            if i < present_fields(e).len() {
                assert(p[i] == present_fields(e)[i]);
                let j = choose|j: int| 0 <= j < e.len() && present_fields(e)[i].0 == e[j].0 && e[j].1 == Some(present_fields(e)[i].1);
                assert(entries[j] == e[j]);
            } else {
                assert(p[i] == (entries.last().0, entries.last().1->Some_0));
                assert(entries[entries.len() - 1] == entries.last());
            }
        }
    }
}

/// The present fields of entries with distinct keys have distinct keys, and a key finds its
/// entry's value exactly when that entry is present.
pub proof fn lemma_present_fields(entries: Seq<(Seq<char>, Option<JsonTree>)>, key: Seq<char>)
    requires
        distinct_keys(entries),
    ensures
        distinct_keys(present_fields(entries)),
        (forall|j: int| 0 <= j < entries.len() ==> entries[j].0 != key) ==> field_index(
            present_fields(entries),
            key,
        ) is None,
        forall|j: int|
            0 <= j < entries.len() && #[trigger] entries[j].0 == key ==> match entries[j].1 {
                Some(t) => field_index(present_fields(entries), key) matches Some(i) && i
                    < present_fields(entries).len() && present_fields(entries)[i as int].1 == t,
                None => field_index(present_fields(entries), key) is None,
            },
    decreases entries.len(),
{
    if entries.len() > 0 {
        let e = entries.drop_last();
        let last = entries.last();
        assert(entries[entries.len() - 1] == last);
        assert forall|i: int, j: int| 0 <= i < j < e.len() implies e[i].0 != e[j].0 by {
            assert(e[i] == entries[i] && e[j] == entries[j]);
        }
        lemma_present_fields(e, key);
        lemma_present_from(e);
        let p = present_fields(e);
        match last.1 {
            Some(t) => {
                lemma_field_index_push(p, (last.0, t), key);
                assert forall|i: int, j: int|
                    0 <= i < j < p.push((last.0, t)).len() implies p.push((last.0, t))[i].0 != p.push((last.0, t))[j].0 by {
                    if j == p.len() {
                        assert(p.push((last.0, t))[i] == p[i]);
                        let k = choose|k: int| 0 <= k < e.len() && #[trigger] p[i].0 == e[k].0 && e[k].1 == Some(p[i].1);
                        assert(e[k] == entries[k]);
                    } else {
                        assert(p.push((last.0, t))[i] == p[i]);
                        assert(p.push((last.0, t))[j] == p[j]);
                    }
                }
            },
            None => {},
        }
        assert forall|j: int| 0 <= j < entries.len() && #[trigger] entries[j].0 == key implies match entries[j].1 {
            Some(t) => field_index(present_fields(entries), key) matches Some(i) && i
                < present_fields(entries).len() && present_fields(entries)[i as int].1 == t,
            None => field_index(present_fields(entries), key) is None,
        } by {
            if j < e.len() {
                assert(e[j] == entries[j]);
                if let Some(t) = last.1 {
                    lemma_field_index_push(p, (last.0, t), key);
                }
            } else {
                assert forall|k: int| 0 <= k < e.len() implies e[k].0 != key by {
                    assert(e[k] == entries[k]);
                }
                if let Some(t) = last.1 {
                    lemma_field_index_push(p, (last.0, t), key);
                }
            }
        }
        if forall|j: int| 0 <= j < entries.len() ==> entries[j].0 != key {
            assert forall|k: int| 0 <= k < e.len() implies e[k].0 != key by {
                assert(e[k] == entries[k]);
            }
            if let Some(t) = last.1 {
                lemma_field_index_push(p, (last.0, t), key);
            }
        }
    }
}

/// In an object whose keys are distinct, each field's key finds that field's value.
pub proof fn lemma_object_value(fields: Seq<(Seq<char>, JsonTree)>, j: int)
    requires
        distinct_keys(fields),
        0 <= j < fields.len(),
    ensures
        value_get(tree_value(JsonTree::Object(fields)), fields[j].0) == Some(tree_value(fields[j].1)),
        tree_get(JsonTree::Object(fields), fields[j].0) == Some(fields[j].1),
{
    lemma_field_index_is(fields, fields[j].0, j as nat);
}

/// A key that no field has finds nothing.
pub proof fn lemma_object_absent(fields: Seq<(Seq<char>, JsonTree)>, key: Seq<char>)
    requires
        forall|j: int| 0 <= j < fields.len() ==> fields[j].0 != key,
    ensures
        value_get(tree_value(JsonTree::Object(fields)), key) is None,
        tree_get(JsonTree::Object(fields), key) is None,
{
    lemma_field_index(fields, key);
    if field_index(fields, key) is Some {
        let i = field_index(fields, key)->Some_0;
        assert(fields[i as int].0 == key);
    }
}

/// In the present fields of entries with distinct keys, an entry's key finds its value exactly
/// when the entry is present.
pub proof fn lemma_entry_value(entries: Seq<(Seq<char>, Option<JsonTree>)>, j: int)
    requires
        distinct_keys(entries),
        0 <= j < entries.len(),
    ensures
        value_get(tree_value(JsonTree::Object(present_fields(entries))), entries[j].0) == (match entries[j].1 {
            Some(t) => Some(tree_value(t)),
            None => None,
        }),
        tree_get(JsonTree::Object(present_fields(entries)), entries[j].0) == entries[j].1,
{
    let key = entries[j].0;
    lemma_present_fields(entries, key);
    let p = present_fields(entries);
    match entries[j].1 {
        Some(t) => {
            let i = field_index(p, key)->Some_0;
            lemma_field_index(p, key);
            lemma_object_value(p, i as int);
        },
        None => {
            lemma_field_index(p, key);
            if field_index(p, key) is Some {
                let i = field_index(p, key)->Some_0;
                assert(p[i as int].0 == key);
            }
        },
    }
}

/// A key that no entry has finds nothing among the present fields.
pub proof fn lemma_entry_absent(entries: Seq<(Seq<char>, Option<JsonTree>)>, key: Seq<char>)
    requires
        distinct_keys(entries),
        forall|j: int| 0 <= j < entries.len() ==> entries[j].0 != key,
    ensures
        value_get(tree_value(JsonTree::Object(present_fields(entries))), key) is None,
        tree_get(JsonTree::Object(present_fields(entries)), key) is None,
{
    lemma_present_fields(entries, key);
    let p = present_fields(entries);
    lemma_field_index(p, key);
    if field_index(p, key) is Some {
        let i = field_index(p, key)->Some_0;
        assert(p[i as int].0 == key);
    }
}

/// The items of an array, related to the values they denote.
pub proof fn lemma_array_values(j: Json)
    requires
        j is Array,
    ensures
        tree_value(j@) is Array,
        tree_value(j@)->Array_0.len() == j->Array_0@.len(),
        forall|k: int|
            0 <= k < j->Array_0@.len() ==> #[trigger] tree_value(j@)->Array_0[k] == tree_value(
                j->Array_0@[k]@,
            ),
{
}

/// The value an optional lookup found.
pub open spec fn opt_value(x: Option<&Json>) -> Option<JsonValue> {
    match x {
        Some(j) => Some(tree_value(j@)),
        None => None,
    }
}

/// The field `key` of `j`, as a lookup in the value `j` denotes.
pub fn lookup<'a>(j: &'a Json, key: &str) -> (r: Option<&'a Json>)
    ensures
        opt_value(r) == value_get(tree_value(j@), key@),
{
    let r = j.get(key);
    proof {
        lemma_tree_get_value(j@, key@);
    }
    r
}

/// Append the JSON string literal for `s`.
pub fn write_quoted(out: &mut String, s: &str)
    ensures
        final(out)@ == old(out)@ + quote(s@),
{
    let cs: Vec<char> = chars_of(s);
    push_char(out, '"');
    let ghost start = out@;
    let mut i: usize = 0;
    while i < cs.len()
        invariant
            i <= cs@.len(),
            cs@ == s@,
            out@ == start + escape_str(cs@.take(i as int)),
        decreases cs@.len() - i,
    {
        let c: char = cs[i];
        let ghost before = out@;
        if c == '"' {
            push_char(out, '\\');
            push_char(out, '"');
        } else if c == '\\' {
            push_char(out, '\\');
            push_char(out, '\\');
        } else if c == '\u{8}' {
            push_char(out, '\\');
            push_char(out, 'b');
        } else if c == '\t' {
            push_char(out, '\\');
            push_char(out, 't');
        } else if c == '\n' {
            push_char(out, '\\');
            push_char(out, 'n');
        } else if c == '\u{c}' {
            push_char(out, '\\');
            push_char(out, 'f');
        } else if c == '\r' {
            push_char(out, '\\');
            push_char(out, 'r');
        } else if (c as u32) < 32 {
            let code: u32 = c as u32;
            push_char(out, '\\');
            push_char(out, 'u');
            push_char(out, '0');
            push_char(out, '0');
            push_char(out, hex_digit(code / 16));
            push_char(out, hex_digit(code % 16));
        } else {
            push_char(out, c);
        }
        proof {
            assert(out@ == before + escape_char(c));
            assert(cs@.take(i + 1).drop_last() == cs@.take(i as int));
            assert(cs@.take(i + 1).last() == c);
        }
        i = i + 1;
    }
    proof {
        assert(cs@.take(cs@.len() as int) == cs@);
    }
    push_char(out, '"');
    proof {
        assert(out@ == old(out)@ + quote(s@));
    }
}

/// The lower-case hex digit for `n < 16`.
fn hex_digit(n: u32) -> (r: char)
    requires
        n < 16,
    ensures
        r == hex_char(n as nat),
{
    if n < 10 {
        ((48 + n) as u8) as char
    } else {
        ((87 + n) as u8) as char
    }
}

/// Append the compact text of a number.
fn write_number(out: &mut String, n: &JsonNumber)
    ensures
        final(out)@ == old(out)@ + number_text(number_tree(*n)),
{
    match n {
        JsonNumber::Pos(u) => push_decimal(out, *u),
        JsonNumber::Neg(i) => {
            if *i < 0 {
                push_char(out, '-');
                let magnitude: u64 = (0i128 - (*i as i128)) as u64;
                push_decimal(out, magnitude);
            } else {
                push_decimal(out, *i as u64);
            }
        },
        JsonNumber::Float(t) => append_str(out, t.as_str()),
    }
}

/// Append the compact JSON text of `j`.
pub fn write_json(out: &mut String, j: &Json)
    ensures
        final(out)@ == old(out)@ + tree_text(j@),
    decreases j,
{
    match j {
        Json::Null => {
            proof {
                reveal_strlit("null");
            }
            append_str(out, "null");
        },
        Json::Bool(b) => {
            proof {
                reveal_strlit("true");
                reveal_strlit("false");
            }
            if *b {
                append_str(out, "true")
            } else {
                append_str(out, "false")
            }
        },
        Json::Number(n) => write_number(out, n),
        Json::Str(s) => write_quoted(out, s.as_str()),
        Json::Array(items) => {
            let ghost tree_items = j@->Array_0;
            push_char(out, '[');
            let ghost start = out@;
            let mut i: usize = 0;
            while i < items.len()
                invariant
                    i <= items@.len(),
                    tree_items == json_tree(*j)->Array_0,
                    (*j) is Array,
                    (*j)->Array_0 == *items,
                    tree_items.len() == items@.len(),
                    forall|k: int| 0 <= k < items@.len() ==> #[trigger] tree_items[k] == items@[k]@,
                    out@ == start + items_text(tree_items, i as nat),
                decreases items@.len() - i,
            {
                if i > 0 {
                    push_char(out, ',');
                }
                proof {
                    assert(decreases_to!(*j => (*j)->Array_0));
                    assert((*j)->Array_0 == *items);
                    assert(decreases_to!(*items => items@));
                    assert(decreases_to!(items@ => items@[i as int]));
                }
                write_json(out, &items[i]);
                proof {
                    if i > 0 {
                        assert(items_text(tree_items, (i + 1) as nat) == items_text(tree_items, i as nat) + seq![','] + tree_text(tree_items[i as int]));
                    }
                    assert(out@ == start + items_text(tree_items, (i + 1) as nat));
                }
                i = i + 1;
            }
            push_char(out, ']');
        },
        Json::Object(fields) => {
            let ghost tree_fields = j@->Object_0;
            push_char(out, '{');
            let ghost start = out@;
            let mut i: usize = 0;
            while i < fields.len()
                invariant
                    i <= fields@.len(),
                    tree_fields == json_tree(*j)->Object_0,
                    (*j) is Object,
                    (*j)->Object_0 == *fields,
                    tree_fields.len() == fields@.len(),
                    forall|k: int| 0 <= k < fields@.len() ==> #[trigger] tree_fields[k] == (fields@[k].0@, fields@[k].1@),
                    out@ == start + fields_text(tree_fields, i as nat),
                decreases fields@.len() - i,
            {
                if i > 0 {
                    push_char(out, ',');
                }
                let ghost mid = out@;
                write_quoted(out, fields[i].0.as_str());
                push_char(out, ':');
                proof {
                    assert(decreases_to!(*j => (*j)->Object_0));
                    assert((*j)->Object_0 == *fields);
                    assert(decreases_to!(*fields => fields@));
                    assert(decreases_to!(fields@ => fields@[i as int]));
                    assert(decreases_to!(fields@[i as int] => fields@[i as int].1));
                }
                write_json(out, &fields[i].1);
                proof {
                    let key = tree_fields[i as int].0;
                    let value = tree_fields[i as int].1;
                    assert(out@ == mid + field_text(key, value));
                    if i > 0 {
                        assert(fields_text(tree_fields, (i + 1) as nat) == fields_text(tree_fields, i as nat) + seq![','] + field_text(key, value));
                    }
                    assert(out@ == start + fields_text(tree_fields, (i + 1) as nat));
                }
                i = i + 1;
            }
            push_char(out, '}');
        },
    }
}

/// The compact JSON text of `j`.
pub fn json_text(j: &Json) -> (r: String)
    ensures
        r@ == tree_text(j@),
{
    let mut out: String = String::new();
    write_json(&mut out, j);
    proof {
        assert(Seq::<char>::empty() + tree_text(j@) == tree_text(j@));
    }
    out
}

} // verus!
