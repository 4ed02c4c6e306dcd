//! The central→device serializers — the daemon's half of the wire contract.
//!
//! [`inbound`](crate::wire::inbound) owns the device-side parse of every line the central
//! sends; this module owns the serialize of those same lines. Every function here is total and
//! a faithful mirror of [`parse_inbound`](crate::wire::inbound::parse_inbound): the tree each
//! writes is one serde_json reads back as itself, and that tree classifies as the message it
//! was written from.
//!
//! Absent (`None`) snapshot fields are omitted, never emitted as `null`: omitting `prompt`
//! clears it on the device, omitting a keep-prior field keeps it. A time sync always has
//! exactly two elements, so it can never be the wrong arity the device rejects.
use vstd::prelude::*;
use crate::json::{Json, JsonNumber, JsonTree, JsonValue, NumberTree, array_of, distinct_keys, fields_view, json_text, lemma_entry_absent, lemma_entry_value, lemma_object_absent, lemma_object_value, lemma_present_fields, lemma_present_from, lemma_tree_get_value, lemma_value_str, object_of, plain_at, present_fields, push_field, tree_get, tree_text, tree_value, value_get};
use crate::wire::command::CommandModel;
use crate::wire::inbound::{InboundModel, InboundParse, PacketModel, Prompt, PromptModel, SnapshotPacket, inbound_of, strings_view};
use vstd::string::StringExecFns;

verus! {

/// An unsigned integer as JSON.
pub open spec fn uint_tree(n: nat) -> JsonTree {
    JsonTree::Number(NumberTree::Pos(n as u64))
}

/// A signed integer as JSON: non-negative integers are read back as unsigned.
pub open spec fn int_tree(i: i64) -> JsonTree {
    if i >= 0 {
        JsonTree::Number(NumberTree::Pos(i as u64))
    } else {
        JsonTree::Number(NumberTree::Neg(i))
    }
}

/// A list of strings as JSON items.
pub open spec fn string_trees(v: Seq<Seq<char>>) -> Seq<JsonTree> {
    v.map_values(|s: Seq<char>| JsonTree::Str(s))
}

/// A prompt as JSON: `id`, `tool`, `hint`, in that order.
pub open spec fn prompt_tree(p: PromptModel) -> JsonTree {
    JsonTree::Object(
        seq![("id"@, JsonTree::Str(p.id)), ("tool"@, JsonTree::Str(p.tool)), ("hint"@, JsonTree::Str(p.hint))],
    )
}

/// The nine snapshot fields in declaration order, each with its JSON when present.
pub open spec fn packet_entries(p: PacketModel) -> Seq<(Seq<char>, Option<JsonTree>)> {
    seq![
        ("total"@, match p.total { Some(n) => Some(uint_tree(n as nat)), None => None }),
        ("running"@, match p.running { Some(n) => Some(uint_tree(n as nat)), None => None }),
        ("waiting"@, match p.waiting { Some(n) => Some(uint_tree(n as nat)), None => None }),
        ("completed"@, match p.completed { Some(b) => Some(JsonTree::Bool(b)), None => None }),
        ("tokens"@, match p.tokens { Some(n) => Some(uint_tree(n as nat)), None => None }),
        ("tokens_today"@, match p.tokens_today { Some(n) => Some(uint_tree(n as nat)), None => None }),
        ("msg"@, match p.msg { Some(s) => Some(JsonTree::Str(s)), None => None }),
        ("entries"@, match p.entries { Some(e) => Some(JsonTree::Array(string_trees(e))), None => None }),
        ("prompt"@, match p.prompt { Some(q) => Some(prompt_tree(q)), None => None }),
    ]
}

/// The JSON a snapshot line is the text of: the present fields only, in declaration order.
pub open spec fn packet_tree(p: PacketModel) -> JsonTree {
    JsonTree::Object(present_fields(packet_entries(p)))
}

/// The JSON of a time sync: `{"time":[epoch, tz_offset_s]}`.
pub open spec fn time_tree(epoch: i64, tz_offset_s: i32) -> JsonTree {
    JsonTree::Object(seq![("time"@, JsonTree::Array(seq![int_tree(epoch), int_tree(tz_offset_s as i64)]))])
}

/// The JSON of a connect message: `{"cmd":<cmd>,"name":<name>}`.
pub open spec fn cmd_name_tree(cmd: Seq<char>, name: Seq<char>) -> JsonTree {
    JsonTree::Object(seq![("cmd"@, JsonTree::Str(cmd)), ("name"@, JsonTree::Str(name))])
}

/// The model of an optional value.
pub open spec fn opt_tree(x: Option<Json>) -> Option<JsonTree> {
    match x {
        Some(j) => Some(j@),
        None => None,
    }
}

/// One step of collecting present fields: the entry at `k` is appended when present.
proof fn lemma_present_step(entries: Seq<(Seq<char>, Option<JsonTree>)>, k: int)
    requires
        0 <= k < entries.len(),
    ensures
        present_fields(entries.take(k + 1)) == (match entries[k].1 {
            Some(t) => present_fields(entries.take(k)).push((entries[k].0, t)),
            None => present_fields(entries.take(k)),
        }),
{
    assert(entries.take(k + 1).drop_last() =~= entries.take(k));
    assert(entries.take(k + 1).last() == entries[k]);
}

/// Append the field `key: value` when the value is present.
fn push_present(fields: &mut Vec<(String, Json)>, key: &str, value: Option<Json>)
    ensures
        fields_view(final(fields)@) == (match opt_tree(value) {
            Some(t) => fields_view(old(fields)@).push((key@, t)),
            None => fields_view(old(fields)@),
        }),
{
    if let Some(v) = value {
        push_field(fields, key, v);
    }
}

/// An unsigned integer as a JSON value.
fn uint_json(n: u64) -> (r: Json)
    ensures
        r@ == uint_tree(n as nat),
{
    Json::Number(JsonNumber::Pos(n))
}

/// A signed integer as a JSON value.
fn int_json(i: i64) -> (r: Json)
    ensures
        r@ == int_tree(i),
{
    if i >= 0 {
        Json::Number(JsonNumber::Pos(i as u64))
    } else {
        Json::Number(JsonNumber::Neg(i))
    }
}

/// A list of strings as a JSON array.
fn strings_json(v: &Vec<String>) -> (r: Json)
    ensures
        r@ == JsonTree::Array(string_trees(strings_view(v@))),
{
    let mut items: Vec<Json> = Vec::new();
    let mut i: usize = 0;
    while i < v.len()
        invariant
            i <= v@.len(),
            items@.len() == i,
            forall|k: int| 0 <= k < i ==> #[trigger] items@[k]@ == JsonTree::Str(v@[k]@),
        decreases v@.len() - i,
    {
        items.push(Json::Str(v[i].clone()));
        i = i + 1;
    }
    let r: Json = array_of(items);
    proof {
        assert(r@->Array_0 =~= string_trees(strings_view(v@)));
    }
    r
}

/// A prompt as a JSON object.
fn prompt_json(p: &Prompt) -> (r: Json)
    ensures
        r@ == prompt_tree(p@),
{
    let mut fields: Vec<(String, Json)> = Vec::new();
    push_field(&mut fields, "id", Json::Str(p.id.clone()));
    push_field(&mut fields, "tool", Json::Str(p.tool.clone()));
    push_field(&mut fields, "hint", Json::Str(p.hint.clone()));
    let r: Json = object_of(fields);
    proof {
        assert(r@->Object_0 =~= prompt_tree(p@)->Object_0);
    }
    r
}

/// Serialize a heartbeat snapshot to the wire line the device parses as a snapshot.
///
/// Absent (`None`) fields are omitted, never emitted as `null`.
pub fn serialize_snapshot(packet: &SnapshotPacket) -> (r: String)
    ensures
        r@ == tree_text(packet_tree(packet@)),
{
    let ghost entries = packet_entries(packet@);
    let mut fields: Vec<(String, Json)> = Vec::new();
    proof {
        assert(entries.take(0) =~= Seq::<(Seq<char>, Option<JsonTree>)>::empty());
        assert(fields_view(fields@) =~= present_fields(entries.take(0)));
    }
    push_present(&mut fields, "total", match packet.total { Some(n) => Some(uint_json(n as u64)), None => None });
    proof { lemma_present_step(entries, 0); }
    push_present(&mut fields, "running", match packet.running { Some(n) => Some(uint_json(n as u64)), None => None });
    proof { lemma_present_step(entries, 1); }
    push_present(&mut fields, "waiting", match packet.waiting { Some(n) => Some(uint_json(n as u64)), None => None });
    proof { lemma_present_step(entries, 2); }
    push_present(&mut fields, "completed", match packet.completed { Some(b) => Some(Json::Bool(b)), None => None });
    proof { lemma_present_step(entries, 3); }
    push_present(&mut fields, "tokens", match packet.tokens { Some(n) => Some(uint_json(n as u64)), None => None });
    proof { lemma_present_step(entries, 4); }
    push_present(&mut fields, "tokens_today", match packet.tokens_today { Some(n) => Some(uint_json(n as u64)), None => None });
    proof { lemma_present_step(entries, 5); }
    push_present(&mut fields, "msg", match &packet.msg { Some(s) => Some(Json::Str(s.clone())), None => None });
    proof { lemma_present_step(entries, 6); }
    push_present(&mut fields, "entries", match &packet.entries { Some(e) => Some(strings_json(e)), None => None });
    proof { lemma_present_step(entries, 7); }
    push_present(&mut fields, "prompt", match &packet.prompt { Some(q) => Some(prompt_json(q)), None => None });
    proof {
        lemma_present_step(entries, 8);
        assert(entries.take(9) =~= entries);
    }
    json_text(&object_of(fields))
}

/// Serialize a time sync to `{"time":[epoch, tz_offset_s]}` — always exactly two elements.
pub fn serialize_time(epoch: i64, tz_offset_s: i32) -> (r: String)
    ensures
        r@ == tree_text(time_tree(epoch, tz_offset_s)),
{
    let mut items: Vec<Json> = Vec::new();
    items.push(int_json(epoch));
    items.push(int_json(tz_offset_s as i64));
    let time: Json = array_of(items);
    let mut fields: Vec<(String, Json)> = Vec::new();
    push_field(&mut fields, "time", time);
    let j: Json = object_of(fields);
    proof {
        assert(time@->Array_0 =~= seq![int_tree(epoch), int_tree(tz_offset_s as i64)]);
        assert(j@->Object_0 =~= time_tree(epoch, tz_offset_s)->Object_0);
    }
    json_text(&j)
}

/// A `{"cmd":<cmd>,"name":<name>}` line.
fn cmd_name_line(cmd: &str, name: &str) -> (r: String)
    ensures
        r@ == tree_text(cmd_name_tree(cmd@, name@)),
{
    let mut fields: Vec<(String, Json)> = Vec::new();
    push_field(&mut fields, "cmd", Json::Str(String::from_str(cmd)));
    push_field(&mut fields, "name", Json::Str(String::from_str(name)));
    let j: Json = object_of(fields);
    proof {
        assert(j@->Object_0 =~= cmd_name_tree(cmd@, name@)->Object_0);
    }
    json_text(&j)
}

/// Serialize the owner-name connect message `{"cmd":"owner","name":<owner>}`; the owner label
/// travels under `name`, the key the device's command parse reads.
pub fn serialize_owner(owner: &str) -> (r: String)
    ensures
        r@ == tree_text(cmd_name_tree("owner"@, owner@)),
{
    cmd_name_line("owner", owner)
}

/// Serialize the buddy-name connect message `{"cmd":"name","name":<name>}`.
pub fn serialize_name(name: &str) -> (r: String)
    ensures
        r@ == tree_text(cmd_name_tree("name"@, name@)),
{
    cmd_name_line("name", name)
}


/// The keys of the snapshot fields, and the three keys a classification looks at first, are
/// all different.
proof fn lemma_snapshot_keys(p: PacketModel)
    ensures
        distinct_keys(packet_entries(p)),
        forall|j: int| 0 <= j < 9 ==> #[trigger] packet_entries(p)[j].0 != "time"@
            && packet_entries(p)[j].0 != "evt"@ && packet_entries(p)[j].0 != "cmd"@,
{
    reveal_strlit("total");
    reveal_strlit("running");
    reveal_strlit("waiting");
    reveal_strlit("completed");
    reveal_strlit("tokens");
    reveal_strlit("tokens_today");
    reveal_strlit("msg");
    reveal_strlit("entries");
    reveal_strlit("prompt");
    reveal_strlit("time");
    reveal_strlit("evt");
    reveal_strlit("cmd");
    let e = packet_entries(p);
    assert(e[0].0.len() == 5 && e[0].0[0] == 't');
    assert(e[1].0.len() == 7 && e[1].0[0] == 'r');
    assert(e[2].0.len() == 7 && e[2].0[0] == 'w');
    assert(e[3].0.len() == 9 && e[3].0[0] == 'c');
    assert(e[4].0.len() == 6 && e[4].0[0] == 't');
    assert(e[5].0.len() == 12 && e[5].0[0] == 't');
    assert(e[6].0.len() == 3 && e[6].0[0] == 'm');
    assert(e[7].0.len() == 7 && e[7].0[0] == 'e');
    assert(e[8].0.len() == 6 && e[8].0[0] == 'p');
    assert("time"@.len() == 4);
    assert("evt"@.len() == 3 && "evt"@[0] == 'e');
    assert("cmd"@.len() == 3 && "cmd"@[0] == 'c');
    assert forall|i: int, j: int| 0 <= i < j < e.len() implies e[i].0 != e[j].0 by {
        assert(i == 0 || i == 1 || i == 2 || i == 3 || i == 4 || i == 5 || i == 6 || i == 7 || i == 8);
        assert(j == 1 || j == 2 || j == 3 || j == 4 || j == 5 || j == 6 || j == 7 || j == 8);
    }
    assert forall|j: int| 0 <= j < 9 implies #[trigger] e[j].0 != "time"@ && e[j].0 != "evt"@
        && e[j].0 != "cmd"@ by {
        assert(j == 0 || j == 1 || j == 2 || j == 3 || j == 4 || j == 5 || j == 6 || j == 7 || j == 8);
    }
}

/// A prompt's JSON reads back as the prompt, and is plain.
proof fn lemma_prompt_tree(q: PromptModel)
    ensures
        crate::wire::inbound::prompt_of(tree_value(prompt_tree(q))) == Some(q),
        plain_at(prompt_tree(q), 99),
{
    reveal_strlit("id");
    reveal_strlit("tool");
    reveal_strlit("hint");
    let fields = prompt_tree(q)->Object_0;
    assert(fields[0].0.len() == 2 && fields[1].0.len() == 4 && fields[2].0.len() == 4);
    assert(fields[1].0[0] == 't' && fields[2].0[0] == 'h');
    assert(distinct_keys(fields));
    lemma_object_value(fields, 0);
    lemma_object_value(fields, 1);
    lemma_object_value(fields, 2);
    assert(plain_at(fields[0].1, 98));
    assert(plain_at(fields[1].1, 98));
    assert(plain_at(fields[2].1, 98));
}

/// A list of strings as JSON reads back as the list, and is plain.
proof fn lemma_strings_tree(e: Seq<Seq<char>>)
    ensures
        crate::wire::inbound::field_strings(Some(tree_value(JsonTree::Array(string_trees(e))))) == Some(Some(e)),
        plain_at(JsonTree::Array(string_trees(e)), 99),
{
    let items = tree_value(JsonTree::Array(string_trees(e)))->Array_0;
    assert(items.len() == e.len());
    assert forall|i: int| 0 <= i < items.len() implies #[trigger] items[i] == JsonValue::Str(e[i]) by {
        assert(string_trees(e)[i] == JsonTree::Str(e[i]));
        assert(tree_value(JsonTree::Str(e[i])) == JsonValue::Str(e[i]));
        assert(items[i] == tree_value(string_trees(e)[i]));
    }
    assert(crate::wire::inbound::strings_of(items) =~= e);
    assert forall|i: int| 0 <= i < string_trees(e).len() implies plain_at(#[trigger] string_trees(e)[i], 98) by {}
}

/// The snapshot line round-trips through the device's classification: the tree
/// [`serialize_snapshot`] writes is plain (so serde_json reads its text back as the same
/// value), and any tree denoting that value classifies as exactly the serialized packet.
pub proof fn snapshot_round_trip(p: PacketModel)
    ensures
        plain_at(packet_tree(p), 100),
        forall|t: JsonTree|
            tree_value(t) == tree_value(packet_tree(p)) ==> #[trigger] inbound_of(t)
                == InboundParse::Parsed(InboundModel::Snapshot(p)),
{
    let entries = packet_entries(p);
    let fields = present_fields(entries);
    let v = tree_value(packet_tree(p));
    lemma_snapshot_keys(p);
    lemma_present_fields(entries, "total"@);
    lemma_present_from(entries);
    if let Some(q) = p.prompt {
        lemma_prompt_tree(q);
    }
    if let Some(e) = p.entries {
        lemma_strings_tree(e);
    }
    assert forall|j: int| 0 <= j < 9 && (#[trigger] entries[j].1) is Some implies plain_at(
        entries[j].1->Some_0,
        99,
    ) by {}
    assert forall|i: int| 0 <= i < fields.len() implies plain_at(#[trigger] fields[i].1, 99) by {
        let j = choose|j: int| 0 <= j < entries.len() && fields[i].0 == entries[j].0 && entries[j].1 == Some(fields[i].1);
        assert(entries[j].1 is Some);
    }
    lemma_entry_value(entries, 0);
    lemma_entry_value(entries, 1);
    lemma_entry_value(entries, 2);
    lemma_entry_value(entries, 3);
    lemma_entry_value(entries, 4);
    lemma_entry_value(entries, 5);
    lemma_entry_value(entries, 6);
    lemma_entry_value(entries, 7);
    lemma_entry_value(entries, 8);
    assert(value_get(v, "total"@) == value_get(v, entries[0].0));
    assert(value_get(v, "running"@) == value_get(v, entries[1].0));
    assert(value_get(v, "waiting"@) == value_get(v, entries[2].0));
    assert(value_get(v, "completed"@) == value_get(v, entries[3].0));
    assert(value_get(v, "tokens"@) == value_get(v, entries[4].0));
    assert(value_get(v, "tokens_today"@) == value_get(v, entries[5].0));
    assert(value_get(v, "msg"@) == value_get(v, entries[6].0));
    assert(value_get(v, "entries"@) == value_get(v, entries[7].0));
    assert(value_get(v, "prompt"@) == value_get(v, entries[8].0));
    lemma_entry_absent(entries, "time"@);
    lemma_entry_absent(entries, "evt"@);
    lemma_entry_absent(entries, "cmd"@);
    assert forall|t: JsonTree| tree_value(t) == v implies #[trigger] inbound_of(t)
        == InboundParse::Parsed(InboundModel::Snapshot(p)) by {
        lemma_tree_get_value(t, "evt"@);
        lemma_tree_get_value(t, "cmd"@);
    }
}


/// An absent snapshot field is omitted from the line, never written as `null`: the tree has
/// no key for it, and no field of the tree is `null`.
pub proof fn absent_fields_are_omitted(p: PacketModel)
    ensures
        p.prompt is None ==> tree_get(packet_tree(p), "prompt"@) is None,
        forall|j: int|
            0 <= j < 9 && (#[trigger] packet_entries(p)[j]).1 is None ==> tree_get(
                packet_tree(p),
                packet_entries(p)[j].0,
            ) is None,
        forall|i: int|
            0 <= i < packet_tree(p)->Object_0.len() ==> !((#[trigger] packet_tree(p)->Object_0[i]).1 is Null),
{
    let entries = packet_entries(p);
    let fields = present_fields(entries);
    lemma_snapshot_keys(p);
    assert forall|j: int| 0 <= j < 9 && (#[trigger] entries[j]).1 is None implies tree_get(
        packet_tree(p),
        entries[j].0,
    ) is None by {
        lemma_entry_value(entries, j);
    }
    lemma_entry_value(entries, 8);
    lemma_present_fields(entries, "total"@);
    lemma_present_from(entries);
    assert forall|i: int| 0 <= i < fields.len() implies !((#[trigger] fields[i]).1 is Null) by {
        let j = choose|j: int| 0 <= j < entries.len() && fields[i].0 == entries[j].0 && entries[j].1 == Some(fields[i].1);
        assert(j == 0 || j == 1 || j == 2 || j == 3 || j == 4 || j == 5 || j == 6 || j == 7 || j == 8);
    }
}

/// A signed integer written as JSON reads back as itself.
proof fn lemma_int_tree(i: i64)
    ensures
        crate::wire::inbound::value_i64(tree_value(int_tree(i))) == Some(i),
        plain_at(int_tree(i), 98),
{
}

/// The time sync round-trips through the device's classification: its tree is plain, always
/// exactly two elements under `time`, and any tree denoting its value classifies as the same
/// time sync.
pub proof fn time_round_trip(epoch: i64, tz_offset_s: i32)
    ensures
        plain_at(time_tree(epoch, tz_offset_s), 100),
        time_tree(epoch, tz_offset_s)->Object_0[0].1->Array_0.len() == 2,
        forall|t: JsonTree|
            tree_value(t) == tree_value(time_tree(epoch, tz_offset_s)) ==> #[trigger] inbound_of(t)
                == InboundParse::Parsed(InboundModel::Time { epoch, tz_offset_s }),
{
    let tree = time_tree(epoch, tz_offset_s);
    let fields = tree->Object_0;
    lemma_int_tree(epoch);
    lemma_int_tree(tz_offset_s as i64);
    assert(((tz_offset_s as i64) as i32) == tz_offset_s);
    lemma_object_value(fields, 0);
    let items = fields[0].1->Array_0;
    assert(forall|i: int| 0 <= i < items.len() ==> plain_at(#[trigger] items[i], 98));
    assert(plain_at(fields[0].1, 99));
    let time = tree_value(fields[0].1);
    assert(time->Array_0.len() == 2);
    assert(time->Array_0[0] == tree_value(int_tree(epoch)));
    assert(time->Array_0[1] == tree_value(int_tree(tz_offset_s as i64)));
}

/// The keys of a connect message.
proof fn lemma_cmd_name_tree(cmd: Seq<char>, name: Seq<char>)
    ensures
        distinct_keys(cmd_name_tree(cmd, name)->Object_0),
        forall|j: int| 0 <= j < 2 ==> #[trigger] cmd_name_tree(cmd, name)->Object_0[j].0 != "time"@
            && cmd_name_tree(cmd, name)->Object_0[j].0 != "evt"@,
{
    reveal_strlit("cmd");
    reveal_strlit("name");
    reveal_strlit("time");
    reveal_strlit("evt");
    let f = cmd_name_tree(cmd, name)->Object_0;
    assert(f[0].0.len() == 3 && f[1].0.len() == 4);
    assert(f[0].0[0] == 'c' && f[1].0[0] == 'n');
    assert("time"@[0] == 't' && "evt"@.len() == 3 && "evt"@[0] == 'e');
    assert forall|j: int| 0 <= j < 2 implies #[trigger] f[j].0 != "time"@ && f[j].0 != "evt"@ by {
        assert(j == 0 || j == 1);
    }
}

/// A connect message classifies as the command it names, carrying the name.
proof fn lemma_cmd_name_classifies(cmd: Seq<char>, name: Seq<char>, t: JsonTree)
    requires
        tree_value(t) == tree_value(cmd_name_tree(cmd, name)),
    ensures
        plain_at(cmd_name_tree(cmd, name), 100),
        inbound_of(t) == InboundParse::Parsed(
            InboundModel::Command(crate::wire::inbound::command_of(tree_value(t), JsonTree::Str(cmd))),
        ),
        crate::wire::inbound::command_string(tree_value(t), "name"@) == name,
{
    let f = cmd_name_tree(cmd, name)->Object_0;
    lemma_cmd_name_tree(cmd, name);
    lemma_object_value(f, 0);
    lemma_object_value(f, 1);
    lemma_object_absent(f, "time"@);
    lemma_object_absent(f, "evt"@);
    lemma_tree_get_value(t, "evt"@);
    lemma_tree_get_value(t, "cmd"@);
    let x = tree_get(t, "cmd"@)->Some_0;
    lemma_value_str(x);
    assert(plain_at(f[0].1, 99) && plain_at(f[1].1, 99));
}

/// The owner connect message round-trips through the device's classification to an owner
/// command carrying the same label.
pub proof fn owner_round_trip(owner: Seq<char>)
    ensures
        plain_at(cmd_name_tree("owner"@, owner), 100),
        forall|t: JsonTree|
            tree_value(t) == tree_value(cmd_name_tree("owner"@, owner)) ==> #[trigger] inbound_of(t)
                == InboundParse::Parsed(InboundModel::Command(CommandModel::Owner(owner))),
{
    lemma_cmd_name_tree("owner"@, owner);
    assert forall|t: JsonTree| tree_value(t) == tree_value(cmd_name_tree("owner"@, owner)) implies #[trigger] inbound_of(t)
        == InboundParse::Parsed(InboundModel::Command(CommandModel::Owner(owner))) by {
        lemma_cmd_name_classifies("owner"@, owner, t);
        reveal_strlit("owner");
        reveal_strlit("name");
        assert("owner"@.len() == 5 && "name"@.len() == 4);
        assert("owner"@ != "species"@ && "owner"@ != "unpair"@) by {
            reveal_strlit("species");
            reveal_strlit("unpair");
            assert("species"@.len() == 7 && "unpair"@.len() == 6);
        }
    }
    lemma_cmd_name_classifies("owner"@, owner, cmd_name_tree("owner"@, owner));
}

/// The name connect message round-trips through the device's classification to a name
/// command carrying the same name.
pub proof fn name_round_trip(name: Seq<char>)
    ensures
        plain_at(cmd_name_tree("name"@, name), 100),
        forall|t: JsonTree|
            tree_value(t) == tree_value(cmd_name_tree("name"@, name)) ==> #[trigger] inbound_of(t)
                == InboundParse::Parsed(InboundModel::Command(CommandModel::Name(name))),
{
    assert forall|t: JsonTree| tree_value(t) == tree_value(cmd_name_tree("name"@, name)) implies #[trigger] inbound_of(t)
        == InboundParse::Parsed(InboundModel::Command(CommandModel::Name(name))) by {
        lemma_cmd_name_classifies("name"@, name, t);
    }
    lemma_cmd_name_classifies("name"@, name, cmd_name_tree("name"@, name));
}

} // verus!
