//! Classifying one inbound line, and the asymmetric snapshot merge.
//!
//! [`Inbound`] is an exhaustive enum over the four message shapes: a heartbeat snapshot, a
//! time sync, a command, and a transcript event. [`parse_inbound`] classifies a line into one
//! of them or a typed error. Only [`Inbound::Snapshot`] carries a [`SnapshotPacket`] that can
//! reach [`SnapshotState::merge`], so no other shape can touch prompt state.
//!
//! The merge is asymmetric on absent fields: an absent `completed` resets to `false`, an
//! absent `prompt` clears it, and `total`, `running`, `waiting`, `tokens_today`, `msg` and
//! `entries` keep their prior values; `tokens` is forwarded only when present.
//!
//! A time sync is accepted only as a top-level array of exactly two integers; anything else
//! under `time` is [`InboundError::TimeArity`], never a fall-through to the snapshot merge.
use vstd::prelude::*;
use crate::json::{Json, JsonNumber, JsonTree, JsonValue, NumberTree, error_text, json_parse, json_text, lemma_array_values, lookup, opt_value, parse_json, tree_get, tree_text, tree_value, value_get};
use crate::text::str_eq;
use crate::wire::command::{Command, CommandModel, dispatch_model};
use vstd::string::StringExecFns;

verus! {

/// A pending approval prompt on the wire.
#[derive(Clone, PartialEq, Eq, Debug)]
pub struct Prompt {
    /// The prompt id echoed back in a permission response.
    pub id: String,
    /// The tool the prompt is about.
    pub tool: String,
    /// A short human hint.
    pub hint: String,
}

/// The model of a [`Prompt`].
pub struct PromptModel {
    pub id: Seq<char>,
    pub tool: Seq<char>,
    pub hint: Seq<char>,
}

impl View for Prompt {
    type V = PromptModel;

    open spec fn view(&self) -> PromptModel {
        PromptModel { id: self.id@, tool: self.tool@, hint: self.hint@ }
    }
}

impl Prompt {
    /// A copy of this prompt.
    pub fn duplicate(&self) -> (r: Prompt)
        ensures
            r@ == self@,
    {
        Prompt { id: self.id.clone(), tool: self.tool.clone(), hint: self.hint.clone() }
    }
}

/// A copy of an optional prompt.
pub fn duplicate_prompt(p: &Option<Prompt>) -> (r: Option<Prompt>)
    ensures
        opt_prompt_view(r) == opt_prompt_view(*p),
{
    match p {
        Some(prompt) => Some(prompt.duplicate()),
        None => None,
    }
}

/// The model of an optional prompt.
pub open spec fn opt_prompt_view(p: Option<Prompt>) -> Option<PromptModel> {
    match p {
        Some(prompt) => Some(prompt@),
        None => None,
    }
}

/// A transcript event — the `{"evt":..}` shape.
#[derive(Clone, PartialEq, Eq, Debug)]
pub enum BuddyEvent {
    /// The documented `{"evt":"turn"}` event.
    Turn,
    /// Any other `evt` value.
    Other(String),
}

/// The model of a [`BuddyEvent`].
pub enum EventModel {
    Turn,
    Other(Seq<char>),
}

impl View for BuddyEvent {
    type V = EventModel;

    open spec fn view(&self) -> EventModel {
        match self {
            BuddyEvent::Turn => EventModel::Turn,
            BuddyEvent::Other(s) => EventModel::Other(s@),
        }
    }
}

/// The model of a list of strings.
pub open spec fn strings_view(v: Seq<String>) -> Seq<Seq<char>> {
    v.map_values(|s: String| s@)
}

/// The parsed fields of one snapshot packet: absent fields are `None` and drive the asymmetric
/// merge.
#[derive(Clone, PartialEq, Eq, Debug, Default)]
pub struct SnapshotPacket {
    /// Total session count; absent keeps prior.
    pub total: Option<u8>,
    /// Running session count; absent keeps prior.
    pub running: Option<u8>,
    /// Waiting session count; absent keeps prior.
    pub waiting: Option<u8>,
    /// Completion flag; absent resets to `false`.
    pub completed: Option<bool>,
    /// Desktop token total; forwarded to the stats latch only when present.
    pub tokens: Option<u32>,
    /// Today's token count; absent keeps prior.
    pub tokens_today: Option<u32>,
    /// The status line; absent keeps prior.
    pub msg: Option<String>,
    /// The transcript entries, oldest first; absent keeps prior.
    pub entries: Option<Vec<String>>,
    /// The pending prompt; absent clears it.
    pub prompt: Option<Prompt>,
}

/// The model of a [`SnapshotPacket`].
pub struct PacketModel {
    pub total: Option<u8>,
    pub running: Option<u8>,
    pub waiting: Option<u8>,
    pub completed: Option<bool>,
    pub tokens: Option<u32>,
    pub tokens_today: Option<u32>,
    pub msg: Option<Seq<char>>,
    pub entries: Option<Seq<Seq<char>>>,
    pub prompt: Option<PromptModel>,
}

impl View for SnapshotPacket {
    type V = PacketModel;

    open spec fn view(&self) -> PacketModel {
        PacketModel {
            total: self.total,
            running: self.running,
            waiting: self.waiting,
            completed: self.completed,
            tokens: self.tokens,
            tokens_today: self.tokens_today,
            msg: match self.msg {
                Some(m) => Some(m@),
                None => None,
            },
            entries: match self.entries {
                Some(e) => Some(strings_view(e@)),
                None => None,
            },
            prompt: opt_prompt_view(self.prompt),
        }
    }
}

/// A copy of a list of strings.
pub fn duplicate_strings(v: &Vec<String>) -> (r: Vec<String>)
    ensures
        strings_view(r@) == strings_view(v@),
{
    let mut out: Vec<String> = Vec::new();
    let mut i: usize = 0;
    while i < v.len()
        invariant
            i <= v@.len(),
            strings_view(out@) == strings_view(v@.take(i as int)),
        decreases v@.len() - i,
    {
        out.push(v[i].clone());
        proof {
            assert(strings_view(v@.take(i + 1)) =~= strings_view(v@.take(i as int)).push(v@[i as int]@));
            assert(strings_view(out@) =~= strings_view(v@.take(i + 1)));
        }
        i = i + 1;
    }
    proof {
        assert(v@.take(v@.len() as int) == v@);
    }
    out
}

impl SnapshotPacket {
    /// A copy of this packet.
    pub fn duplicate(&self) -> (r: SnapshotPacket)
        ensures
            r@ == self@,
    {
        SnapshotPacket {
            total: self.total,
            running: self.running,
            waiting: self.waiting,
            completed: self.completed,
            tokens: self.tokens,
            tokens_today: self.tokens_today,
            msg: match &self.msg {
                Some(m) => Some(m.clone()),
                None => None,
            },
            entries: match &self.entries {
                Some(e) => Some(duplicate_strings(e)),
                None => None,
            },
            prompt: duplicate_prompt(&self.prompt),
        }
    }
}

/// The merged snapshot state the firmware maps into the domain's snapshot.
#[derive(Clone, PartialEq, Eq, Debug, Default)]
pub struct SnapshotState {
    /// Total session count.
    pub total: u8,
    /// Running session count.
    pub running: u8,
    /// Waiting session count.
    pub waiting: u8,
    /// Whether a session completed in the last packet.
    pub completed: bool,
    /// Today's token count.
    pub tokens_today: u32,
    /// The status line.
    pub msg: String,
    /// The transcript entries, oldest first.
    pub entries: Vec<String>,
    /// The pending prompt, or `None` when cleared.
    pub prompt: Option<Prompt>,
}

/// The model of a [`SnapshotState`].
pub struct StateModel {
    pub total: u8,
    pub running: u8,
    pub waiting: u8,
    pub completed: bool,
    pub tokens_today: u32,
    pub msg: Seq<char>,
    pub entries: Seq<Seq<char>>,
    pub prompt: Option<PromptModel>,
}

impl View for SnapshotState {
    type V = StateModel;

    open spec fn view(&self) -> StateModel {
        StateModel {
            total: self.total,
            running: self.running,
            waiting: self.waiting,
            completed: self.completed,
            tokens_today: self.tokens_today,
            msg: self.msg@,
            entries: strings_view(self.entries@),
            prompt: opt_prompt_view(self.prompt),
        }
    }
}

/// `Some(x)` keeps `x`; `None` keeps the prior value.
pub open spec fn keep_prior<T>(prior: T, update: Option<T>) -> T {
    match update {
        Some(x) => x,
        None => prior,
    }
}

/// The state after merging a packet: keep-prior on the counts, `tokens_today`, `msg` and
/// `entries`; `completed` resets to `false` and `prompt` clears when absent.
pub open spec fn merged(s: StateModel, p: PacketModel) -> StateModel {
    StateModel {
        total: keep_prior(s.total, p.total),
        running: keep_prior(s.running, p.running),
        waiting: keep_prior(s.waiting, p.waiting),
        completed: match p.completed {
            Some(c) => c,
            None => false,
        },
        tokens_today: keep_prior(s.tokens_today, p.tokens_today),
        msg: keep_prior(s.msg, p.msg),
        entries: keep_prior(s.entries, p.entries),
        prompt: p.prompt,
    }
}

/// Each count of a merged snapshot is the packet's own count of that name when the packet
/// carries one, and the prior count when it does not — whatever the packet's other counts are.
/// The same holds of today's tokens, the status line and the transcript; `completed` is the
/// packet's flag or `false`, and the prompt is exactly the packet's.
pub proof fn merge_takes_each_field_from_its_own_name(s: StateModel, p: PacketModel)
    ensures
        merged(s, p).total == (match p.total { Some(t) => t, None => s.total }),
        merged(s, p).running == (match p.running { Some(r) => r, None => s.running }),
        merged(s, p).waiting == (match p.waiting { Some(w) => w, None => s.waiting }),
        merged(s, p).tokens_today == (match p.tokens_today { Some(t) => t, None => s.tokens_today }),
        merged(s, p).msg == (match p.msg { Some(m) => m, None => s.msg }),
        merged(s, p).entries == (match p.entries { Some(e) => e, None => s.entries }),
        merged(s, p).completed == (p.completed == Some(true)),
        merged(s, p).prompt == p.prompt,
{
}

/// Merging is a function of the fields present: a packet that carries only a waiting count
/// changes the waiting count alone, and a packet that carries only a running count changes the
/// running count alone (beyond the pulse and the prompt, which every packet sets).
pub proof fn a_count_changes_only_its_own_field(s: StateModel, p: PacketModel)
    ensures
        p.waiting is None ==> merged(s, p).waiting == s.waiting,
        p.running is None ==> merged(s, p).running == s.running,
        p.total is None ==> merged(s, p).total == s.total,
        p.waiting matches Some(w) ==> merged(s, p).waiting == w,
        p.running matches Some(r) ==> merged(s, p).running == r,
{
}

/// Merging the same packet twice is merging it once.
pub proof fn merge_is_idempotent(s: StateModel, p: PacketModel)
    ensures
        merged(merged(s, p), p) == merged(s, p),
{
}

impl SnapshotState {
    /// Merge one packet into this state, asymmetrically on absent fields, and return the
    /// desktop token total to forward to the stats latch only when the packet carried one.
    pub fn merge(&mut self, packet: &SnapshotPacket) -> (r: Option<u32>)
        ensures
            final(self)@ == merged(old(self)@, packet@),
            r == packet.tokens,
    {
        if let Some(total) = packet.total {
            self.total = total;
        }
        if let Some(running) = packet.running {
            self.running = running;
        }
        if let Some(waiting) = packet.waiting {
            self.waiting = waiting;
        }
        if let Some(tokens_today) = packet.tokens_today {
            self.tokens_today = tokens_today;
        }
        if let Some(msg) = &packet.msg {
            self.msg = msg.clone();
        }
        if let Some(entries) = &packet.entries {
            self.entries = duplicate_strings(entries);
        }
        self.completed = match packet.completed {
            Some(c) => c,
            None => false,
        };
        self.prompt = duplicate_prompt(&packet.prompt);
        packet.tokens
    }
}

/// One parsed inbound message — an exhaustive classification of the wire line.
#[derive(Clone, PartialEq, Debug)]
pub enum Inbound {
    /// A heartbeat snapshot — the only shape that merges into [`SnapshotState`].
    Snapshot(SnapshotPacket),
    /// A time sync `{"time":[epoch, tz_offset_seconds]}`.
    Time {
        /// Seconds since the Unix epoch.
        epoch: i64,
        /// The owner's UTC offset, in seconds.
        tz_offset_s: i32,
    },
    /// A device command.
    Command(Command),
    /// A transcript event (kept away from prompt state).
    Event(BuddyEvent),
}

/// The model of an [`Inbound`].
pub enum InboundModel {
    Snapshot(PacketModel),
    Time { epoch: i64, tz_offset_s: i32 },
    Command(CommandModel),
    Event(EventModel),
}

impl View for Inbound {
    type V = InboundModel;

    open spec fn view(&self) -> InboundModel {
        match self {
            Inbound::Snapshot(p) => InboundModel::Snapshot(p@),
            Inbound::Time { epoch, tz_offset_s } => InboundModel::Time {
                epoch: *epoch,
                tz_offset_s: *tz_offset_s,
            },
            Inbound::Command(c) => InboundModel::Command(c@),
            Inbound::Event(e) => InboundModel::Event(e@),
        }
    }
}

/// Why a line was not a usable JSON message.
#[derive(Debug)]
pub enum JsonError {
    /// The bytes were not JSON at all; serde_json's error says where.
    Syntax(serde_json::Error),
    /// The JSON was well formed but is not the shape a snapshot packet has (a field of the
    /// wrong type, a missing required prompt field, or not an object at all).
    Shape,
}

/// Why a line could not be classified into an [`Inbound`].
#[derive(Debug)]
pub enum InboundError {
    /// The line was not JSON matching any shape.
    Json(JsonError),
    /// A `{"time":..}` was not an array of exactly two integers.
    TimeArity,
}

impl InboundError {
    /// The log line for this error.
    pub fn describe(&self) -> (r: String)
        ensures
            self is TimeArity ==> r@ == "time sync array was not exactly two elements"@,
            self matches InboundError::Json(JsonError::Shape) ==> r@
                == "inbound line was not a usable message: the JSON is not a message the device reads"@,
            self matches InboundError::Json(JsonError::Syntax(_)) ==> "inbound line was not a usable message: "@.is_prefix_of(r@),
    {
        match self {
            InboundError::Json(JsonError::Syntax(e)) => {
                let mut out: String = String::from_str("inbound line was not a usable message: ");
                out.append(error_text(e).as_str());
                out
            },
            InboundError::Json(JsonError::Shape) => String::from_str(
                "inbound line was not a usable message: the JSON is not a message the device reads",
            ),
            InboundError::TimeArity => String::from_str("time sync array was not exactly two elements"),
        }
    }
}

/// What classifying a parsed line yields.
pub enum InboundParse {
    Parsed(InboundModel),
    TimeArity,
    Shape,
}

/// An optional unsigned field of at most `max`: absent or `null` is `None`; an integer in
/// range is `Some`; anything else is a type error (the outer `None`).
pub open spec fn field_uint(x: Option<JsonValue>, max: int) -> Option<Option<nat>> {
    match x {
        None => Some(None),
        Some(JsonValue::Null) => Some(None),
        Some(JsonValue::Number(NumberTree::Pos(u))) => if u <= max {
            Some(Some(u as nat))
        } else {
            None
        },
        Some(JsonValue::Number(NumberTree::Neg(i))) => if 0 <= i <= max {
            Some(Some(i as nat))
        } else {
            None
        },
        _ => None,
    }
}

/// An optional `u8` field.
pub open spec fn field_u8(x: Option<JsonValue>) -> Option<Option<u8>> {
    match field_uint(x, 255) {
        Some(Some(n)) => Some(Some(n as u8)),
        Some(None) => Some(None),
        None => None,
    }
}

/// An optional `u32` field.
pub open spec fn field_u32(x: Option<JsonValue>) -> Option<Option<u32>> {
    match field_uint(x, 4294967295) {
        Some(Some(n)) => Some(Some(n as u32)),
        Some(None) => Some(None),
        None => None,
    }
}

/// An optional boolean field.
pub open spec fn field_bool(x: Option<JsonValue>) -> Option<Option<bool>> {
    match x {
        None => Some(None),
        Some(JsonValue::Null) => Some(None),
        Some(JsonValue::Bool(b)) => Some(Some(b)),
        _ => None,
    }
}

/// An optional string field.
pub open spec fn field_string(x: Option<JsonValue>) -> Option<Option<Seq<char>>> {
    match x {
        None => Some(None),
        Some(JsonValue::Null) => Some(None),
        Some(JsonValue::Str(s)) => Some(Some(s)),
        _ => None,
    }
}

/// Whether every item is a string.
pub open spec fn all_strings(items: Seq<JsonValue>) -> bool {
    forall|i: int| 0 <= i < items.len() ==> #[trigger] items[i] is Str
}

/// The strings of an array of strings.
pub open spec fn strings_of(items: Seq<JsonValue>) -> Seq<Seq<char>> {
    items.map_values(|v: JsonValue| v->Str_0)
}

/// An optional list-of-strings field.
pub open spec fn field_strings(x: Option<JsonValue>) -> Option<Option<Seq<Seq<char>>>> {
    match x {
        None => Some(None),
        Some(JsonValue::Null) => Some(None),
        Some(JsonValue::Array(items)) => if all_strings(items) {
            Some(Some(strings_of(items)))
        } else {
            None
        },
        _ => None,
    }
}

/// A required string field of an object.
pub open spec fn required_string(v: JsonValue, key: Seq<char>) -> Option<Seq<char>> {
    match value_get(v, key) {
        Some(JsonValue::Str(s)) => Some(s),
        _ => None,
    }
}

/// A prompt: an object with string `id`, `tool` and `hint` (other fields ignored), or an
/// array of exactly those three strings.
pub open spec fn prompt_of(v: JsonValue) -> Option<PromptModel> {
    match v {
        JsonValue::Object(_) => match (
            required_string(v, "id"@),
            required_string(v, "tool"@),
            required_string(v, "hint"@),
        ) {
            (Some(id), Some(tool), Some(hint)) => Some(PromptModel { id, tool, hint }),
            _ => None,
        },
        JsonValue::Array(items) => if items.len() == 3 && all_strings(items) {
            Some(PromptModel { id: items[0]->Str_0, tool: items[1]->Str_0, hint: items[2]->Str_0 })
        } else {
            None
        },
        _ => None,
    }
}

/// An optional prompt field.
pub open spec fn field_prompt(x: Option<JsonValue>) -> Option<Option<PromptModel>> {
    match x {
        None => Some(None),
        Some(JsonValue::Null) => Some(None),
        Some(v) => match prompt_of(v) {
            Some(p) => Some(Some(p)),
            None => None,
        },
    }
}

/// A packet from its nine fields, each already read (or a type error).
pub open spec fn packet_from(
    total: Option<Option<u8>>,
    running: Option<Option<u8>>,
    waiting: Option<Option<u8>>,
    completed: Option<Option<bool>>,
    tokens: Option<Option<u32>>,
    tokens_today: Option<Option<u32>>,
    msg: Option<Option<Seq<char>>>,
    entries: Option<Option<Seq<Seq<char>>>>,
    prompt: Option<Option<PromptModel>>,
) -> Option<PacketModel> {
    if total is Some && running is Some && waiting is Some && completed is Some && tokens is Some
        && tokens_today is Some && msg is Some && entries is Some && prompt is Some {
        Some(
            PacketModel {
                total: total->Some_0,
                running: running->Some_0,
                waiting: waiting->Some_0,
                completed: completed->Some_0,
                tokens: tokens->Some_0,
                tokens_today: tokens_today->Some_0,
                msg: msg->Some_0,
                entries: entries->Some_0,
                prompt: prompt->Some_0,
            },
        )
    } else {
        None
    }
}

/// A snapshot packet: an object whose fields are read by name (absent fields `None`, unknown
/// fields ignored), or an array of exactly the nine fields in declaration order.
pub open spec fn snapshot_of(v: JsonValue) -> Option<PacketModel> {
    match v {
        JsonValue::Object(_) => packet_from(
            field_u8(value_get(v, "total"@)),
            field_u8(value_get(v, "running"@)),
            field_u8(value_get(v, "waiting"@)),
            field_bool(value_get(v, "completed"@)),
            field_u32(value_get(v, "tokens"@)),
            field_u32(value_get(v, "tokens_today"@)),
            field_string(value_get(v, "msg"@)),
            field_strings(value_get(v, "entries"@)),
            field_prompt(value_get(v, "prompt"@)),
        ),
        JsonValue::Array(items) => if items.len() == 9 {
            packet_from(
                field_u8(Some(items[0])),
                field_u8(Some(items[1])),
                field_u8(Some(items[2])),
                field_bool(Some(items[3])),
                field_u32(Some(items[4])),
                field_u32(Some(items[5])),
                field_string(Some(items[6])),
                field_strings(Some(items[7])),
                field_prompt(Some(items[8])),
            )
        } else {
            None
        },
        _ => None,
    }
}

/// `serde_json::Value::as_i64` on a value.
pub open spec fn value_i64(v: JsonValue) -> Option<i64> {
    match v {
        JsonValue::Number(NumberTree::Pos(u)) => if u <= i64::MAX {
            Some(u as i64)
        } else {
            None
        },
        JsonValue::Number(NumberTree::Neg(i)) => Some(i),
        _ => None,
    }
}

/// A time sync: exactly two integers; the offset is truncated to `i32`.
pub open spec fn time_of(v: JsonValue) -> InboundParse {
    match v {
        JsonValue::Array(items) => if items.len() != 2 {
            InboundParse::TimeArity
        } else {
            match (value_i64(items[0]), value_i64(items[1])) {
                (Some(epoch), Some(tz)) => InboundParse::Parsed(
                    InboundModel::Time { epoch, tz_offset_s: tz as i32 },
                ),
                _ => InboundParse::TimeArity,
            }
        },
        _ => InboundParse::TimeArity,
    }
}

/// The `evt` value: the documented `"turn"`, any other string, or the JSON text of a
/// non-string.
pub open spec fn event_of(t: JsonTree) -> EventModel {
    match t {
        JsonTree::Str(s) => if s == "turn"@ {
            EventModel::Turn
        } else {
            EventModel::Other(s)
        },
        _ => EventModel::Other(tree_text(t)),
    }
}

/// A string field of a command, or the empty string.
pub open spec fn command_string(root: JsonValue, key: Seq<char>) -> Seq<char> {
    match value_get(root, key) {
        Some(JsonValue::Str(s)) => s,
        _ => Seq::empty(),
    }
}

/// The species index of a command: `idx` as a truncated `u8`, or `0xFF` when absent or not a
/// non-negative integer.
pub open spec fn species_index(root: JsonValue) -> u8 {
    match value_get(root, "idx"@) {
        Some(JsonValue::Number(NumberTree::Pos(u))) => u as u8,
        _ => 255,
    }
}

/// The command a `cmd` value names; an unrecognised or non-string `cmd` is `Unknown`.
pub open spec fn command_of(root: JsonValue, cmd: JsonTree) -> CommandModel {
    match cmd {
        JsonTree::Str(name) => if name == "name"@ {
            CommandModel::Name(command_string(root, "name"@))
        } else if name == "species"@ {
            CommandModel::Species(species_index(root))
        } else if name == "unpair"@ {
            CommandModel::Unpair
        } else if name == "owner"@ {
            CommandModel::Owner(command_string(root, "name"@))
        } else if name == "status"@ {
            CommandModel::Status
        } else if name == "char_begin"@ {
            CommandModel::CharBegin
        } else if name == "file"@ {
            CommandModel::File { path: command_string(root, "path"@) }
        } else if name == "chunk"@ {
            CommandModel::Chunk
        } else if name == "file_end"@ {
            CommandModel::FileEnd
        } else if name == "char_end"@ {
            CommandModel::CharEnd
        } else {
            CommandModel::Unknown(name)
        },
        _ => CommandModel::Unknown(tree_text(cmd)),
    }
}

/// Whether `name` is one of the ten commands the stick knows.
pub open spec fn known_command(name: Seq<char>) -> bool {
    ||| name == "name"@
    ||| name == "species"@
    ||| name == "unpair"@
    ||| name == "owner"@
    ||| name == "status"@
    ||| name == "char_begin"@
    ||| name == "file"@
    ||| name == "chunk"@
    ||| name == "file_end"@
    ||| name == "char_end"@
}

/// Every `{"cmd": s}` line is acked under `s` itself, with `n` zero, and positively exactly
/// when `s` is one of the ten known commands — whatever else the line carries.
pub proof fn every_command_is_acked_by_its_name(root: JsonValue, s: Seq<char>)
    ensures
        dispatch_model(command_of(root, JsonTree::Str(s))).what == s,
        dispatch_model(command_of(root, JsonTree::Str(s))).n == 0,
        dispatch_model(command_of(root, JsonTree::Str(s))).ok == known_command(s),
{
}

/// What a command reads from its line: a `cmd` that is not a string is `Unknown` with its JSON
/// text; `name` and `owner` carry the line's `name` string (else empty), `species` its `idx`
/// as a truncated `u8` (else `0xFF`), `file` its `path` (else empty); the six payload-free
/// names are their commands; any other string is `Unknown` with that string.
pub proof fn commands_read_their_fields(root: JsonValue, cmd: JsonTree)
    ensures
        !(cmd is Str) ==> command_of(root, cmd) == CommandModel::Unknown(tree_text(cmd)),
        cmd == JsonTree::Str("name"@) ==> command_of(root, cmd) == CommandModel::Name(command_string(root, "name"@)),
        cmd == JsonTree::Str("owner"@) ==> command_of(root, cmd) == CommandModel::Owner(command_string(root, "name"@)),
        cmd == JsonTree::Str("species"@) ==> command_of(root, cmd) == CommandModel::Species(species_index(root)),
        cmd == JsonTree::Str("file"@) ==> command_of(root, cmd) == (CommandModel::File {
            path: command_string(root, "path"@),
        }),
        cmd == JsonTree::Str("unpair"@) ==> command_of(root, cmd) == CommandModel::Unpair,
        cmd == JsonTree::Str("status"@) ==> command_of(root, cmd) == CommandModel::Status,
        cmd == JsonTree::Str("char_begin"@) ==> command_of(root, cmd) == CommandModel::CharBegin,
        cmd == JsonTree::Str("chunk"@) ==> command_of(root, cmd) == CommandModel::Chunk,
        cmd == JsonTree::Str("file_end"@) ==> command_of(root, cmd) == CommandModel::FileEnd,
        cmd == JsonTree::Str("char_end"@) ==> command_of(root, cmd) == CommandModel::CharEnd,
        cmd is Str && !known_command(cmd->Str_0) ==> command_of(root, cmd) == CommandModel::Unknown(cmd->Str_0),
        species_index(root) == (match value_get(root, "idx"@) {
            Some(JsonValue::Number(NumberTree::Pos(u))) => u as u8,
            _ => 255u8,
        }),
        command_string(root, "name"@) == (match value_get(root, "name"@) {
            Some(JsonValue::Str(s)) => s,
            _ => Seq::<char>::empty(),
        }),
{
    reveal_strlit("name");
    reveal_strlit("owner");
    reveal_strlit("species");
    reveal_strlit("file");
    reveal_strlit("unpair");
    reveal_strlit("status");
    reveal_strlit("char_begin");
    reveal_strlit("chunk");
    reveal_strlit("file_end");
    reveal_strlit("char_end");
    assert("name"@.len() == 4 && "species"@.len() == 7 && "unpair"@.len() == 6 && "owner"@.len() == 5
        && "status"@.len() == 6 && "char_begin"@.len() == 10 && "file"@.len() == 4 && "chunk"@.len() == 5
        && "file_end"@.len() == 8 && "char_end"@.len() == 8);
    assert("name"@ != "file"@) by {
        assert("name"@[0] != "file"@[0]);
    }
    assert("unpair"@ != "status"@) by {
        assert("unpair"@[0] != "status"@[0]);
    }
    assert("owner"@ != "chunk"@) by {
        assert("owner"@[0] != "chunk"@[0]);
    }
    assert("file_end"@ != "char_end"@) by {
        assert("file_end"@[0] != "char_end"@[0]);
    }
}

/// Classify a parsed line: `time` first (strict), then `evt`, then `cmd`, else a snapshot.
pub open spec fn inbound_of(t: JsonTree) -> InboundParse {
    let v = tree_value(t);
    match value_get(v, "time"@) {
        Some(time) => time_of(time),
        None => match tree_get(t, "evt"@) {
            Some(evt) => InboundParse::Parsed(InboundModel::Event(event_of(evt))),
            None => match tree_get(t, "cmd"@) {
                Some(cmd) => InboundParse::Parsed(InboundModel::Command(command_of(v, cmd))),
                None => match snapshot_of(v) {
                    Some(p) => InboundParse::Parsed(InboundModel::Snapshot(p)),
                    None => InboundParse::Shape,
                },
            },
        },
    }
}

/// What [`parse_inbound`] returns for `line`.
pub open spec fn parse_inbound_result(line: Seq<u8>, r: Result<Inbound, InboundError>) -> bool {
    match json_parse(line) {
        None => r matches Err(InboundError::Json(JsonError::Syntax(_))),
        Some(t) => match inbound_of(t) {
            InboundParse::Parsed(m) => r matches Ok(i) && i@ == m,
            InboundParse::TimeArity => r matches Err(InboundError::TimeArity),
            InboundParse::Shape => r matches Err(InboundError::Json(JsonError::Shape)),
        },
    }
}


/// Read an optional unsigned field of at most `max`.
fn read_uint(x: Option<&Json>, max: u64) -> (r: Option<Option<u64>>)
    ensures
        match field_uint(opt_value(x), max as int) {
            Some(Some(n)) => r == Some(Some(n as u64)),
            Some(None) => r == Some(None::<u64>),
            None => r is None,
        },
{
    match x {
        None => Some(None),
        Some(Json::Null) => Some(None),
        Some(Json::Number(JsonNumber::Pos(u))) => if *u <= max {
            Some(Some(*u))
        } else {
            None
        },
        Some(Json::Number(JsonNumber::Neg(i))) => if 0 <= *i && (*i as u64) <= max {
            Some(Some(*i as u64))
        } else {
            None
        },
        _ => None,
    }
}

/// Read an optional `u8` field.
fn read_u8(x: Option<&Json>) -> (r: Option<Option<u8>>)
    ensures
        r == field_u8(opt_value(x)),
{
    match read_uint(x, 255) {
        Some(Some(n)) => Some(Some(n as u8)),
        Some(None) => Some(None),
        None => None,
    }
}

/// Read an optional `u32` field.
fn read_u32(x: Option<&Json>) -> (r: Option<Option<u32>>)
    ensures
        r == field_u32(opt_value(x)),
{
    match read_uint(x, 4294967295) {
        Some(Some(n)) => Some(Some(n as u32)),
        Some(None) => Some(None),
        None => None,
    }
}

/// Read an optional boolean field.
fn read_bool(x: Option<&Json>) -> (r: Option<Option<bool>>)
    ensures
        r == field_bool(opt_value(x)),
{
    match x {
        None => Some(None),
        Some(Json::Null) => Some(None),
        Some(Json::Bool(b)) => Some(Some(*b)),
        _ => None,
    }
}

/// The model of an optional string read.
pub open spec fn opt_opt_string_view(r: Option<Option<String>>) -> Option<Option<Seq<char>>> {
    match r {
        Some(Some(s)) => Some(Some(s@)),
        Some(None) => Some(None),
        None => None,
    }
}

/// Read an optional string field.
fn read_string(x: Option<&Json>) -> (r: Option<Option<String>>)
    ensures
        opt_opt_string_view(r) == field_string(opt_value(x)),
{
    match x {
        None => Some(None),
        Some(Json::Null) => Some(None),
        Some(Json::Str(s)) => Some(Some(s.clone())),
        _ => None,
    }
}

/// The values of an array's items.
pub open spec fn item_values(j: Json) -> Seq<JsonValue> {
    tree_value(j@)->Array_0
}

/// Read the strings of an array whose items must all be strings.
fn read_string_items(items: &Vec<Json>, Ghost(values): Ghost<Seq<JsonValue>>) -> (r: Option<Vec<String>>)
    requires
        values.len() == items@.len(),
        forall|k: int| 0 <= k < items@.len() ==> #[trigger] values[k] == tree_value(items@[k]@),
    ensures
        r matches Some(v) ==> all_strings(values) && strings_view(v@) == strings_of(values),
        r is None ==> !all_strings(values),
{
    let mut out: Vec<String> = Vec::new();
    let mut i: usize = 0;
    while i < items.len()
        invariant
            i <= items@.len(),
            values.len() == items@.len(),
            forall|k: int| 0 <= k < items@.len() ==> #[trigger] values[k] == tree_value(items@[k]@),
            all_strings(values.take(i as int)),
            strings_view(out@) == strings_of(values.take(i as int)),
        decreases items@.len() - i,
    {
        match &items[i] {
            Json::Str(s) => {
                let ghost prev = out@;
                out.push(s.clone());
                proof {
                    assert(values[i as int] == JsonValue::Str(s@));
                    assert(values.take(i + 1) == values.take(i as int).push(values[i as int]));
                    assert(strings_view(out@) =~= strings_view(prev).push(s@));
                    assert(strings_of(values.take(i + 1)) =~= strings_of(values.take(i as int)).push(s@));
                    assert(strings_view(out@) =~= strings_of(values.take(i + 1)));
                }
            },
            _ => {
                proof {
                    assert(!(values[i as int] is Str));
                }
                return None;
            },
        }
        i = i + 1;
    }
    proof {
        assert(values.take(items@.len() as int) == values);
    }
    Some(out)
}

/// The model of an optional list-of-strings read.
pub open spec fn opt_opt_strings_view(r: Option<Option<Vec<String>>>) -> Option<Option<Seq<Seq<char>>>> {
    match r {
        Some(Some(v)) => Some(Some(strings_view(v@))),
        Some(None) => Some(None),
        None => None,
    }
}

/// Read an optional list-of-strings field.
fn read_strings(x: Option<&Json>) -> (r: Option<Option<Vec<String>>>)
    ensures
        opt_opt_strings_view(r) == field_strings(opt_value(x)),
{
    match x {
        None => Some(None),
        Some(Json::Null) => Some(None),
        Some(Json::Array(items)) => {
            proof {
                lemma_array_values(*x.unwrap());
            }
            match read_string_items(items, Ghost(item_values(*x.unwrap()))) {
                Some(v) => Some(Some(v)),
                None => None,
            }
        },
        _ => None,
    }
}

/// Read a required string field of an object.
fn read_required_string(j: &Json, key: &str) -> (r: Option<String>)
    ensures
        match required_string(tree_value(j@), key@) {
            Some(s) => r matches Some(x) && x@ == s,
            None => r is None,
        },
{
    match lookup(j, key) {
        Some(Json::Str(s)) => Some(s.clone()),
        _ => None,
    }
}

/// Read a prompt in either of its two forms.
fn read_prompt_value(j: &Json) -> (r: Option<Prompt>)
    ensures
        opt_prompt_view(r) == prompt_of(tree_value(j@)),
{
    match j {
        Json::Object(_) => {
            let id = read_required_string(j, "id");
            let tool = read_required_string(j, "tool");
            let hint = read_required_string(j, "hint");
            match (id, tool, hint) {
                (Some(id), Some(tool), Some(hint)) => Some(Prompt { id, tool, hint }),
                _ => None,
            }
        },
        Json::Array(items) => {
            proof {
                lemma_array_values(*j);
            }
            if items.len() == 3 {
                match read_string_items(items, Ghost(item_values(*j))) {
                    Some(v) => {
                        proof {
                            assert(v@.len() == 3) by {
                                assert(strings_view(v@).len() == 3);
                            }
                        }
                        let id: String = v[0].clone();
                        let tool: String = v[1].clone();
                        let hint: String = v[2].clone();
                        proof {
                            assert(strings_view(v@)[0] == id@);
                            assert(strings_view(v@)[1] == tool@);
                            assert(strings_view(v@)[2] == hint@);
                        }
                        Some(Prompt { id, tool, hint })
                    },
                    None => None,
                }
            } else {
                None
            }
        },
        _ => None,
    }
}

/// The model of an optional prompt read.
pub open spec fn opt_opt_prompt_view(r: Option<Option<Prompt>>) -> Option<Option<PromptModel>> {
    match r {
        Some(Some(p)) => Some(Some(p@)),
        Some(None) => Some(None),
        None => None,
    }
}

/// Read an optional prompt field.
fn read_prompt(x: Option<&Json>) -> (r: Option<Option<Prompt>>)
    ensures
        opt_opt_prompt_view(r) == field_prompt(opt_value(x)),
{
    match x {
        None => Some(None),
        Some(Json::Null) => Some(None),
        Some(j) => match read_prompt_value(j) {
            Some(p) => Some(Some(p)),
            None => None,
        },
    }
}

/// Assemble a packet from its nine read fields.
fn packet_from_reads(
    total: Option<Option<u8>>,
    running: Option<Option<u8>>,
    waiting: Option<Option<u8>>,
    completed: Option<Option<bool>>,
    tokens: Option<Option<u32>>,
    tokens_today: Option<Option<u32>>,
    msg: Option<Option<String>>,
    entries: Option<Option<Vec<String>>>,
    prompt: Option<Option<Prompt>>,
) -> (r: Option<SnapshotPacket>)
    ensures
        match packet_from(
            total,
            running,
            waiting,
            completed,
            tokens,
            tokens_today,
            opt_opt_string_view(msg),
            opt_opt_strings_view(entries),
            opt_opt_prompt_view(prompt),
        ) {
            Some(p) => r matches Some(x) && x@ == p,
            None => r is None,
        },
{
    match (total, running, waiting, completed, tokens, tokens_today, msg, entries, prompt) {
        (
            Some(total),
            Some(running),
            Some(waiting),
            Some(completed),
            Some(tokens),
            Some(tokens_today),
            Some(msg),
            Some(entries),
            Some(prompt),
        ) => Some(
            SnapshotPacket {
                total,
                running,
                waiting,
                completed,
                tokens,
                tokens_today,
                msg,
                entries,
                prompt,
            },
        ),
        _ => None,
    }
}

/// Read a snapshot packet out of a parsed value.
fn read_snapshot(j: &Json) -> (r: Option<SnapshotPacket>)
    ensures
        match snapshot_of(tree_value(j@)) {
            Some(p) => r matches Some(x) && x@ == p,
            None => r is None,
        },
{
    match j {
        Json::Object(_) => packet_from_reads(
            read_u8(lookup(j, "total")),
            read_u8(lookup(j, "running")),
            read_u8(lookup(j, "waiting")),
            read_bool(lookup(j, "completed")),
            read_u32(lookup(j, "tokens")),
            read_u32(lookup(j, "tokens_today")),
            read_string(lookup(j, "msg")),
            read_strings(lookup(j, "entries")),
            read_prompt(lookup(j, "prompt")),
        ),
        Json::Array(items) => {
            proof {
                lemma_array_values(*j);
            }
            if items.len() == 9 {
                packet_from_reads(
                    read_u8(Some(&items[0])),
                    read_u8(Some(&items[1])),
                    read_u8(Some(&items[2])),
                    read_bool(Some(&items[3])),
                    read_u32(Some(&items[4])),
                    read_u32(Some(&items[5])),
                    read_string(Some(&items[6])),
                    read_strings(Some(&items[7])),
                    read_prompt(Some(&items[8])),
                )
            } else {
                None
            }
        },
        _ => None,
    }
}

/// Read a time sync out of the `time` value.
fn read_time(time: &Json) -> (r: Result<Inbound, InboundError>)
    ensures
        match time_of(tree_value(time@)) {
            InboundParse::Parsed(m) => r matches Ok(i) && i@ == m,
            InboundParse::TimeArity => r matches Err(InboundError::TimeArity),
            InboundParse::Shape => false,
        },
{
    match time {
        Json::Array(items) => {
            proof {
                lemma_array_values(*time);
            }
            if items.len() != 2 {
                return Err(InboundError::TimeArity);
            }
            match (items[0].as_i64(), items[1].as_i64()) {
                (Some(epoch), Some(tz)) => Ok(Inbound::Time { epoch, tz_offset_s: tz as i32 }),
                _ => Err(InboundError::TimeArity),
            }
        },
        _ => Err(InboundError::TimeArity),
    }
}

/// Classify the `evt` value.
fn read_event(evt: &Json) -> (r: BuddyEvent)
    ensures
        r@ == event_of(evt@),
{
    match evt {
        Json::Str(s) => if str_eq(s.as_str(), "turn") {
            BuddyEvent::Turn
        } else {
            BuddyEvent::Other(s.clone())
        },
        _ => BuddyEvent::Other(json_text(evt)),
    }
}

/// A string field of a command, or the empty string.
fn read_command_string(root: &Json, key: &str) -> (r: String)
    ensures
        r@ == command_string(tree_value(root@), key@),
{
    match lookup(root, key) {
        Some(Json::Str(s)) => s.clone(),
        _ => String::new(),
    }
}

/// Classify the `cmd` value into a [`Command`]; anything unrecognised is
/// [`Command::Unknown`], so it can be nacked.
pub fn parse_command(root: &Json, cmd: &Json) -> (r: Command)
    ensures
        r@ == command_of(tree_value(root@), cmd@),
{
    match cmd {
        Json::Str(name) => {
            let name: &str = name.as_str();
            if str_eq(name, "name") {
                Command::Name(read_command_string(root, "name"))
            } else if str_eq(name, "species") {
                let idx: u8 = match lookup(root, "idx") {
                    Some(Json::Number(JsonNumber::Pos(u))) => *u as u8,
                    _ => 255u8,
                };
                Command::Species(idx)
            } else if str_eq(name, "unpair") {
                Command::Unpair
            } else if str_eq(name, "owner") {
                Command::Owner(read_command_string(root, "name"))
            } else if str_eq(name, "status") {
                Command::Status
            } else if str_eq(name, "char_begin") {
                Command::CharBegin
            } else if str_eq(name, "file") {
                Command::File { path: read_command_string(root, "path") }
            } else if str_eq(name, "chunk") {
                Command::Chunk
            } else if str_eq(name, "file_end") {
                Command::FileEnd
            } else if str_eq(name, "char_end") {
                Command::CharEnd
            } else {
                Command::Unknown(String::from_str(name))
            }
        },
        _ => Command::Unknown(json_text(cmd)),
    }
}

/// Classify one inbound line into an [`Inbound`], or a typed [`InboundError`].
///
/// Dispatch order: a `time` field (strict arity) → [`Inbound::Time`]; an `evt` field →
/// [`Inbound::Event`]; a `cmd` field → [`Inbound::Command`]; otherwise a snapshot packet →
/// [`Inbound::Snapshot`]. Only the last can touch prompt state.
pub fn parse_inbound(line: &[u8]) -> (r: Result<Inbound, InboundError>)
    ensures
        parse_inbound_result(line@, r),
{
    let value: Json = match parse_json(line) {
        Ok(v) => v,
        Err(e) => return Err(InboundError::Json(JsonError::Syntax(e))),
    };
    if let Some(time) = lookup(&value, "time") {
        return read_time(time);
    }
    if let Some(evt) = value.get("evt") {
        return Ok(Inbound::Event(read_event(evt)));
    }
    if let Some(cmd) = value.get("cmd") {
        return Ok(Inbound::Command(parse_command(&value, cmd)));
    }
    match read_snapshot(&value) {
        Some(packet) => Ok(Inbound::Snapshot(packet)),
        None => Err(InboundError::Json(JsonError::Shape)),
    }
}


/// Only a line with none of `time`, `evt` and `cmd` can classify as a snapshot — so only a
/// snapshot line can reach the merge and touch prompt state; a `time` line with the wrong
/// shape is an arity error, never a fall-through to the snapshot.
pub proof fn only_snapshots_merge(t: JsonTree)
    ensures
        inbound_of(t) matches InboundParse::Parsed(InboundModel::Snapshot(_)) ==> value_get(
            tree_value(t),
            "time"@,
        ) is None && tree_get(t, "evt"@) is None && tree_get(t, "cmd"@) is None,
        value_get(tree_value(t), "time"@) is Some ==> (inbound_of(t) is TimeArity || inbound_of(
            t,
        ) matches InboundParse::Parsed(InboundModel::Time { .. })),
{
}

} // verus!
