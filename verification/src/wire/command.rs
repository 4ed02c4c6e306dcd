//! The device command set, and its exhaustive dispatch to an ack.
//!
//! [`Command`] is the `{"cmd":..}` vocabulary; [`dispatch`] answers every command with an
//! [`Ack`], and an unknown command with a negative ack — never a swallow. The transcript
//! `entries` are ordered oldest-first. `file.path` is carried but no handler acts on it; path
//! handling, if ever added, must reject `..` and absolute paths.
use vstd::prelude::*;
use crate::json::{Json, JsonNumber, JsonTree, NumberTree, json_text, tree_text};
use vstd::string::StringExecFns;

verus! {

/// A device command — the `{"cmd":..}` vocabulary.
#[derive(Clone, PartialEq, Eq, Debug)]
pub enum Command {
    /// Set the buddy's name.
    Name(String),
    /// Select a species by registry index; `0xFF` means "use the installed GIF".
    Species(u8),
    /// Forget the current BLE bond.
    Unpair,
    /// Set the owner label.
    Owner(String),
    /// Request a status ack.
    Status,
    /// Begin a character/GIF upload.
    CharBegin,
    /// A file header — carries the (unvalidated) path.
    File {
        /// The declared file path.
        path: String,
    },
    /// A file data chunk.
    Chunk,
    /// End the current file.
    FileEnd,
    /// End a character/GIF upload.
    CharEnd,
    /// Any other command — answered with a negative ack.
    Unknown(String),
}

/// The model of a [`Command`].
pub enum CommandModel {
    Name(Seq<char>),
    Species(u8),
    Unpair,
    Owner(Seq<char>),
    Status,
    CharBegin,
    File { path: Seq<char> },
    Chunk,
    FileEnd,
    CharEnd,
    Unknown(Seq<char>),
}

impl View for Command {
    type V = CommandModel;

    open spec fn view(&self) -> CommandModel {
        match self {
            Command::Name(s) => CommandModel::Name(s@),
            Command::Species(i) => CommandModel::Species(*i),
            Command::Unpair => CommandModel::Unpair,
            Command::Owner(s) => CommandModel::Owner(s@),
            Command::Status => CommandModel::Status,
            Command::CharBegin => CommandModel::CharBegin,
            Command::File { path } => CommandModel::File { path: path@ },
            Command::Chunk => CommandModel::Chunk,
            Command::FileEnd => CommandModel::FileEnd,
            Command::CharEnd => CommandModel::CharEnd,
            Command::Unknown(s) => CommandModel::Unknown(s@),
        }
    }
}

/// A command acknowledgement — `{"ack":<what>,"ok":<bool>,"n":<u32>}`, with `n` always present.
#[derive(Clone, PartialEq, Eq, Debug)]
pub struct Ack {
    /// What is being acked (the `cmd` name).
    pub what: String,
    /// Whether the command succeeded.
    pub ok: bool,
    /// The always-present count.
    pub n: u32,
}

/// The model of an [`Ack`].
pub struct AckModel {
    pub what: Seq<char>,
    pub ok: bool,
    pub n: u32,
}

impl View for Ack {
    type V = AckModel;

    open spec fn view(&self) -> AckModel {
        AckModel { what: self.what@, ok: self.ok, n: self.n }
    }
}

/// The wire name of a known command, or the carried name of an unknown one, and whether it is
/// known.
pub open spec fn dispatch_model(c: CommandModel) -> AckModel {
    let (what, ok) = match c {
        CommandModel::Name(_) => ("name"@, true),
        CommandModel::Species(_) => ("species"@, true),
        CommandModel::Unpair => ("unpair"@, true),
        CommandModel::Owner(_) => ("owner"@, true),
        CommandModel::Status => ("status"@, true),
        CommandModel::CharBegin => ("char_begin"@, true),
        CommandModel::File { .. } => ("file"@, true),
        CommandModel::Chunk => ("chunk"@, true),
        CommandModel::FileEnd => ("file_end"@, true),
        CommandModel::CharEnd => ("char_end"@, true),
        CommandModel::Unknown(name) => (name, false),
    };
    AckModel { what, ok, n: 0 }
}

/// The JSON the ack line is the text of: `ack`, `ok`, `n`, in that order.
pub open spec fn ack_tree(a: AckModel) -> JsonTree {
    JsonTree::Object(
        seq![
            ("ack"@, JsonTree::Str(a.what)),
            ("ok"@, JsonTree::Bool(a.ok)),
            ("n"@, JsonTree::Number(NumberTree::Pos(a.n as u64))),
        ],
    )
}

impl Ack {
    /// Serialize to the wire ack line `{"ack":<what>,"ok":<bool>,"n":<u32>}` (no trailing
    /// newline).
    pub fn to_json(&self) -> (r: String)
        ensures
            r@ == tree_text(ack_tree(self@)),
    {
        let fields: Vec<(String, Json)> = vec![
            (String::from_str("ack"), Json::Str(self.what.clone())),
            (String::from_str("ok"), Json::Bool(self.ok)),
            (String::from_str("n"), Json::Number(JsonNumber::Pos(self.n as u64))),
        ];
        proof {
            assert(fields@.len() == 3);
            assert(fields@[0].0@ == "ack"@);
            assert(fields@[1].0@ == "ok"@);
            assert(fields@[2].0@ == "n"@);
            assert(fields@[0].1@ == JsonTree::Str(self.what@));
            assert(fields@[1].1@ == JsonTree::Bool(self.ok));
            assert(fields@[2].1@ == JsonTree::Number(NumberTree::Pos(self.n as u64)));
        }
        let j: Json = Json::Object(fields);
        proof {
            assert(j@->Object_0 =~= ack_tree(self@)->Object_0);
        }
        json_text(&j)
    }
}

/// Dispatch a command to its ack — exhaustive, with [`Command::Unknown`] answered by a
/// negative ack. `n` is always `0` here; the firmware adapter that owns the byte counters sets
/// it.
pub fn dispatch(command: &Command) -> (r: Ack)
    ensures
        r@ == dispatch_model(command@),
{
    let (what, ok): (String, bool) = match command {
        Command::Name(_) => (String::from_str("name"), true),
        Command::Species(_) => (String::from_str("species"), true),
        Command::Unpair => (String::from_str("unpair"), true),
        Command::Owner(_) => (String::from_str("owner"), true),
        Command::Status => (String::from_str("status"), true),
        Command::CharBegin => (String::from_str("char_begin"), true),
        Command::File { .. } => (String::from_str("file"), true),
        Command::Chunk => (String::from_str("chunk"), true),
        Command::FileEnd => (String::from_str("file_end"), true),
        Command::CharEnd => (String::from_str("char_end"), true),
        Command::Unknown(name) => (name.clone(), false),
    };
    Ack { what, ok, n: 0 }
}


/// Every command is answered: a known command with a positive ack under its own wire name,
/// an unknown one with a negative ack carrying the name it came with.
pub proof fn dispatch_nacks_only_unknown(c: CommandModel)
    ensures
        dispatch_model(c).ok <==> !(c is Unknown),
        c matches CommandModel::Unknown(name) ==> dispatch_model(c).what == name,
        dispatch_model(c).n == 0,
{
}

} // verus!
