//! Reading the coding agent's PreToolUse stdin payload into the daemon-facing [`HookRequest`].
//!
//! A tolerant reader that never guesses: unknown fields are ignored, and the contextual fields
//! we only display or account with — `cwd`, `permission_mode`, `transcript_path` — default to
//! empty when absent. The two fields we cannot function without — `session_id` (routes the
//! answer back) and `tool_name` (what the glass shows) — are required strings; a payload missing
//! either, carrying a field of the wrong type, or that is not JSON at all, is a typed
//! [`PreToolUseParseError`], not a defaulted request.
//!
//! Like any struct read from JSON, the payload may also come as an array of its fields in
//! order: `session_id`, `tool_name`, then up to the three contextual ones.
use vstd::prelude::*;
use crate::json::{Json, JsonValue, error_text, json_parse, lemma_array_values, lookup, opt_value, parse_json, tree_value, value_get};
use crate::permission::ipc::{HookRequest, RequestModel};
use vstd::string::StringExecFns;

verus! {

/// Why a PreToolUse payload could not be turned into a [`HookRequest`].
#[derive(Clone, PartialEq, Eq, Debug)]
pub enum PreToolUseParseError {
    /// The bytes were not valid JSON, or a required field was absent, or a field had the wrong
    /// type. Carries a message for the log; the hook itself just falls silent.
    Malformed(String),
}

/// The message for a payload that is JSON but not the payload's shape.
pub const SHAPE_MESSAGE: &'static str = "missing or invalid field: session_id and tool_name must be strings, and cwd, permission_mode and transcript_path strings when present";

/// A required text field: present and a string.
pub open spec fn required_text(x: Option<JsonValue>) -> Option<Seq<char>> {
    match x {
        Some(JsonValue::Str(s)) => Some(s),
        _ => None,
    }
}

/// A contextual text field: a string, or empty when absent; any other value is an error.
pub open spec fn optional_text(x: Option<JsonValue>) -> Option<Seq<char>> {
    match x {
        None => Some(Seq::empty()),
        Some(JsonValue::Str(s)) => Some(s),
        _ => None,
    }
}

/// The item at `i`, if the array has one.
pub open spec fn item_at(items: Seq<JsonValue>, i: int) -> Option<JsonValue> {
    if 0 <= i < items.len() {
        Some(items[i])
    } else {
        None
    }
}

/// A request from its five fields, each already read (or an error).
pub open spec fn request_from(
    session_id: Option<Seq<char>>,
    tool_name: Option<Seq<char>>,
    cwd: Option<Seq<char>>,
    permission_mode: Option<Seq<char>>,
    transcript_path: Option<Seq<char>>,
) -> Option<RequestModel> {
    if session_id is Some && tool_name is Some && cwd is Some && permission_mode is Some
        && transcript_path is Some {
        Some(
            RequestModel {
                session_id: session_id->Some_0,
                tool_name: tool_name->Some_0,
                cwd: cwd->Some_0,
                permission_mode: permission_mode->Some_0,
                transcript_path: transcript_path->Some_0,
            },
        )
    } else {
        None
    }
}

/// The request a parsed payload denotes: an object read by field name, or an array of two to
/// five fields in order; anything else is malformed.
pub open spec fn payload_of(v: JsonValue) -> Option<RequestModel> {
    match v {
        JsonValue::Object(_) => request_from(
            required_text(value_get(v, "session_id"@)),
            required_text(value_get(v, "tool_name"@)),
            optional_text(value_get(v, "cwd"@)),
            optional_text(value_get(v, "permission_mode"@)),
            optional_text(value_get(v, "transcript_path"@)),
        ),
        JsonValue::Array(items) => if 2 <= items.len() <= 5 {
            request_from(
                required_text(item_at(items, 0)),
                required_text(item_at(items, 1)),
                optional_text(item_at(items, 2)),
                optional_text(item_at(items, 3)),
                optional_text(item_at(items, 4)),
            )
        } else {
            None
        },
        _ => None,
    }
}

impl PreToolUseParseError {
    /// The log line for this error: `malformed PreToolUse payload: <why>`.
    pub fn describe(&self) -> (r: String)
        ensures
            self matches PreToolUseParseError::Malformed(why) ==> r@ == "malformed PreToolUse payload: "@
                + why@,
    {
        match self {
            PreToolUseParseError::Malformed(why) => {
                let mut out: String = String::from_str("malformed PreToolUse payload: ");
                out.append(why.as_str());
                out
            },
        }
    }
}

/// Read a required text field.
fn read_required(x: Option<&Json>) -> (r: Option<String>)
    ensures
        match required_text(opt_value(x)) {
            Some(s) => r matches Some(t) && t@ == s,
            None => r is None,
        },
{
    match x {
        Some(Json::Str(s)) => Some(s.clone()),
        _ => None,
    }
}

/// Read a contextual text field.
fn read_optional(x: Option<&Json>) -> (r: Option<String>)
    ensures
        match optional_text(opt_value(x)) {
            Some(s) => r matches Some(t) && t@ == s,
            None => r is None,
        },
{
    match x {
        None => Some(String::new()),
        Some(Json::Str(s)) => Some(s.clone()),
        _ => None,
    }
}

/// Assemble a request from its five read fields.
fn request_from_reads(
    session_id: Option<String>,
    tool_name: Option<String>,
    cwd: Option<String>,
    permission_mode: Option<String>,
    transcript_path: Option<String>,
    Ghost(fields): Ghost<(Option<Seq<char>>, Option<Seq<char>>, Option<Seq<char>>, Option<Seq<char>>, Option<Seq<char>>)>,
) -> (r: Option<HookRequest>)
    requires
        fields.0 is Some <==> session_id is Some,
        session_id is Some ==> session_id->Some_0@ == fields.0->Some_0,
        fields.1 is Some <==> tool_name is Some,
        tool_name is Some ==> tool_name->Some_0@ == fields.1->Some_0,
        fields.2 is Some <==> cwd is Some,
        cwd is Some ==> cwd->Some_0@ == fields.2->Some_0,
        fields.3 is Some <==> permission_mode is Some,
        permission_mode is Some ==> permission_mode->Some_0@ == fields.3->Some_0,
        fields.4 is Some <==> transcript_path is Some,
        transcript_path is Some ==> transcript_path->Some_0@ == fields.4->Some_0,
    ensures
        match request_from(fields.0, fields.1, fields.2, fields.3, fields.4) {
            Some(m) => r matches Some(q) && q@ == m,
            None => r is None,
        },
{
    match (session_id, tool_name, cwd, permission_mode, transcript_path) {
        (Some(session_id), Some(tool_name), Some(cwd), Some(permission_mode), Some(transcript_path)) => Some(
            HookRequest { session_id, tool_name, cwd, permission_mode, transcript_path },
        ),
        _ => None,
    }
}

/// The request a parsed payload denotes, if it is well formed.
fn read_payload(value: &Json) -> (r: Option<HookRequest>)
    ensures
        match payload_of(tree_value(value@)) {
            Some(m) => r matches Some(q) && q@ == m,
            None => r is None,
        },
{
    match value {
        Json::Object(_) => {
            let a = read_required(lookup(value, "session_id"));
            let b = read_required(lookup(value, "tool_name"));
            let c = read_optional(lookup(value, "cwd"));
            let d = read_optional(lookup(value, "permission_mode"));
            let e = read_optional(lookup(value, "transcript_path"));
            let ghost v = tree_value(value@);
            request_from_reads(
                a,
                b,
                c,
                d,
                e,
                Ghost(
                    (
                        required_text(value_get(v, "session_id"@)),
                        required_text(value_get(v, "tool_name"@)),
                        optional_text(value_get(v, "cwd"@)),
                        optional_text(value_get(v, "permission_mode"@)),
                        optional_text(value_get(v, "transcript_path"@)),
                    ),
                ),
            )
        },
        Json::Array(items) => {
            proof {
                lemma_array_values(*value);
            }
            let n: usize = items.len();
            if n < 2 || n > 5 {
                return None;
            }
            let ghost vs = tree_value(value@)->Array_0;
            let a = read_required(Some(&items[0]));
            let b = read_required(Some(&items[1]));
            let c = read_optional(if n > 2 { Some(&items[2]) } else { None });
            let d = read_optional(if n > 3 { Some(&items[3]) } else { None });
            let e = read_optional(if n > 4 { Some(&items[4]) } else { None });
            request_from_reads(
                a,
                b,
                c,
                d,
                e,
                Ghost(
                    (
                        required_text(item_at(vs, 0)),
                        required_text(item_at(vs, 1)),
                        optional_text(item_at(vs, 2)),
                        optional_text(item_at(vs, 3)),
                        optional_text(item_at(vs, 4)),
                    ),
                ),
            )
        },
        _ => None,
    }
}

/// Parse a PreToolUse stdin payload into a [`HookRequest`], or a typed error the hook degrades
/// on.
pub fn parse_pretooluse(bytes: &[u8]) -> (r: Result<HookRequest, PreToolUseParseError>)
    ensures
        match json_parse(bytes@) {
            None => r is Err,
            Some(t) => match payload_of(tree_value(t)) {
                Some(m) => r matches Ok(q) && q@ == m,
                None => r matches Err(PreToolUseParseError::Malformed(why)) && why@ == SHAPE_MESSAGE@,
            },
        },
{
    let value: Json = match parse_json(bytes) {
        Ok(v) => v,
        Err(e) => return Err(PreToolUseParseError::Malformed(error_text(&e))),
    };
    match read_payload(&value) {
        Some(request) => Ok(request),
        None => Err(PreToolUseParseError::Malformed(String::from_str(SHAPE_MESSAGE))),
    }
}

} // verus!
