//! The device→central permission response — the buddy answering an approval prompt.
//!
//! The one message the device originates on the wire:
//! `{"cmd":"permission","id":<promptId>,"decision":"once"|"deny"}`. The prompt id echoes the
//! id the snapshot delivered; the decision is the owner's button press.
//!
//! A wrong or missing `decision` read back central-side is a typed error, never a silent
//! [`Decision::Once`]: a wrong default would approve a call the owner denied.
use vstd::prelude::*;
use crate::json::{Json, JsonTree, JsonValue, distinct_keys, error_text, json_parse, json_text, lemma_object_value, lookup, parse_json, plain_at, tree_text, tree_value, value_get};
use crate::text::{debug_quoted, debug_text, str_eq};
use vstd::string::StringExecFns;

verus! {

/// The owner's decision on a permission prompt.
#[derive(Clone, Copy, PartialEq, Eq, Debug, Structural)]
pub enum Decision {
    /// Approve this once — serializes as `"once"`.
    Once,
    /// Deny — serializes as `"deny"`.
    Deny,
}

/// The wire token of a decision.
pub open spec fn decision_token(d: Decision) -> Seq<char> {
    match d {
        Decision::Once => "once"@,
        Decision::Deny => "deny"@,
    }
}

impl Decision {
    /// The wire token for this decision (`"once"` or `"deny"`).
    pub fn as_wire(self) -> (r: &'static str)
        ensures
            r@ == decision_token(self),
    {
        match self {
            Decision::Once => "once",
            Decision::Deny => "deny",
        }
    }
}

/// A permission response the device sends up: which prompt, and the decision.
#[derive(Clone, PartialEq, Eq, Debug)]
pub struct PermissionResponse {
    /// The prompt id being answered (echoes the snapshot's prompt id).
    pub id: String,
    /// The owner's decision.
    pub decision: Decision,
}

/// The model of a [`PermissionResponse`].
pub struct ResponseModel {
    pub id: Seq<char>,
    pub decision: Decision,
}

impl View for PermissionResponse {
    type V = ResponseModel;

    open spec fn view(&self) -> ResponseModel {
        ResponseModel { id: self.id@, decision: self.decision }
    }
}

/// Why a line could not be read back into a [`PermissionResponse`] central-side.
#[derive(Debug)]
pub enum PermissionParseError {
    /// The line was not JSON.
    Json(serde_json::Error),
    /// The line was not a `{"cmd":"permission",..}` object (wrong or absent `cmd`).
    NotPermission,
    /// The `id` field was absent or not a string.
    MissingId,
    /// The `decision` token was absent (carried as the empty string) or neither `"once"` nor
    /// `"deny"` (carried verbatim) — never silently defaulted to `Once`.
    BadDecision(String),
}

impl PermissionParseError {
    /// The log line for this error.
    pub fn describe(&self) -> (r: String)
        ensures
            self is NotPermission ==> r@ == "line was not a permission response"@,
            self is MissingId ==> r@ == "permission response had no id"@,
            self is Json ==> "permission line was not usable JSON: "@.is_prefix_of(r@),
            self matches PermissionParseError::BadDecision(t) ==> r@ == "permission decision was not once/deny: "@
                + debug_text(t@),
    {
        match self {
            PermissionParseError::Json(e) => {
                let mut out: String = String::from_str("permission line was not usable JSON: ");
                out.append(error_text(e).as_str());
                out
            },
            PermissionParseError::NotPermission => String::from_str("line was not a permission response"),
            PermissionParseError::MissingId => String::from_str("permission response had no id"),
            PermissionParseError::BadDecision(token) => {
                let mut out: String = String::from_str("permission decision was not once/deny: ");
                out.append(debug_quoted(token.as_str()).as_str());
                out
            },
        }
    }
}

/// What reading a parsed permission line yields, short of a syntax error.
pub enum PermissionRead {
    Parsed(ResponseModel),
    NotPermission,
    MissingId,
    BadDecision(Seq<char>),
}

/// The JSON a permission response is the text of: `cmd`, `id`, `decision`, in that order.
pub open spec fn response_tree(r: ResponseModel) -> JsonTree {
    JsonTree::Object(
        seq![
            ("cmd"@, JsonTree::Str("permission"@)),
            ("id"@, JsonTree::Str(r.id)),
            ("decision"@, JsonTree::Str(decision_token(r.decision))),
        ],
    )
}

/// The central-side read of a parsed line: `cmd` must be the string `"permission"`, `id` a
/// string, and `decision` the string `"once"` or `"deny"`; other fields are ignored.
pub open spec fn permission_of(v: JsonValue) -> PermissionRead {
    if value_get(v, "cmd"@) != Some(JsonValue::Str("permission"@)) {
        PermissionRead::NotPermission
    } else {
        match value_get(v, "id"@) {
            Some(JsonValue::Str(id)) => match value_get(v, "decision"@) {
                Some(JsonValue::Str(token)) => if token == "once"@ {
                    PermissionRead::Parsed(ResponseModel { id, decision: Decision::Once })
                } else if token == "deny"@ {
                    PermissionRead::Parsed(ResponseModel { id, decision: Decision::Deny })
                } else {
                    PermissionRead::BadDecision(token)
                },
                _ => PermissionRead::BadDecision(Seq::empty()),
            },
            _ => PermissionRead::MissingId,
        }
    }
}

/// What [`PermissionResponse::parse`] returns for `line`.
pub open spec fn parse_permission_result(
    line: Seq<u8>,
    r: Result<PermissionResponse, PermissionParseError>,
) -> bool {
    match json_parse(line) {
        None => r matches Err(PermissionParseError::Json(_)),
        Some(t) => match permission_of(tree_value(t)) {
            PermissionRead::Parsed(m) => r matches Ok(p) && p@ == m,
            PermissionRead::NotPermission => r matches Err(PermissionParseError::NotPermission),
            PermissionRead::MissingId => r matches Err(PermissionParseError::MissingId),
            PermissionRead::BadDecision(token) => r matches Err(PermissionParseError::BadDecision(s))
                && s@ == token,
        },
    }
}

impl PermissionResponse {
    /// A response answering prompt `id` with `decision`.
    pub fn new(id: String, decision: Decision) -> (r: Self)
        ensures
            r@ == (ResponseModel { id: id@, decision }),
    {
        PermissionResponse { id, decision }
    }

    /// Parse the central-side read of a permission line
    /// `{"cmd":"permission","id":<id>,"decision":"once"|"deny"}` — the mirror of
    /// [`to_json`](Self::to_json).
    pub fn parse(line: &[u8]) -> (r: Result<PermissionResponse, PermissionParseError>)
        ensures
            parse_permission_result(line@, r),
    {
        let value: Json = match parse_json(line) {
            Ok(v) => v,
            Err(e) => return Err(PermissionParseError::Json(e)),
        };
        let is_permission: bool = match lookup(&value, "cmd") {
            Some(Json::Str(cmd)) => str_eq(cmd.as_str(), "permission"),
            _ => false,
        };
        proof {
            reveal_strlit("permission");
        }
        if !is_permission {
            return Err(PermissionParseError::NotPermission);
        }
        let id: String = match lookup(&value, "id") {
            Some(Json::Str(id)) => id.clone(),
            _ => return Err(PermissionParseError::MissingId),
        };
        let decision: Decision = match lookup(&value, "decision") {
            Some(Json::Str(token)) => {
                if str_eq(token.as_str(), "once") {
                    Decision::Once
                } else if str_eq(token.as_str(), "deny") {
                    Decision::Deny
                } else {
                    return Err(PermissionParseError::BadDecision(token.clone()));
                }
            },
            _ => return Err(PermissionParseError::BadDecision(String::new())),
        };
        Ok(PermissionResponse { id, decision })
    }

    /// Serialize to the wire line `{"cmd":"permission","id":<id>,"decision":"once"|"deny"}`
    /// (no trailing newline; the transport adds framing).
    pub fn to_json(&self) -> (r: String)
        ensures
            r@ == tree_text(response_tree(self@)),
    {
        let token: &str = self.decision.as_wire();
        let fields: Vec<(String, Json)> = vec![
            (String::from_str("cmd"), Json::Str(String::from_str("permission"))),
            (String::from_str("id"), Json::Str(self.id.clone())),
            (String::from_str("decision"), Json::Str(String::from_str(token))),
        ];
        proof {
            assert(fields@.len() == 3);
            assert(fields@[0].0@ == "cmd"@);
            assert(fields@[1].0@ == "id"@);
            assert(fields@[2].0@ == "decision"@);
            assert(fields@[0].1@ == JsonTree::Str("permission"@));
            assert(fields@[1].1@ == JsonTree::Str(self.id@));
            assert(fields@[2].1@ == JsonTree::Str(decision_token(self.decision)));
        }
        let j: Json = Json::Object(fields);
        proof {
            assert(j@->Object_0 =~= response_tree(self@)->Object_0);
        }
        json_text(&j)
    }
}


/// A permission response round-trips through the central-side read: its tree is plain (so
/// serde_json reads its text back as the same value), and any tree denoting that value reads
/// back as the same response.
pub proof fn permission_round_trip(r: ResponseModel)
    ensures
        plain_at(response_tree(r), 100),
        forall|t: JsonTree|
            tree_value(t) == tree_value(response_tree(r)) ==> #[trigger] permission_of(tree_value(t))
                == PermissionRead::Parsed(r),
{
    reveal_strlit("cmd");
    reveal_strlit("id");
    reveal_strlit("decision");
    reveal_strlit("once");
    reveal_strlit("deny");
    let f = response_tree(r)->Object_0;
    assert(f[0].0.len() == 3 && f[1].0.len() == 2 && f[2].0.len() == 8);
    assert(distinct_keys(f));
    lemma_object_value(f, 0);
    lemma_object_value(f, 1);
    lemma_object_value(f, 2);
    assert(plain_at(f[0].1, 99) && plain_at(f[1].1, 99) && plain_at(f[2].1, 99));
    assert("once"@ != "deny"@) by {
        assert("once"@[0] == 'o' && "deny"@[0] == 'd');
    }
}

/// A read yields [`Decision::Once`] only when the line's `decision` is the string `"once"`:
/// an absent or unknown token is never taken for an approval.
pub proof fn once_only_from_once_token(v: JsonValue)
    ensures
        permission_of(v) matches PermissionRead::Parsed(m) && m.decision == Decision::Once
            ==> value_get(v, "decision"@) == Some(JsonValue::Str("once"@)),
        permission_of(v) matches PermissionRead::Parsed(m) && m.decision == Decision::Deny
            ==> value_get(v, "decision"@) == Some(JsonValue::Str("deny"@)),
{
}

} // verus!
