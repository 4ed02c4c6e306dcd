//! The fail-safe PreToolUse decision — the guard against the host fail-open.
//!
//! A pure function from the outcome of asking the device to what the PreToolUse hook prints.
//! The coding agent proceeds on a hook timeout, so the only safe emit is a real device decision;
//! every other outcome prints nothing and hands control to the normal terminal prompt.
//!
//! The output contract:
//! `{"hookSpecificOutput":{"hookEventName":"PreToolUse","permissionDecision":"allow"|"deny",
//! "permissionDecisionReason":"<reason>"}}` — `permissionDecision` is only ever `allow` or
//! `deny`, never `ask` and never `defer`.
use vstd::prelude::*;
use crate::json::{Json, JsonTree, JsonValue, distinct_keys, fields_view, json_text, lemma_object_absent, lemma_object_value, object_of, plain_at, push_field, tree_text, tree_value, value_get};
use crate::wire::permission::Decision;
use vstd::string::StringExecFns;

verus! {

/// The canonical reason for an allow emitted from a device approval.
pub const ALLOW_REASON: &'static str = "approved on the stick";

/// The canonical reason for a deny emitted from a device denial.
pub const DENY_REASON: &'static str = "denied on the stick";

/// The daemon's answer to "did the owner decide?", or why there is none. Only
/// [`AskOutcome::Decided`] can ever produce an emit.
#[derive(Clone, Copy, PartialEq, Eq, Debug, Structural)]
pub enum AskOutcome {
    /// The owner pressed a button and the device answered.
    Decided(Decision),
    /// The hook's own deadline expired with no answer.
    TimedOut,
    /// The daemon was not reachable.
    DaemonDown,
    /// The daemon is up but nothing is bonded, so the device cannot be asked.
    Unbonded,
}

/// The allow/deny axis of a PreToolUse decision — never `ask`, never `defer`.
#[derive(Clone, Copy, PartialEq, Eq, Debug, Structural)]
pub enum Permission {
    /// `permissionDecision:"allow"`.
    Allow,
    /// `permissionDecision:"deny"`.
    Deny,
}

/// The wire token of a permission.
pub open spec fn permission_token(p: Permission) -> Seq<char> {
    match p {
        Permission::Allow => "allow"@,
        Permission::Deny => "deny"@,
    }
}

impl Permission {
    /// The wire token for this permission (`"allow"` or `"deny"`).
    pub fn as_wire(self) -> (r: &'static str)
        ensures
            r@ == permission_token(self),
    {
        match self {
            Permission::Allow => "allow",
            Permission::Deny => "deny",
        }
    }
}

/// A concrete PreToolUse decision to print: the allow/deny axis and its human reason.
#[derive(Clone, PartialEq, Eq, Debug)]
pub struct PreToolUseDecision {
    /// Allow or deny — the only two values ever emitted.
    pub permission: Permission,
    /// The `permissionDecisionReason` string.
    pub reason: String,
}

/// The model of a [`PreToolUseDecision`].
pub struct DecisionModel {
    pub permission: Permission,
    pub reason: Seq<char>,
}

impl View for PreToolUseDecision {
    type V = DecisionModel;

    open spec fn view(&self) -> DecisionModel {
        DecisionModel { permission: self.permission, reason: self.reason@ }
    }
}

/// What the hook prints: an explicit decision, or nothing at all.
#[derive(Clone, PartialEq, Eq, Debug)]
pub enum HookOutput {
    /// Print the PreToolUse JSON for this allow/deny decision.
    Emit(PreToolUseDecision),
    /// Print nothing; hand control to the agent's normal terminal prompt.
    Silent,
}

/// The model of a [`HookOutput`].
pub enum OutputModel {
    Emit(DecisionModel),
    Silent,
}

impl View for HookOutput {
    type V = OutputModel;

    open spec fn view(&self) -> OutputModel {
        match self {
            HookOutput::Emit(d) => OutputModel::Emit(d@),
            HookOutput::Silent => OutputModel::Silent,
        }
    }
}

/// The fail-safe mapping: an approval allows, a denial denies, anything else is silent.
pub open spec fn decide_model(outcome: AskOutcome) -> OutputModel {
    match outcome {
        AskOutcome::Decided(Decision::Once) => OutputModel::Emit(
            DecisionModel { permission: Permission::Allow, reason: ALLOW_REASON@ },
        ),
        AskOutcome::Decided(Decision::Deny) => OutputModel::Emit(
            DecisionModel { permission: Permission::Deny, reason: DENY_REASON@ },
        ),
        _ => OutputModel::Silent,
    }
}

/// Map the outcome of asking the device to what the hook prints — the fail-safe guard.
///
/// `Decided(Once)` emits allow, `Decided(Deny)` emits deny, and `TimedOut`, `DaemonDown` and
/// `Unbonded` are silent. There is no path from a non-decided outcome to an emit.
pub fn decide(outcome: AskOutcome) -> (r: HookOutput)
    ensures
        r@ == decide_model(outcome),
{
    match outcome {
        AskOutcome::Decided(Decision::Once) => HookOutput::Emit(
            PreToolUseDecision { permission: Permission::Allow, reason: String::from_str(ALLOW_REASON) },
        ),
        AskOutcome::Decided(Decision::Deny) => HookOutput::Emit(
            PreToolUseDecision { permission: Permission::Deny, reason: String::from_str(DENY_REASON) },
        ),
        AskOutcome::TimedOut | AskOutcome::DaemonDown | AskOutcome::Unbonded => HookOutput::Silent,
    }
}

/// The PreToolUse JSON for a decision: the `hookSpecificOutput` envelope around the fixed
/// event name, the decision token and the reason, in that order.
pub open spec fn decision_tree(d: DecisionModel) -> JsonTree {
    JsonTree::Object(
        seq![
            (
                "hookSpecificOutput"@,
                JsonTree::Object(
                    seq![
                        ("hookEventName"@, JsonTree::Str("PreToolUse"@)),
                        ("permissionDecision"@, JsonTree::Str(permission_token(d.permission))),
                        ("permissionDecisionReason"@, JsonTree::Str(d.reason)),
                    ],
                ),
            ),
        ],
    )
}

/// What the hook writes for an output: nothing when silent, else the decision's JSON text.
pub open spec fn stdout_text(output: OutputModel) -> Seq<char> {
    match output {
        OutputModel::Silent => Seq::empty(),
        OutputModel::Emit(d) => tree_text(decision_tree(d)),
    }
}

/// Render a [`HookOutput`] to exactly what the hook writes to stdout: the empty string when
/// silent (never `{}` and never `null`), else the PreToolUse JSON.
pub fn to_stdout(output: &HookOutput) -> (r: String)
    ensures
        r@ == stdout_text(output@),
{
    match output {
        HookOutput::Silent => String::new(),
        HookOutput::Emit(decision) => {
            let mut inner: Vec<(String, Json)> = Vec::new();
            push_field(&mut inner, "hookEventName", Json::Str(String::from_str("PreToolUse")));
            push_field(&mut inner, "permissionDecision", Json::Str(String::from_str(decision.permission.as_wire())));
            push_field(&mut inner, "permissionDecisionReason", Json::Str(decision.reason.clone()));
            let inner_json: Json = object_of(inner);
            let mut outer: Vec<(String, Json)> = Vec::new();
            push_field(&mut outer, "hookSpecificOutput", inner_json);
            let j: Json = object_of(outer);
            proof {
                let d = decision@;
                assert(inner_json@->Object_0 =~= decision_tree(d)->Object_0[0].1->Object_0);
                assert(j@->Object_0 =~= decision_tree(d)->Object_0);
            }
            json_text(&j)
        },
    }
}

/// Only a real device decision emits, and an emit's decision field is only ever `allow` or
/// `deny`: a timeout, a dead daemon and an unbonded device are all silent.
pub proof fn only_decisions_emit(outcome: AskOutcome)
    ensures
        decide_model(outcome) is Emit <==> outcome is Decided,
        decide_model(outcome) matches OutputModel::Emit(d) ==> (permission_token(d.permission)
            == "allow"@ || permission_token(d.permission) == "deny"@),
        decide_model(outcome) is Silent ==> stdout_text(decide_model(outcome)) == Seq::<char>::empty(),
{
}

/// The hook's stdout reads back as what it says: its tree is plain (so serde_json reads the
/// text back as the same value), the value's only key is `hookSpecificOutput`, and under it the
/// event name is `PreToolUse`, the decision is the permission's token and the reason is the
/// decision's reason.
pub proof fn hook_output_reads_back(d: DecisionModel)
    ensures
        plain_at(decision_tree(d), 100),
        ({
            let v = tree_value(decision_tree(d));
            let inner = tree_value(decision_tree(d)->Object_0[0].1);
            &&& forall|k: Seq<char>| #[trigger] value_get(v, k) is Some <==> k == "hookSpecificOutput"@
            &&& value_get(v, "hookSpecificOutput"@) == Some(inner)
            &&& value_get(inner, "hookEventName"@) == Some(JsonValue::Str("PreToolUse"@))
            &&& value_get(inner, "permissionDecision"@) == Some(JsonValue::Str(permission_token(d.permission)))
            &&& value_get(inner, "permissionDecisionReason"@) == Some(JsonValue::Str(d.reason))
        }),
{
    reveal_strlit("hookEventName");
    reveal_strlit("permissionDecision");
    reveal_strlit("permissionDecisionReason");
    let outer = decision_tree(d)->Object_0;
    let f = outer[0].1->Object_0;
    assert(f[0].0.len() == 13 && f[1].0.len() == 18 && f[2].0.len() == 24);
    assert(distinct_keys(f));
    assert(distinct_keys(outer));
    lemma_object_value(f, 0);
    lemma_object_value(f, 1);
    lemma_object_value(f, 2);
    lemma_object_value(outer, 0);
    assert(plain_at(f[0].1, 98) && plain_at(f[1].1, 98) && plain_at(f[2].1, 98));
    assert(plain_at(outer[0].1, 99));
    assert forall|k: Seq<char>| #[trigger] value_get(tree_value(decision_tree(d)), k) is Some <==> k
        == "hookSpecificOutput"@ by {
        if k != "hookSpecificOutput"@ {
            lemma_object_absent(outer, k);
        }
    }
}

} // verus!
