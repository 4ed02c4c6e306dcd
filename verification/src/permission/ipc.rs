//! The hook ↔ daemon messages: the request the hook forwards and the reply that maps back to
//! an [`AskOutcome`].
//!
//! `TimedOut` and `DaemonDown` are the hook's own local conditions — no reply arrived, or the
//! socket refused — so the daemon never sends them; only the answers the daemon can actually
//! give are replies.
use vstd::prelude::*;
use crate::permission::hook::{AskOutcome, OutputModel, Permission, decide_model};
use crate::wire::permission::Decision;

verus! {

/// The tool-call context the hook forwards to the daemon.
#[derive(Clone, PartialEq, Eq, Debug)]
pub struct HookRequest {
    /// The coding agent's session id (keys the ledger).
    pub session_id: String,
    /// The tool being invoked (shown on the glass).
    pub tool_name: String,
    /// The working directory the tool call runs in.
    pub cwd: String,
    /// The permission mode in effect.
    pub permission_mode: String,
    /// The transcript path — the raw material for token accounting.
    pub transcript_path: String,
}

/// The model of a [`HookRequest`].
pub struct RequestModel {
    pub session_id: Seq<char>,
    pub tool_name: Seq<char>,
    pub cwd: Seq<char>,
    pub permission_mode: Seq<char>,
    pub transcript_path: Seq<char>,
}

impl View for HookRequest {
    type V = RequestModel;

    open spec fn view(&self) -> RequestModel {
        RequestModel {
            session_id: self.session_id@,
            tool_name: self.tool_name@,
            cwd: self.cwd@,
            permission_mode: self.permission_mode@,
            transcript_path: self.transcript_path@,
        }
    }
}

/// The daemon's reply to a [`HookRequest`] — the answers the daemon can actually give.
#[derive(Clone, Copy, PartialEq, Eq, Debug, Structural)]
pub enum DaemonReply {
    /// The owner approved on the stick.
    Allow,
    /// The owner denied on the stick.
    Deny,
    /// The daemon is up but nothing is bonded, so the device could not be asked.
    Unbonded,
}

/// The outcome a reply stands for.
pub open spec fn reply_outcome(reply: DaemonReply) -> AskOutcome {
    match reply {
        DaemonReply::Allow => AskOutcome::Decided(Decision::Once),
        DaemonReply::Deny => AskOutcome::Decided(Decision::Deny),
        DaemonReply::Unbonded => AskOutcome::Unbonded,
    }
}

impl DaemonReply {
    /// Map this reply to the [`AskOutcome`] the fail-safe decision consumes: `Allow` is an
    /// approval, `Deny` a denial, and `Unbonded` stays the non-decided `Unbonded`.
    pub fn to_outcome(self) -> (r: AskOutcome)
        ensures
            r == reply_outcome(self),
    {
        match self {
            DaemonReply::Allow => AskOutcome::Decided(Decision::Once),
            DaemonReply::Deny => AskOutcome::Decided(Decision::Deny),
            DaemonReply::Unbonded => AskOutcome::Unbonded,
        }
    }
}

/// Only the owner's answers decide: an unbonded daemon's reply stays the silent fail-safe,
/// and an approval or a denial emits.
pub proof fn only_answers_decide(reply: DaemonReply)
    ensures
        decide_model(reply_outcome(reply)) is Silent <==> reply == DaemonReply::Unbonded,
        reply == DaemonReply::Allow ==> (decide_model(reply_outcome(reply)) matches OutputModel::Emit(d)
            && d.permission == Permission::Allow),
        reply == DaemonReply::Deny ==> (decide_model(reply_outcome(reply)) matches OutputModel::Emit(d)
            && d.permission == Permission::Deny),
{
}

} // verus!
