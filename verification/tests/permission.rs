use buddy::permission::gating::GatedSnapshot;
use buddy::permission::hook::{
    decide, to_stdout, AskOutcome, HookOutput, Permission, PreToolUseDecision, ALLOW_REASON,
    DENY_REASON,
};
use buddy::permission::ipc::{DaemonReply, HookRequest};
use buddy::permission::ledger::{cap_u8, Ledger, SessionEvent, SessionId};
use buddy::permission::pretooluse::{parse_pretooluse, PreToolUseParseError};
use buddy::wire::inbound::{Prompt, SnapshotPacket};
use buddy::wire::permission::Decision;

fn a_prompt(id: &str) -> Prompt {
    Prompt { id: id.to_string(), tool: "bash".to_string(), hint: "rm -rf".to_string() }
}

fn sid(s: &str) -> SessionId {
    SessionId(s.to_string())
}

// ---- hook -------------------------------------------------------------------------------

#[test]
fn an_approval_emits_allow() {
    assert_eq!(
        decide(AskOutcome::Decided(Decision::Once)),
        HookOutput::Emit(PreToolUseDecision { permission: Permission::Allow, reason: ALLOW_REASON.to_string() })
    );
}

#[test]
fn a_denial_emits_deny() {
    assert_eq!(
        decide(AskOutcome::Decided(Decision::Deny)),
        HookOutput::Emit(PreToolUseDecision { permission: Permission::Deny, reason: DENY_REASON.to_string() })
    );
}

#[test]
fn a_timeout_is_silent() {
    assert_eq!(decide(AskOutcome::TimedOut), HookOutput::Silent);
}

#[test]
fn every_non_decided_outcome_is_silent() {
    for outcome in [AskOutcome::TimedOut, AskOutcome::DaemonDown, AskOutcome::Unbonded] {
        assert_eq!(decide(outcome), HookOutput::Silent);
    }
}

#[test]
fn silent_renders_empty() {
    assert_eq!(to_stdout(&HookOutput::Silent), "");
}

#[test]
fn allow_renders_the_exact_shape() {
    let line: String = to_stdout(&decide(AskOutcome::Decided(Decision::Once)));
    assert_eq!(
        line,
        r#"{"hookSpecificOutput":{"hookEventName":"PreToolUse","permissionDecision":"allow","permissionDecisionReason":"approved on the stick"}}"#
    );
}

#[test]
fn deny_renders_the_exact_shape() {
    let line: String = to_stdout(&decide(AskOutcome::Decided(Decision::Deny)));
    assert_eq!(
        line,
        r#"{"hookSpecificOutput":{"hookEventName":"PreToolUse","permissionDecision":"deny","permissionDecisionReason":"denied on the stick"}}"#
    );
}

#[test]
fn a_reason_is_escaped_faithfully() {
    let line: String = to_stdout(&HookOutput::Emit(PreToolUseDecision {
        permission: Permission::Allow,
        reason: "say \"ask\"\n".to_string(),
    }));
    assert_eq!(
        line,
        r#"{"hookSpecificOutput":{"hookEventName":"PreToolUse","permissionDecision":"allow","permissionDecisionReason":"say \"ask\"\n"}}"#
    );
}

#[test]
fn permission_wire_tokens_are_allow_and_deny() {
    assert_eq!(Permission::Allow.as_wire(), "allow");
    assert_eq!(Permission::Deny.as_wire(), "deny");
}

// ---- ipc --------------------------------------------------------------------------------

#[test]
fn an_allow_reply_maps_to_a_once_decision() {
    assert_eq!(DaemonReply::Allow.to_outcome(), AskOutcome::Decided(Decision::Once));
}

#[test]
fn a_deny_reply_maps_to_a_deny_decision() {
    assert_eq!(DaemonReply::Deny.to_outcome(), AskOutcome::Decided(Decision::Deny));
}

#[test]
fn an_unbonded_reply_stays_the_silent_fail_safe() {
    assert_eq!(DaemonReply::Unbonded.to_outcome(), AskOutcome::Unbonded);
    assert_eq!(decide(DaemonReply::Unbonded.to_outcome()), HookOutput::Silent);
}

// ---- gating -----------------------------------------------------------------------------

fn a_bare_snapshot() -> SnapshotPacket {
    SnapshotPacket { running: Some(1), ..SnapshotPacket::default() }
}

#[test]
fn gating_restores_the_outstanding_prompt() {
    let gated: GatedSnapshot = GatedSnapshot::gate(a_bare_snapshot(), Some(a_prompt("req_9")));
    assert_eq!(gated.packet().prompt, Some(a_prompt("req_9")));
}

#[test]
fn gating_without_a_prompt_passes_through() {
    let gated: GatedSnapshot = GatedSnapshot::gate(a_bare_snapshot(), None);
    assert!(gated.packet().prompt.is_none());
}

#[test]
fn gating_preserves_the_other_fields() {
    let gated: GatedSnapshot = GatedSnapshot::gate(a_bare_snapshot(), Some(a_prompt("req_9")));
    assert_eq!(gated.into_packet().running, Some(1));
}

#[test]
fn gating_overwrites_a_stale_prompt_with_the_live_one() {
    let stale: SnapshotPacket = SnapshotPacket { prompt: Some(a_prompt("old")), ..SnapshotPacket::default() };
    let gated: GatedSnapshot = GatedSnapshot::gate(stale, Some(a_prompt("live")));
    assert_eq!(gated.packet().prompt, Some(a_prompt("live")));
}

// ---- ledger -----------------------------------------------------------------------------

#[test]
fn no_sessions_are_zero_counts() {
    let mut ledger: Ledger = Ledger::new();
    let packet: SnapshotPacket = ledger.synthesize();
    assert_eq!(packet.total, Some(0));
    assert_eq!(packet.running, Some(0));
    assert_eq!(packet.waiting, Some(0));
}

#[test]
fn one_started_session_runs() {
    let mut ledger: Ledger = Ledger::new();
    ledger.record(sid("s1"), SessionEvent::Started);
    let packet: SnapshotPacket = ledger.synthesize();
    assert_eq!(packet.total, Some(1));
    assert_eq!(packet.running, Some(1));
    assert_eq!(packet.waiting, Some(0));
}

#[test]
fn a_stopped_session_leaves_running_but_stays_in_total() {
    let mut ledger: Ledger = Ledger::new();
    ledger.record(sid("s1"), SessionEvent::Started);
    ledger.record(sid("s2"), SessionEvent::Started);
    ledger.record(sid("s2"), SessionEvent::Stopped);
    let packet: SnapshotPacket = ledger.synthesize();
    assert_eq!(packet.total, Some(2));
    assert_eq!(packet.running, Some(1));
}

#[test]
fn an_awaiting_session_is_waiting() {
    let mut ledger: Ledger = Ledger::new();
    ledger.record(sid("s1"), SessionEvent::Started);
    ledger.record(sid("s1"), SessionEvent::AwaitingApproval(a_prompt("req_1")));
    let packet: SnapshotPacket = ledger.synthesize();
    assert_eq!(packet.waiting, Some(1));
    assert!(ledger.outstanding_prompt().is_some());
}

#[test]
fn the_first_token_total_credits_nothing() {
    let mut ledger: Ledger = Ledger::new();
    ledger.observe_tokens(1_000);
    assert_eq!(ledger.synthesize().tokens, Some(0));
}

#[test]
fn a_forward_total_credits_the_delta() {
    let mut ledger: Ledger = Ledger::new();
    ledger.observe_tokens(1_000);
    ledger.observe_tokens(1_500);
    assert_eq!(ledger.synthesize().tokens, Some(500));
}

#[test]
fn a_backwards_total_never_double_counts() {
    let mut ledger: Ledger = Ledger::new();
    ledger.observe_tokens(1_000);
    ledger.observe_tokens(1_500);
    ledger.observe_tokens(300);
    assert_eq!(ledger.synthesize().tokens, Some(500));
}

#[test]
fn a_backwards_total_rebaselines() {
    let mut ledger: Ledger = Ledger::new();
    ledger.observe_tokens(1_000);
    ledger.observe_tokens(300);
    ledger.observe_tokens(400);
    assert_eq!(ledger.synthesize().tokens, Some(100));
}

#[test]
fn a_resolve_clears_the_prompt() {
    let mut ledger: Ledger = Ledger::new();
    ledger.record(sid("s1"), SessionEvent::AwaitingApproval(a_prompt("req_1")));
    ledger.record(sid("s1"), SessionEvent::Resolved);
    assert!(ledger.outstanding_prompt().is_none());
    assert_eq!(ledger.synthesize().prompt, None);
}

#[test]
fn a_live_prompt_rides_repeated_synthesis() {
    let mut ledger: Ledger = Ledger::new();
    ledger.record(sid("s1"), SessionEvent::AwaitingApproval(a_prompt("req_1")));
    assert!(ledger.synthesize().prompt.is_some());
    assert!(ledger.synthesize().prompt.is_some());
}

#[test]
fn a_cross_session_resolve_keeps_a_still_waiting_prompt() {
    let mut ledger: Ledger = Ledger::new();
    ledger.record(sid("s1"), SessionEvent::AwaitingApproval(a_prompt("req_1")));
    ledger.record(sid("s2"), SessionEvent::Resolved);
    let packet: SnapshotPacket = ledger.synthesize();
    assert_eq!(packet.waiting, Some(1));
    assert!(packet.prompt.is_some());
}

#[test]
fn two_concurrent_prompts_survive_resolving_the_newer() {
    let mut ledger: Ledger = Ledger::new();
    ledger.record(sid("s1"), SessionEvent::AwaitingApproval(a_prompt("req_1")));
    ledger.record(sid("s2"), SessionEvent::AwaitingApproval(a_prompt("req_2")));
    assert_eq!(ledger.outstanding_prompt().map(|p: &Prompt| p.id.clone()), Some("req_2".to_string()));
    ledger.record(sid("s2"), SessionEvent::Resolved);
    let packet: SnapshotPacket = ledger.synthesize();
    assert_eq!(packet.waiting, Some(1));
    assert_eq!(packet.prompt.map(|p: Prompt| p.id), Some("req_1".to_string()));
}

#[test]
fn a_stopped_session_keeps_its_pending_prompt() {
    let mut ledger: Ledger = Ledger::new();
    ledger.record(sid("s1"), SessionEvent::AwaitingApproval(a_prompt("req_1")));
    ledger.record(sid("s1"), SessionEvent::Stopped);
    let packet: SnapshotPacket = ledger.synthesize();
    assert_eq!(packet.waiting, Some(1));
    assert!(packet.prompt.is_some());
}

#[test]
fn the_completed_pulse_is_emitted_once() {
    let mut ledger: Ledger = Ledger::new();
    ledger.record(sid("s1"), SessionEvent::Completed);
    assert_eq!(ledger.synthesize().completed, Some(true));
    assert_eq!(ledger.synthesize().completed, None);
}

#[test]
fn a_completion_touches_no_session() {
    let mut ledger: Ledger = Ledger::new();
    ledger.record(sid("s1"), SessionEvent::Completed);
    assert_eq!(ledger.synthesize().total, Some(0));
}

#[test]
fn a_tool_start_marks_the_session_seen() {
    let mut ledger: Ledger = Ledger::new();
    ledger.record(sid("s1"), SessionEvent::ToolStarted);
    let packet: SnapshotPacket = ledger.synthesize();
    assert_eq!(packet.total, Some(1));
    assert_eq!(packet.running, Some(0));
    assert_eq!(packet.tokens_today, None);
    assert_eq!(packet.msg, None);
    assert_eq!(packet.entries, None);
}

#[test]
fn counts_are_capped_at_255() {
    assert_eq!(cap_u8(0), 0);
    assert_eq!(cap_u8(255), 255);
    assert_eq!(cap_u8(256), 255);
    assert_eq!(cap_u8(usize::MAX), 255);
}

#[test]
fn a_random_sequence_keeps_waiting_tied_to_the_prompt() {
    let mut ledger: Ledger = Ledger::new();
    let mut seed: u32 = 12345;
    for _ in 0..200 {
        seed = seed.wrapping_mul(1103515245).wrapping_add(12345);
        let session: u32 = (seed >> 16) % 4;
        let kind: u32 = (seed >> 8) % 6;
        let event: SessionEvent = match kind {
            0 => SessionEvent::Started,
            1 => SessionEvent::ToolStarted,
            2 => SessionEvent::AwaitingApproval(a_prompt(&format!("req_{session}"))),
            3 => SessionEvent::Resolved,
            4 => SessionEvent::Completed,
            _ => SessionEvent::Stopped,
        };
        ledger.record(SessionId(format!("s{session}")), event);
        let packet: SnapshotPacket = ledger.synthesize();
        let waiting: u8 = packet.waiting.unwrap_or(0);
        let total: u8 = packet.total.unwrap_or(0);
        assert!(waiting == 0 || packet.prompt.is_some());
        assert!(packet.running.unwrap_or(0) <= total);
        assert!(waiting <= total);
    }
}

// ---- pretooluse -------------------------------------------------------------------------

fn request(session_id: &str, tool_name: &str, cwd: &str, mode: &str, path: &str) -> HookRequest {
    HookRequest {
        session_id: session_id.to_string(),
        tool_name: tool_name.to_string(),
        cwd: cwd.to_string(),
        permission_mode: mode.to_string(),
        transcript_path: path.to_string(),
    }
}

#[test]
fn a_full_payload_parses_to_the_request() {
    let bytes: &[u8] = br#"{"session_id":"s1","tool_name":"Bash","cwd":"/w",
        "permission_mode":"default","transcript_path":"/t.jsonl"}"#;
    assert_eq!(parse_pretooluse(bytes), Ok(request("s1", "Bash", "/w", "default", "/t.jsonl")));
}

#[test]
fn unknown_fields_are_ignored() {
    let bytes: &[u8] = br#"{"session_id":"s1","tool_name":"Edit",
        "hook_event_name":"PreToolUse","tool_input":{"file_path":"/x"},
        "effort":{"level":"high"},"prompt_id":"p9"}"#;
    assert_eq!(parse_pretooluse(bytes), Ok(request("s1", "Edit", "", "", "")));
}

#[test]
fn absent_contextual_fields_default_to_empty() {
    let bytes: &[u8] = br#"{"session_id":"s1","tool_name":"Write"}"#;
    assert_eq!(parse_pretooluse(bytes), Ok(request("s1", "Write", "", "", "")));
}

#[test]
fn a_missing_session_id_is_malformed() {
    assert!(matches!(parse_pretooluse(br#"{"tool_name":"Bash"}"#), Err(PreToolUseParseError::Malformed(_))));
}

#[test]
fn a_missing_tool_name_is_malformed() {
    assert!(matches!(parse_pretooluse(br#"{"session_id":"s1"}"#), Err(PreToolUseParseError::Malformed(_))));
}

#[test]
fn non_json_bytes_are_malformed() {
    assert!(matches!(parse_pretooluse(b"not json"), Err(PreToolUseParseError::Malformed(_))));
}

#[test]
fn a_contextual_field_of_the_wrong_type_is_malformed() {
    assert!(matches!(
        parse_pretooluse(br#"{"session_id":"s1","tool_name":"Bash","cwd":5}"#),
        Err(PreToolUseParseError::Malformed(_))
    ));
}

#[test]
fn the_payload_may_come_as_an_array_of_its_fields() {
    assert_eq!(parse_pretooluse(br#"["s1","Bash","/w"]"#), Ok(request("s1", "Bash", "/w", "", "")));
    assert!(parse_pretooluse(br#"["s1"]"#).is_err());
    assert!(parse_pretooluse(br#"["a","b","c","d","e","f"]"#).is_err());
}

#[test]
fn a_malformed_payload_describes_itself() {
    let err: PreToolUseParseError = parse_pretooluse(br#"{"session_id":"s1"}"#).expect_err("malformed");
    assert!(err.describe().starts_with("malformed PreToolUse payload: "));
}
