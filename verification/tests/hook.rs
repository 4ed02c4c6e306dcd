use buddy::hook::{hook_stdout, hook_stdout_for_any, outcome_for_read_error, ReadErrorKind};
use buddy::permission::hook::AskOutcome;
use buddy::permission::ipc::HookRequest;
use buddy::wire::permission::Decision;

/// What asking a daemon whose socket does not exist resolves to.
fn dead_socket(_request: &HookRequest) -> AskOutcome {
    AskOutcome::DaemonDown
}

#[test]
fn a_malformed_payload_prints_nothing() {
    assert_eq!(hook_stdout(b"not json", dead_socket), "");
}

#[test]
fn a_dead_socket_prints_nothing() {
    let stdin: &[u8] = br#"{"session_id":"s1","tool_name":"Bash"}"#;
    assert_eq!(hook_stdout(stdin, dead_socket), "");
}

#[test]
fn a_malformed_payload_never_asks() {
    let out: String = hook_stdout(b"{\"tool_name\":\"Bash\"}", |_r: &HookRequest| -> AskOutcome {
        panic!("a malformed payload must not reach the daemon")
    });
    assert_eq!(out, "");
}

#[test]
fn an_approval_prints_the_allow_decision_for_the_forwarded_request() {
    let stdin: &[u8] = br#"{"session_id":"s1","tool_name":"Bash","cwd":"/w"}"#;
    let out: String = hook_stdout(stdin, |request: &HookRequest| {
        assert_eq!(request.session_id, "s1");
        assert_eq!(request.tool_name, "Bash");
        assert_eq!(request.cwd, "/w");
        AskOutcome::Decided(Decision::Once)
    });
    assert_eq!(
        out,
        r#"{"hookSpecificOutput":{"hookEventName":"PreToolUse","permissionDecision":"allow","permissionDecisionReason":"approved on the stick"}}"#
    );
}

#[test]
fn timeouts_and_unbonded_devices_print_nothing() {
    let stdin: &[u8] = br#"{"session_id":"s1","tool_name":"Bash"}"#;
    assert_eq!(hook_stdout(stdin, |_r: &HookRequest| AskOutcome::TimedOut), "");
    assert_eq!(hook_stdout(stdin, |_r: &HookRequest| AskOutcome::Unbonded), "");
}

#[test]
fn an_expired_read_is_a_timeout_and_anything_else_is_a_dead_daemon() {
    assert_eq!(outcome_for_read_error(ReadErrorKind::WouldBlock), AskOutcome::TimedOut);
    assert_eq!(outcome_for_read_error(ReadErrorKind::TimedOut), AskOutcome::TimedOut);
    assert_eq!(outcome_for_read_error(ReadErrorKind::Other), AskOutcome::DaemonDown);
}

#[test]
fn a_malformed_payload_never_asks_the_daemon() {
    let never = |_r: &HookRequest| -> AskOutcome { panic!("the daemon was asked about a payload that did not parse") };
    assert_eq!(hook_stdout(b"not json", never), "");
    assert_eq!(hook_stdout_for_any(b"{\"tool_name\":\"Bash\"}", |_r: &HookRequest| -> AskOutcome { panic!("asked") }), "");
}
