use buddy::json::{Json, JsonNumber};
use buddy::wire::command::{dispatch, Ack, Command};
use buddy::wire::framing::{FrameError, Framer, Ring, LINE_CAPACITY, RING_CAPACITY};
use buddy::wire::inbound::{
    parse_command, parse_inbound, BuddyEvent, Inbound, InboundError, Prompt, SnapshotPacket,
    SnapshotState,
};
use buddy::wire::outbound::{serialize_name, serialize_owner, serialize_snapshot, serialize_time};
use buddy::wire::permission::{Decision, PermissionParseError, PermissionResponse};

fn a_prompt() -> Prompt {
    Prompt {
        id: "req_abc".to_string(),
        tool: "bash".to_string(),
        hint: "rm -rf".to_string(),
    }
}

// ---- framing ----------------------------------------------------------------------------

#[test]
fn no_terminator_yet_yields_no_lines() {
    let mut framer: Framer = Framer::new();
    let lines: Vec<Vec<u8>> = framer.push(b"{\"a\":1}").expect("no overflow");
    assert!(lines.is_empty());
}

#[test]
fn one_newline_terminated_object_is_one_line() {
    let mut framer: Framer = Framer::new();
    let lines: Vec<Vec<u8>> = framer.push(b"{\"a\":1}\n").expect("no overflow");
    assert_eq!(lines, vec![b"{\"a\":1}".to_vec()]);
}

#[test]
fn a_carriage_return_also_terminates() {
    let mut framer: Framer = Framer::new();
    let lines: Vec<Vec<u8>> = framer.push(b"{\"a\":1}\r").expect("no overflow");
    assert_eq!(lines, vec![b"{\"a\":1}".to_vec()]);
}

#[test]
fn a_crlf_pair_yields_one_line_and_one_dropped_empty() {
    let mut framer: Framer = Framer::new();
    let lines: Vec<Vec<u8>> = framer.push(b"{\"a\":1}\r\n").expect("no overflow");
    assert_eq!(lines, vec![b"{\"a\":1}".to_vec()], "the empty second line is dropped");
}

#[test]
fn two_objects_in_one_chunk_are_two_lines() {
    let mut framer: Framer = Framer::new();
    let lines: Vec<Vec<u8>> = framer.push(b"{\"a\":1}\n{\"b\":2}\n").expect("no overflow");
    assert_eq!(lines, vec![b"{\"a\":1}".to_vec(), b"{\"b\":2}".to_vec()]);
}

#[test]
fn an_empty_line_is_dropped_silently() {
    let mut framer: Framer = Framer::new();
    let lines: Vec<Vec<u8>> = framer.push(b"\n").expect("no overflow");
    assert!(lines.is_empty());
}

#[test]
fn a_leading_space_kills_the_message() {
    let mut framer: Framer = Framer::new();
    let lines: Vec<Vec<u8>> = framer.push(b" {\"a\":1}\n").expect("no overflow");
    assert!(lines.is_empty(), "a space-prefixed line is not accepted");
}

#[test]
fn a_line_split_across_two_chunks_reassembles() {
    let mut framer: Framer = Framer::new();
    let first: Vec<Vec<u8>> = framer.push(b"{\"a\":").expect("no overflow");
    assert!(first.is_empty());
    let second: Vec<Vec<u8>> = framer.push(b"1}\n").expect("no overflow");
    assert_eq!(second, vec![b"{\"a\":1}".to_vec()]);
}

#[test]
fn a_line_at_capacity_still_completes() {
    let mut body: Vec<u8> = vec![b'{'];
    body.extend(std::iter::repeat_n(b'x', LINE_CAPACITY - 1));
    let mut chunk: Vec<u8> = body.clone();
    chunk.push(b'\n');
    let mut framer: Framer = Framer::new();
    let lines: Vec<Vec<u8>> = framer.push(&chunk).expect("a full-capacity line is fine");
    assert_eq!(lines, vec![body]);
}

#[test]
fn overrunning_the_line_buffer_is_a_typed_error_not_a_silent_truncation() {
    let mut chunk: Vec<u8> = vec![b'{'];
    chunk.extend(std::iter::repeat_n(b'x', LINE_CAPACITY));
    let mut framer: Framer = Framer::new();
    let err: FrameError = framer.push(&chunk).expect_err("must surface truncation");
    assert_eq!(err, FrameError::LineTooLong);
}

#[test]
fn the_framer_stays_usable_after_an_overrun() {
    let mut chunk: Vec<u8> = vec![b'{'];
    chunk.extend(std::iter::repeat_n(b'x', LINE_CAPACITY));
    let mut framer: Framer = Framer::new();
    assert!(framer.push(&chunk).is_err());
    let lines: Vec<Vec<u8>> = framer.push(b"{\"b\":2}\n").expect("fresh line");
    assert_eq!(lines, vec![b"{\"b\":2}".to_vec()]);
}

#[test]
fn the_ring_round_trips_bytes_through_drain() {
    let mut ring: Ring = Ring::new();
    ring.push(b"hello").expect("fits");
    assert_eq!(ring.drain(), b"hello".to_vec());
}

#[test]
fn draining_an_empty_ring_yields_nothing() {
    let mut ring: Ring = Ring::new();
    assert!(ring.drain().is_empty());
}

#[test]
fn a_ring_filled_to_capacity_accepts_the_bytes() {
    let mut ring: Ring = Ring::new();
    let full: Vec<u8> = vec![b'z'; RING_CAPACITY];
    ring.push(&full).expect("exactly capacity fits");
    assert_eq!(ring.drain().len(), RING_CAPACITY);
}

#[test]
fn overrunning_the_ring_is_a_typed_error_not_a_silent_mid_line_drop() {
    let mut ring: Ring = Ring::new();
    let too_much: Vec<u8> = vec![b'z'; RING_CAPACITY + 1];
    let err: FrameError = ring.push(&too_much).expect_err("must surface the overflow");
    assert_eq!(err, FrameError::RxOverflow);
}

#[test]
fn a_ring_overflow_appends_nothing() {
    let mut ring: Ring = Ring::new();
    ring.push(&vec![b'a'; RING_CAPACITY - 1]).expect("fits");
    let _ = ring.push(b"bb").expect_err("2 bytes do not fit in 1 free");
    assert_eq!(ring.drain().len(), RING_CAPACITY - 1);
}

#[test]
fn frame_errors_describe_themselves() {
    assert_eq!(FrameError::LineTooLong.describe(), "line exceeded 1023 bytes");
    assert_eq!(FrameError::RxOverflow.describe(), "receive ring exceeded 2047 bytes");
}

// ---- inbound ----------------------------------------------------------------------------

#[test]
fn a_bare_object_classifies_as_a_snapshot() {
    let inbound: Inbound = parse_inbound(br#"{"running":2}"#).expect("valid snapshot");
    assert!(matches!(inbound, Inbound::Snapshot(_)));
}

#[test]
fn a_two_element_time_array_classifies_as_time() {
    let inbound: Inbound = parse_inbound(br#"{"time":[1775731234,-25200]}"#).expect("valid time");
    assert_eq!(inbound, Inbound::Time { epoch: 1775731234, tz_offset_s: -25200 });
}

#[test]
fn a_cmd_object_classifies_as_a_command() {
    let inbound: Inbound = parse_inbound(br#"{"cmd":"status"}"#).expect("valid command");
    assert_eq!(inbound, Inbound::Command(Command::Status));
}

#[test]
fn an_evt_turn_classifies_as_an_event_not_a_snapshot() {
    let inbound: Inbound =
        parse_inbound(br#"{"evt":"turn","role":"assistant"}"#).expect("valid event");
    assert_eq!(inbound, Inbound::Event(BuddyEvent::Turn));
    assert!(!matches!(inbound, Inbound::Snapshot(_)));
}

#[test]
fn a_turn_event_cannot_be_merged_because_it_carries_no_packet() {
    let mut state: SnapshotState = SnapshotState { prompt: Some(a_prompt()), ..SnapshotState::default() };
    let before: Option<Prompt> = state.prompt.clone();
    let inbound: Inbound = parse_inbound(br#"{"evt":"turn"}"#).expect("event");
    if let Inbound::Snapshot(packet) = inbound {
        state.merge(&packet);
    }
    assert_eq!(state.prompt, before);
}

#[test]
fn a_valid_time_sync_leaves_a_pending_prompt_intact() {
    let mut state: SnapshotState = SnapshotState { prompt: Some(a_prompt()), ..SnapshotState::default() };
    let before: Option<Prompt> = state.prompt.clone();
    let inbound: Inbound = parse_inbound(br#"{"time":[1775731234,-14400]}"#).expect("valid time");
    assert!(matches!(inbound, Inbound::Time { .. }));
    if let Inbound::Snapshot(packet) = inbound {
        state.merge(&packet);
    }
    assert_eq!(state.prompt, before);
}

#[test]
fn a_known_command_leaves_a_pending_prompt_intact() {
    let mut state: SnapshotState = SnapshotState { prompt: Some(a_prompt()), ..SnapshotState::default() };
    let before: Option<Prompt> = state.prompt.clone();
    let inbound: Inbound = parse_inbound(br#"{"cmd":"status"}"#).expect("known command");
    assert!(matches!(inbound, Inbound::Command(_)));
    if let Inbound::Snapshot(packet) = inbound {
        state.merge(&packet);
    }
    assert_eq!(state.prompt, before);
}

#[test]
fn an_unknown_evt_value_is_carried_as_other() {
    let inbound: Inbound = parse_inbound(br#"{"evt":"heartbeat"}"#).expect("event");
    assert_eq!(inbound, Inbound::Event(BuddyEvent::Other("heartbeat".to_string())));
}

#[test]
fn a_non_string_evt_is_carried_as_its_json_text() {
    let inbound: Inbound = parse_inbound(br#"{"evt":{"b":[1,true],"a":null}}"#).expect("event");
    assert_eq!(inbound, Inbound::Event(BuddyEvent::Other(r#"{"a":null,"b":[1,true]}"#.to_string())));
}

#[test]
fn a_one_element_time_array_is_an_arity_error() {
    let error: InboundError = parse_inbound(br#"{"time":[1775731234]}"#).expect_err("arity");
    assert!(matches!(error, InboundError::TimeArity));
}

#[test]
fn a_three_element_time_array_is_an_arity_error() {
    let error: InboundError = parse_inbound(br#"{"time":[1,2,3]}"#).expect_err("arity");
    assert!(matches!(error, InboundError::TimeArity));
}

#[test]
fn a_wrong_arity_time_does_not_fall_through_to_a_snapshot() {
    let result: Result<Inbound, InboundError> = parse_inbound(br#"{"time":[1],"prompt":null}"#);
    assert!(result.is_err());
}

#[test]
fn an_absent_completed_resets_to_false() {
    let mut state: SnapshotState = SnapshotState { completed: true, ..SnapshotState::default() };
    state.merge(&SnapshotPacket::default());
    assert!(!state.completed);
}

#[test]
fn a_present_completed_sets_true() {
    let mut state: SnapshotState = SnapshotState::default();
    state.merge(&SnapshotPacket { completed: Some(true), ..SnapshotPacket::default() });
    assert!(state.completed);
}

#[test]
fn an_absent_prompt_clears_a_pending_prompt() {
    let mut state: SnapshotState = SnapshotState { prompt: Some(a_prompt()), ..SnapshotState::default() };
    state.merge(&SnapshotPacket::default());
    assert_eq!(state.prompt, None);
}

#[test]
fn a_present_prompt_is_set() {
    let mut state: SnapshotState = SnapshotState::default();
    state.merge(&SnapshotPacket { prompt: Some(a_prompt()), ..SnapshotPacket::default() });
    assert_eq!(state.prompt, Some(a_prompt()));
}

#[test]
fn an_absent_total_keeps_the_prior_value() {
    let mut state: SnapshotState = SnapshotState { total: 7, ..SnapshotState::default() };
    state.merge(&SnapshotPacket::default());
    assert_eq!(state.total, 7);
}

#[test]
fn an_absent_msg_and_entries_keep_prior() {
    let mut state: SnapshotState = SnapshotState {
        msg: "hello".to_string(),
        entries: vec!["a".to_string(), "b".to_string()],
        ..SnapshotState::default()
    };
    state.merge(&SnapshotPacket::default());
    assert_eq!(state.msg, "hello");
    assert_eq!(state.entries, vec!["a".to_string(), "b".to_string()]);
}

#[test]
fn entries_are_stored_oldest_first_in_wire_order() {
    let mut state: SnapshotState = SnapshotState::default();
    state.merge(&SnapshotPacket {
        entries: Some(vec!["oldest".to_string(), "middle".to_string(), "newest".to_string()]),
        ..SnapshotPacket::default()
    });
    assert_eq!(state.entries.first().map(String::as_str), Some("oldest"));
    assert_eq!(state.entries.last().map(String::as_str), Some("newest"));
}

#[test]
fn a_present_tokens_is_forwarded_to_the_latch() {
    let mut state: SnapshotState = SnapshotState::default();
    let packet: SnapshotPacket = SnapshotPacket { tokens: Some(12345), ..SnapshotPacket::default() };
    assert_eq!(state.merge(&packet), Some(12345));
}

#[test]
fn an_absent_tokens_forwards_nothing() {
    let mut state: SnapshotState = SnapshotState::default();
    assert_eq!(state.merge(&SnapshotPacket::default()), None);
}

#[test]
fn tokens_forwarding_survives_a_full_wire_snapshot() {
    let mut state: SnapshotState = SnapshotState::default();
    let inbound: Inbound = parse_inbound(br#"{"tokens":900,"running":1}"#).expect("snapshot");
    let forwarded: Option<u32> = match inbound {
        Inbound::Snapshot(packet) => state.merge(&packet),
        _ => panic!("expected a snapshot"),
    };
    assert_eq!(forwarded, Some(900));
}

#[test]
fn garbage_bytes_are_an_error_not_a_panic() {
    assert!(parse_inbound(b"not json at all").is_err());
}

#[test]
fn a_non_object_json_value_is_a_snapshot_error() {
    assert!(parse_inbound(b"[1,2,3]").is_err());
}

#[test]
fn a_full_snapshot_reads_every_field() {
    let inbound: Inbound = parse_inbound(
        br#"{"total":3,"running":2,"waiting":1,"completed":false,"tokens":10,"tokens_today":4,"msg":"hi","entries":["a","b"],"prompt":{"id":"p","tool":"t","hint":"h"},"extra":true}"#,
    )
    .expect("snapshot");
    assert_eq!(
        inbound,
        Inbound::Snapshot(SnapshotPacket {
            total: Some(3),
            running: Some(2),
            waiting: Some(1),
            completed: Some(false),
            tokens: Some(10),
            tokens_today: Some(4),
            msg: Some("hi".to_string()),
            entries: Some(vec!["a".to_string(), "b".to_string()]),
            prompt: Some(Prompt { id: "p".to_string(), tool: "t".to_string(), hint: "h".to_string() }),
        })
    );
}

#[test]
fn a_count_out_of_range_is_a_shape_error() {
    assert!(matches!(parse_inbound(br#"{"total":256}"#), Err(InboundError::Json(_))));
    assert!(matches!(parse_inbound(br#"{"total":-1}"#), Err(InboundError::Json(_))));
}

#[test]
fn commands_carry_their_fields() {
    assert_eq!(
        parse_inbound(br#"{"cmd":"species","idx":2}"#).expect("command"),
        Inbound::Command(Command::Species(2))
    );
    assert_eq!(
        parse_inbound(br#"{"cmd":"species"}"#).expect("command"),
        Inbound::Command(Command::Species(255))
    );
    assert_eq!(
        parse_inbound(br#"{"cmd":"file","path":"a.pix"}"#).expect("command"),
        Inbound::Command(Command::File { path: "a.pix".to_string() })
    );
    assert_eq!(
        parse_inbound(br#"{"cmd":"frob"}"#).expect("command"),
        Inbound::Command(Command::Unknown("frob".to_string()))
    );
    assert_eq!(
        parse_inbound(br#"{"cmd":7}"#).expect("command"),
        Inbound::Command(Command::Unknown("7".to_string()))
    );
}

#[test]
fn inbound_errors_describe_themselves() {
    assert_eq!(InboundError::TimeArity.describe(), "time sync array was not exactly two elements");
    let err: InboundError = parse_inbound(b"not json").expect_err("syntax");
    assert!(err.describe().starts_with("inbound line was not a usable message: "));
}

// ---- command ----------------------------------------------------------------------------

#[test]
fn an_ack_serializes_with_ack_ok_and_n_in_order() {
    let ack: Ack = Ack { what: "name".to_string(), ok: true, n: 0 };
    assert_eq!(ack.to_json(), r#"{"ack":"name","ok":true,"n":0}"#);
}

#[test]
fn n_is_always_present_even_when_zero() {
    let ack: Ack = Ack { what: "status".to_string(), ok: true, n: 0 };
    assert!(ack.to_json().contains(r#""n":0"#));
}

#[test]
fn a_known_command_is_acked_ok_with_its_name() {
    let ack: Ack = dispatch(&Command::Status);
    assert_eq!(ack.what, "status");
    assert!(ack.ok);
}

#[test]
fn char_begin_acks_with_the_snake_case_wire_name() {
    let ack: Ack = dispatch(&Command::CharBegin);
    assert_eq!(ack.what, "char_begin");
    assert!(ack.ok);
}

#[test]
fn a_file_command_acks_file_regardless_of_path() {
    let ack: Ack = dispatch(&Command::File { path: "sprite.pix".to_string() });
    assert_eq!(ack.what, "file");
    assert!(ack.ok);
}

#[test]
fn an_unknown_command_is_nacked_not_swallowed() {
    let ack: Ack = dispatch(&Command::Unknown("frobnicate".to_string()));
    assert_eq!(ack.what, "frobnicate");
    assert!(!ack.ok);
}

#[test]
fn an_unknown_command_serializes_a_negative_ack() {
    let ack: Ack = dispatch(&Command::Unknown("frobnicate".to_string()));
    assert_eq!(ack.to_json(), r#"{"ack":"frobnicate","ok":false,"n":0}"#);
}

#[test]
fn an_ack_escapes_its_name_and_carries_its_count() {
    let ack: Ack = Ack { what: "a\"b\\c\n\u{1}".to_string(), ok: false, n: 4294967295 };
    assert_eq!(ack.to_json(), r#"{"ack":"a\"b\\c\n\u0001","ok":false,"n":4294967295}"#);
}

// ---- permission -------------------------------------------------------------------------

#[test]
fn the_wire_token_for_once_is_once() {
    assert_eq!(Decision::Once.as_wire(), "once");
}

#[test]
fn the_wire_token_for_deny_is_deny() {
    assert_eq!(Decision::Deny.as_wire(), "deny");
}

#[test]
fn an_approve_response_serializes_to_the_permission_line() {
    let response: PermissionResponse = PermissionResponse::new("req_abc123".to_string(), Decision::Once);
    assert_eq!(response.to_json(), r#"{"cmd":"permission","id":"req_abc123","decision":"once"}"#);
}

#[test]
fn a_deny_response_serializes_with_the_deny_decision() {
    let response: PermissionResponse = PermissionResponse::new("req_abc123".to_string(), Decision::Deny);
    assert_eq!(response.to_json(), r#"{"cmd":"permission","id":"req_abc123","decision":"deny"}"#);
}

#[test]
fn the_id_echoes_the_prompt_id_verbatim() {
    let response: PermissionResponse = PermissionResponse::new("req_XYZ_9".to_string(), Decision::Once);
    assert_eq!(response.id, "req_XYZ_9");
}

#[test]
fn a_once_response_round_trips_central_side() {
    let response: PermissionResponse = PermissionResponse::new("req_abc".to_string(), Decision::Once);
    assert_eq!(PermissionResponse::parse(response.to_json().as_bytes()).ok(), Some(response));
}

#[test]
fn a_deny_response_round_trips_central_side() {
    let response: PermissionResponse = PermissionResponse::new("req_abc".to_string(), Decision::Deny);
    assert_eq!(PermissionResponse::parse(response.to_json().as_bytes()).ok(), Some(response));
}

#[test]
fn an_awkward_id_round_trips_central_side() {
    let response: PermissionResponse =
        PermissionResponse::new("id \"quoted\" \\ \u{7} é 漢".to_string(), Decision::Deny);
    assert_eq!(PermissionResponse::parse(response.to_json().as_bytes()).ok(), Some(response));
}

#[test]
fn an_unknown_decision_token_is_a_bad_decision_not_a_silent_once() {
    let result: Result<PermissionResponse, PermissionParseError> =
        PermissionResponse::parse(br#"{"cmd":"permission","id":"req_abc","decision":"maybe"}"#);
    assert!(matches!(result, Err(PermissionParseError::BadDecision(ref t)) if t == "maybe"));
}

#[test]
fn an_absent_decision_is_a_bad_decision_not_a_silent_once() {
    let result: Result<PermissionResponse, PermissionParseError> =
        PermissionResponse::parse(br#"{"cmd":"permission","id":"req_abc"}"#);
    assert!(matches!(result, Err(PermissionParseError::BadDecision(ref t)) if t.is_empty()));
}

#[test]
fn an_absent_id_is_a_missing_id_error() {
    let result: Result<PermissionResponse, PermissionParseError> =
        PermissionResponse::parse(br#"{"cmd":"permission","decision":"once"}"#);
    assert!(matches!(result, Err(PermissionParseError::MissingId)));
}

#[test]
fn a_non_permission_cmd_is_a_not_permission_error() {
    let result: Result<PermissionResponse, PermissionParseError> =
        PermissionResponse::parse(br#"{"cmd":"status"}"#);
    assert!(matches!(result, Err(PermissionParseError::NotPermission)));
}

#[test]
fn garbage_bytes_are_a_typed_error_not_a_panic() {
    assert!(matches!(PermissionResponse::parse(b"not json"), Err(PermissionParseError::Json(_))));
}

#[test]
fn permission_errors_describe_themselves() {
    assert_eq!(PermissionParseError::NotPermission.describe(), "line was not a permission response");
    assert_eq!(PermissionParseError::MissingId.describe(), "permission response had no id");
    assert_eq!(
        PermissionParseError::BadDecision("maybe".to_string()).describe(),
        "permission decision was not once/deny: \"maybe\""
    );
}

// ---- outbound ---------------------------------------------------------------------------

#[test]
fn a_default_packet_serializes_to_an_empty_object() {
    assert_eq!(serialize_snapshot(&SnapshotPacket::default()), "{}");
}

#[test]
fn a_present_prompt_emits_a_prompt_key() {
    let packet: SnapshotPacket = SnapshotPacket { prompt: Some(a_prompt()), ..SnapshotPacket::default() };
    assert!(serialize_snapshot(&packet).contains("\"prompt\""));
}

#[test]
fn an_absent_prompt_omits_the_prompt_key() {
    let packet: SnapshotPacket = SnapshotPacket { running: Some(1), ..SnapshotPacket::default() };
    assert!(!serialize_snapshot(&packet).contains("prompt"));
}

#[test]
fn a_full_packet_serializes_in_declaration_order() {
    let packet: SnapshotPacket = SnapshotPacket {
        total: Some(3),
        running: Some(2),
        waiting: Some(1),
        completed: Some(true),
        tokens: Some(4294967295),
        tokens_today: Some(0),
        msg: Some("m\"sg".to_string()),
        entries: Some(vec!["a".to_string(), "b".to_string()]),
        prompt: Some(a_prompt()),
    };
    assert_eq!(
        serialize_snapshot(&packet),
        r#"{"total":3,"running":2,"waiting":1,"completed":true,"tokens":4294967295,"tokens_today":0,"msg":"m\"sg","entries":["a","b"],"prompt":{"id":"req_abc","tool":"bash","hint":"rm -rf"}}"#
    );
}

#[test]
fn a_snapshot_round_trips_through_the_device_parser() {
    let packet: SnapshotPacket = SnapshotPacket {
        total: Some(255),
        waiting: Some(0),
        completed: Some(false),
        tokens: Some(7),
        msg: Some("tab\there \u{1f600} \\ \"q\"".to_string()),
        entries: Some(vec![String::new(), "x\u{0}y".to_string()]),
        prompt: Some(Prompt { id: "i".to_string(), tool: "\n".to_string(), hint: "é".to_string() }),
        ..SnapshotPacket::default()
    };
    let line: String = serialize_snapshot(&packet);
    assert_eq!(parse_inbound(line.as_bytes()).ok(), Some(Inbound::Snapshot(packet)));
}

#[test]
fn a_time_sync_round_trips_as_a_two_element_array() {
    for (epoch, tz) in [(0i64, 0i32), (1775731234, -25200), (i64::MIN, i32::MIN), (i64::MAX, i32::MAX), (-1, 3600)] {
        let line: String = serialize_time(epoch, tz);
        assert_eq!(parse_inbound(line.as_bytes()).ok(), Some(Inbound::Time { epoch, tz_offset_s: tz }));
    }
    assert_eq!(serialize_time(1775731234, -25200), r#"{"time":[1775731234,-25200]}"#);
}

#[test]
fn an_empty_owner_name_round_trips_to_an_owner_command() {
    let line: String = serialize_owner("");
    assert_eq!(parse_inbound(line.as_bytes()).ok(), Some(Inbound::Command(Command::Owner("".to_string()))));
}

#[test]
fn an_owner_name_round_trips_to_an_owner_command() {
    let line: String = serialize_owner("Felix");
    assert_eq!(line, r#"{"cmd":"owner","name":"Felix"}"#);
    assert_eq!(parse_inbound(line.as_bytes()).ok(), Some(Inbound::Command(Command::Owner("Felix".to_string()))));
}

#[test]
fn a_multi_word_buddy_name_round_trips_to_a_name_command() {
    let line: String = serialize_name("Rex the Destroyer");
    assert_eq!(
        parse_inbound(line.as_bytes()).ok(),
        Some(Inbound::Command(Command::Name("Rex the Destroyer".to_string())))
    );
}

#[test]
fn a_command_is_classified_from_its_fields() {
    let root: Json = Json::Object(vec![
        ("cmd".to_string(), Json::Str("species".to_string())),
        ("idx".to_string(), Json::Number(JsonNumber::Pos(300))),
        ("name".to_string(), Json::Str("Pip".to_string())),
    ]);
    assert_eq!(parse_command(&root, &Json::Str("species".to_string())), Command::Species(44));
    assert_eq!(parse_command(&root, &Json::Str("name".to_string())), Command::Name("Pip".to_string()));
    assert_eq!(parse_command(&root, &Json::Str("file".to_string())), Command::File { path: String::new() });
    assert_eq!(parse_command(&root, &Json::Str("reboot".to_string())), Command::Unknown("reboot".to_string()));
    assert_eq!(parse_command(&root, &Json::Bool(true)), Command::Unknown("true".to_string()));
    let bare: Json = Json::Object(vec![]);
    assert_eq!(parse_command(&bare, &Json::Str("species".to_string())), Command::Species(0xFF));
}
