//! The control channel of a runner.

use acp_client::control::{
    attach_timeout, control_outcome_reason, dial_failure, initialize_reply, on_encode_failed,
    prompt_outcome_to_response, resume_session, retries_dial, validate_hello, ControlBody,
    ControlProtocol, ControlState, DialError, EncodeFallback, ForwardIds, HelloRead,
    PromptCompletion, PromptOutcome, PumpStep, ReaderAction, ReplayCount, StopReason,
    TurnOwnership,
};
use acp_client::errors::{RpcError, SessionError};
use acp_client::event::{Event, RateLimitInfo};
use acp_client::json::{Json, JsonNumber};
use acp_client::lifecycle::TerminalClaim;

const INTERNAL_ERROR: i64 = -32603;
const DAEMON_GONE: i64 = -32001;

fn protocol() -> ControlProtocol {
    ControlProtocol {
        version: 3,
        internal_error: INTERNAL_ERROR,
        daemon_gone: DAEMON_GONE,
        frame_bytes_field: "__aoe_control_frame_bytes".to_string(),
    }
}

fn object(entries: Vec<(&str, Json)>) -> Json {
    Json::Object(entries.into_iter().map(|(k, v)| (k.to_string(), v)).collect())
}

fn text(value: &str) -> Json {
    Json::Text(value.to_string())
}

fn number(n: u64) -> Json {
    Json::Number(JsonNumber::PosInt(n))
}

fn completed(reason: &str) -> PromptOutcome {
    PromptOutcome::Completed { stop_reason: Some(reason.to_string()) }
}

struct Peer {
    state: ControlState,
    turn: TurnOwnership,
    ids: ForwardIds,
}

impl Peer {
    fn new() -> Peer {
        Peer {
            state: ControlState::new(),
            turn: TurnOwnership { prompt_in_flight: true, terminal: TerminalClaim::new() },
            ids: ForwardIds { next: 1 },
        }
    }

    fn frame(&mut self, frame: ControlBody) -> Vec<ReaderAction> {
        self.state.on_frame(&mut self.turn, frame, 17, &protocol(), None)
    }

    fn completed(&mut self, prompt_req_id: i64, reason: &str) -> Vec<ReaderAction> {
        self.frame(ControlBody::PromptCompleted { prompt_req_id, outcome: completed(reason) })
    }

    fn started(&mut self, prompt_req_id: i64) {
        assert!(self.frame(ControlBody::PromptStarted { prompt_req_id }).is_empty());
    }

    fn line(&mut self, value: &Json, error_well_formed: bool) -> PumpStep {
        self.state.on_line(&mut self.ids, value, error_well_formed, &protocol())
    }

    fn assert_local_terminal_ownership(&self) {
        assert!(self.turn.prompt_in_flight);
        assert!(!self.turn.terminal.claimed());
    }
}

#[test]
fn historical_completion_old_first_preserves_local_waiter() {
    let mut peer = Peer::new();
    assert_eq!(peer.state.begin_prompt(&protocol()), None);

    // History can be read before the runner assigns the new id.
    assert!(peer.completed(7, "cancelled").is_empty());
    peer.assert_local_terminal_ownership();

    peer.started(9);
    assert!(peer.completed(7, "cancelled").is_empty());
    peer.assert_local_terminal_ownership();

    assert_eq!(
        peer.completed(9, "end_turn"),
        vec![ReaderAction::Complete(completed("end_turn"))]
    );
    peer.assert_local_terminal_ownership();
}

#[test]
fn historical_completion_new_first_preserves_local_terminal_ownership() {
    let mut peer = Peer::new();
    peer.state.begin_prompt(&protocol());
    peer.started(9);
    assert_eq!(
        peer.completed(9, "end_turn"),
        vec![ReaderAction::Complete(completed("end_turn"))]
    );
    assert!(peer.completed(7, "cancelled").is_empty());
    peer.assert_local_terminal_ownership();
}

#[test]
fn duplicate_local_prompt_preserves_first_waiter_and_sends_no_prompt() {
    let mut peer = Peer::new();
    assert_eq!(peer.state.begin_prompt(&protocol()), None);
    match peer.state.begin_prompt(&protocol()) {
        Some(PromptOutcome::Error { code, message, .. }) => {
            assert_eq!(i64::from(code), INTERNAL_ERROR);
            assert_eq!(message, "a local prompt is already awaiting completion");
        }
        other => panic!("a second prompt is refused, got {other:?}"),
    }
    peer.started(9);
    assert_eq!(
        peer.completed(9, "cancelled"),
        vec![ReaderAction::Complete(completed("cancelled"))]
    );
    peer.assert_local_terminal_ownership();
}

#[test]
fn local_activation_rejects_history_before_waiter_registration() {
    let mut peer = Peer::new();
    peer.state.supersede_adopted_turn();
    assert!(peer.completed(7, "cancelled").is_empty());
    peer.assert_local_terminal_ownership();
}

#[test]
fn oversized_reverse_reply_becomes_error_without_poisoning_connection() {
    let mut peer = Peer::new();
    for call_id in [41u64, 42] {
        let actions = peer.frame(ControlBody::ServerCall {
            call_id,
            method: "fs/read_text_file".to_string(),
            params: object(vec![]),
        });
        let line = match &actions[0] {
            ReaderAction::WriteLine(line) => line,
            other => panic!("expected a line, got {other:?}"),
        };
        let reply = object(vec![
            ("jsonrpc", text("2.0")),
            ("id", line.get("id").unwrap().copy()),
            ("result", object(vec![("ok", Json::Bool(true))])),
        ]);
        let frame = match peer.line(&reply, true) {
            PumpStep::Send { frame, forward: None } => frame,
            other => panic!("expected an answer, got {other:?}"),
        };
        assert_eq!(
            frame,
            ControlBody::ServerResult {
                call_id,
                result: object(vec![("ok", Json::Bool(true))]),
            }
        );
        if call_id == 41 {
            // The first answer turns out to be too large.
            match on_encode_failed(&frame, None, "too large", &protocol()) {
                EncodeFallback::Send(ControlBody::ServerError { call_id: 41, error }) => {
                    assert_eq!(
                        error.get("code").unwrap(),
                        &Json::Number(JsonNumber::NegInt(INTERNAL_ERROR))
                    );
                    assert_eq!(
                        error.get("message").unwrap().as_str(),
                        Some("daemon response exceeds control transport capacity: too large")
                    );
                }
                other => panic!("expected an error, got {other:?}"),
            }
        }
    }
}

#[test]
fn the_end_of_the_channel_ends_the_wait_of_its_prompt() {
    let mut peer = Peer::new();
    peer.state.begin_prompt(&protocol());
    peer.state.on_channel_ended();
    assert_eq!(peer.state.completion, PromptCompletion::LocalIdle);
}

#[test]
fn prompt_error_preserves_code_message_and_data() {
    for code in [-32601, -32000, 42] {
        let data = || object(vec![("detail", text("kept"))]);
        let error = prompt_outcome_to_response(PromptOutcome::Error {
            code,
            message: "boom".to_string(),
            data: Some(data()),
        })
        .unwrap_err();
        assert_eq!(
            error,
            SessionError::Rpc(RpcError { code, message: "boom".to_string(), data: Some(data()) }),
            "{code}"
        );
    }
}

#[test]
fn runner_control_native_completion_fires_stopped() {
    let mut peer = Peer::new();
    assert_eq!(
        peer.completed(5, "end_turn"),
        vec![ReaderAction::Publish(Event::Stopped { reason: "prompt_complete".to_string() })]
    );
    assert!(peer.turn.terminal.claimed(), "the turn's terminal must be claimed");
    assert!(
        !peer.turn.prompt_in_flight,
        "a waiterless completion must hand idle ownership back so the lane can arm"
    );
}

#[test]
fn adopted_rate_limit_emits_metadata_before_stopped() {
    let mut peer = Peer::new();
    let info = || RateLimitInfo { resets_at: None, detail: text("rate_limit") };
    let actions = peer.state.on_frame(
        &mut peer.turn,
        ControlBody::PromptCompleted {
            prompt_req_id: 7,
            outcome: PromptOutcome::Error {
                code: -32000,
                message: "rate limit exceeded".to_string(),
                data: Some(object(vec![("errorKind", text("rate_limit"))])),
            },
        },
        17,
        &protocol(),
        Some(info()),
    );
    assert_eq!(
        actions,
        vec![
            ReaderAction::Publish(Event::RateLimit { info: info() }),
            ReaderAction::Publish(Event::Stopped { reason: "rate_limited".to_string() }),
        ]
    );
}

#[test]
fn a_runner_of_another_version_is_refused() {
    let hello = HelloRead::Hello { control_protocol_version: 999, session_id: "s".to_string() };
    let error = validate_hello(&hello, "s", 3).unwrap_err();
    assert!(error.contains("runner Hello mismatch"), "unexpected mismatch error: {error}");
    assert_eq!(
        error,
        "runner Hello mismatch: expected session \"s\" protocol v3, got session \"s\" protocol v999"
    );
}

#[test]
fn an_absent_socket_is_dialled_again_until_the_time_is_over() {
    assert!(retries_dial(DialError::NotFound));
    assert!(retries_dial(DialError::ConnectionRefused));
    assert_eq!(
        attach_timeout("/tmp/s.sock"),
        "timed out attaching runner control socket /tmp/s.sock"
    );
}

#[test]
fn nonretryable_dial_error_preserves_os_cause() {
    assert!(!retries_dial(DialError::Other));
    let message = dial_failure("/tmp/x", "path must be shorter than SUN_LEN");
    assert!(message.contains("connect runner control socket"), "{message}");
    assert!(!message.contains("timed out attaching"), "{message}");
    assert!(message.ends_with(": path must be shorter than SUN_LEN"), "{message}");
}

#[test]
fn session_replayed_waits_for_replay_sent_after_the_reply() {
    let mut count = ReplayCount::new();
    assert!(count.session_replayed());
    let reply = ControlBody::SessionReady {
        acp_session_id: "s".to_string(),
        result: object(vec![]),
    };
    let (id, _) = count.establish_session(Some(reply)).unwrap();
    assert_eq!(id, "s");
    assert!(!count.session_replayed(), "a load must not count as replayed mid-replay");
    count.mark_session_replayed();
    assert!(count.session_replayed());
}

#[test]
fn a_runner_for_another_session_is_refused() {
    let hello = |version: u32, session: &str| HelloRead::Hello {
        control_protocol_version: version,
        session_id: session.to_string(),
    };
    assert_eq!(validate_hello(&hello(3, "mine"), "mine", 3), Ok(()));
    assert_eq!(
        validate_hello(&hello(3, "o\"ther"), "mine", 3).unwrap_err(),
        "runner Hello mismatch: expected session \"mine\" protocol v3, got session \"o\\\"ther\" protocol v3"
    );
    assert_eq!(
        validate_hello(&HelloRead::Unexpected("Cancel".to_string()), "mine", 3).unwrap_err(),
        "runner sent Cancel before Hello"
    );
    assert_eq!(
        validate_hello(&HelloRead::Closed, "mine", 3).unwrap_err(),
        "runner closed before Hello"
    );
    assert_eq!(
        validate_hello(&HelloRead::Failed("eof".to_string()), "mine", 3).unwrap_err(),
        "read runner Hello: eof"
    );
}

#[test]
fn handshake_steps_fail_with_what_the_runner_forwards() {
    let error = || object(vec![("code", number(1))]);
    let failed = || Some(ControlBody::HandshakeFailed { error: error() });
    assert_eq!(initialize_reply(failed()), Err(SessionError::Forwarded(error())));
    assert_eq!(
        initialize_reply(None),
        Err(SessionError::Internal("control channel closed during initialize".to_string()))
    );
    let done = ControlBody::Initialized { result: number(5) };
    assert_eq!(initialize_reply(Some(done)), Ok(number(5)));
    assert_eq!(resume_session(failed()), Err(SessionError::Forwarded(error())));
    assert_eq!(
        resume_session(None),
        Err(SessionError::Internal("control channel closed during resume".to_string()))
    );
    let mut count = ReplayCount::new();
    assert_eq!(
        count.establish_session(None),
        Err(SessionError::Internal(
            "control channel closed during session establishment".to_string()
        ))
    );
}

#[test]
fn outcomes_become_answers_and_reasons() {
    for (name, reason, shown) in [
        ("end_turn", Some(StopReason::EndTurn), "prompt_complete"),
        ("max_tokens", Some(StopReason::MaxTokens), "max_tokens"),
        ("max_turn_requests", Some(StopReason::MaxTurnRequests), "max_turn_requests"),
        ("refusal", Some(StopReason::Refusal), "refusal"),
        ("cancelled", Some(StopReason::Cancelled), "cancelled"),
        ("rate_limit", None, "rate_limited"),
    ] {
        assert_eq!(prompt_outcome_to_response(completed(name)).ok(), reason, "{name}");
        assert_eq!(control_outcome_reason(&completed(name)), shown, "{name}");
    }
    assert_eq!(
        prompt_outcome_to_response(PromptOutcome::Completed { stop_reason: None }),
        Ok(StopReason::EndTurn)
    );
    assert_eq!(prompt_outcome_to_response(PromptOutcome::Aborted), Ok(StopReason::EndTurn));
    match prompt_outcome_to_response(completed("rate_limit")) {
        Err(SessionError::Internal(message)) => {
            assert!(message.contains("unknown variant `rate_limit`"), "{message}")
        }
        other => panic!("an unknown reason is an error, got {other:?}"),
    }
}

#[test]
fn calls_of_the_client_find_their_answers() {
    let mut peer = Peer::new();
    let line = object(vec![
        ("jsonrpc", text("2.0")),
        ("id", text("abc")),
        ("method", text("session/set_mode")),
        ("params", number(1)),
    ]);
    let forward = match peer.line(&line, true) {
        PumpStep::Send { frame, forward } => {
            assert_eq!(
                frame,
                ControlBody::AgentCall {
                    call_id: 1,
                    method: "session/set_mode".to_string(),
                    params: number(1),
                }
            );
            forward
        }
        other => panic!("expected a call, got {other:?}"),
    };
    peer.state.on_sending(&forward);
    let answer = peer.frame(ControlBody::AgentResult { call_id: 1, result: number(2) });
    assert_eq!(
        answer,
        vec![ReaderAction::WriteLine(object(vec![
            ("jsonrpc", text("2.0")),
            ("id", text("abc")),
            ("result", number(2)),
        ]))]
    );
    // An answer is handed back once.
    assert!(peer.frame(ControlBody::AgentResult { call_id: 1, result: number(2) }).is_empty());
}

#[test]
fn a_call_over_a_closed_channel_is_answered() {
    let mut peer = Peer::new();
    let line = object(vec![("id", number(4)), ("method", text("m"))]);
    let forward = match peer.line(&line, true) {
        PumpStep::Send { forward, .. } => forward,
        other => panic!("expected a call, got {other:?}"),
    };
    peer.state.on_sending(&forward);
    let reply = peer.state.on_write_failed(forward, &protocol()).unwrap();
    assert_eq!(reply.get("id").unwrap(), &number(4));
    assert_eq!(
        reply.get2("error", "message").unwrap().as_str(),
        Some("runner control transport closed")
    );
    assert!(peer.frame(ControlBody::AgentResult { call_id: 1, result: number(2) }).is_empty());
}

#[test]
fn a_malformed_error_is_replaced() {
    let mut peer = Peer::new();
    peer.frame(ControlBody::ServerCall {
        call_id: 8,
        method: "m".to_string(),
        params: Json::Null,
    });
    let reply = object(vec![
        ("id", Json::Number(JsonNumber::NegInt(-1))),
        ("error", text("boom")),
    ]);
    match peer.line(&reply, false) {
        PumpStep::Send { frame: ControlBody::ServerError { call_id: 8, error }, .. } => {
            assert_eq!(
                error.get("message").unwrap().as_str(),
                Some("handler produced a malformed error")
            );
        }
        other => panic!("expected an error, got {other:?}"),
    }
}

#[test]
fn updates_say_how_many_bytes_they_took() {
    let mut peer = Peer::new();
    let mut params_of = |params: Json, method: &str| match peer
        .frame(ControlBody::Notify { method: method.to_string(), params })
        .remove(0)
    {
        ReaderAction::WriteLine(line) => line.get("params").unwrap().copy(),
        other => panic!("expected a line, got {other:?}"),
    };
    assert_eq!(
        params_of(
            object(vec![("__aoe_control_frame_bytes", text("forged")), ("a", number(1))]),
            "session/update"
        ),
        object(vec![("__aoe_control_frame_bytes", number(17)), ("a", number(1))])
    );
    assert_eq!(
        params_of(Json::Array(vec![number(1)]), "session/update"),
        Json::Array(vec![number(1), number(17)])
    );
    assert_eq!(params_of(number(7), "session/update"), number(7));
    assert_eq!(params_of(object(vec![]), "other"), object(vec![]));
}

#[test]
fn a_released_prompt_lets_the_next_one_through() {
    let mut peer = Peer::new();
    peer.state.begin_prompt(&protocol());
    peer.state.release_local_prompt();
    assert_eq!(peer.state.begin_prompt(&protocol()), None);
    peer.state.prompt_send_failed();
    assert_eq!(peer.state.begin_prompt(&protocol()), None);
}

#[test]
fn a_request_that_is_too_large_is_answered_at_once() {
    let frame = ControlBody::Cancel;
    match on_encode_failed(&frame, Some((1, number(4))), "too large", &protocol()) {
        EncodeFallback::Reply(line) => {
            assert_eq!(line.get("id").unwrap(), &number(4));
            assert_eq!(
                line.get2("error", "message").unwrap().as_str(),
                Some("request exceeds control transport capacity: too large")
            );
        }
        other => panic!("expected a reply, got {other:?}"),
    }
}

#[test]
fn an_established_session_resolves_its_identity_first() {
    let mut peer = Peer::new();
    let ready = || ControlBody::SessionReady {
        acp_session_id: "actual".to_string(),
        result: object(vec![]),
    };
    assert_eq!(
        peer.frame(ready()),
        vec![
            ReaderAction::ResolveIdentity("actual".to_string()),
            ReaderAction::Handshake(ready()),
        ]
    );
}
