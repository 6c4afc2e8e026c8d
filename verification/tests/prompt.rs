//! One turn.

use acp_client::config_options::{ModeRequest, SessionChannels};
use acp_client::connection::{connection_failed, failure_message, StartupAction};
use acp_client::control::{StopReason, TurnOwnership};
use acp_client::event::{Event, RateLimitInfo};
use acp_client::json::Json;
use acp_client::lifecycle::{
    LifecycleEnvelope, LifecycleSignal, OffProtocolWorkKind, TerminalClaim,
};
use acp_client::notifications::Shared;
use acp_client::prompt::{
    may_hide_error, simulate_orphan, Arm, Flow, PromptReply, ReadyArms, StopFlags, Turn, TurnInput,
    TurnStep, WatchdogProbe,
};
use acp_client::session::{
    CancelCause, ClientCmd, ResetSessionOutcome, Session, SessionAction,
};
use acp_client::time::Timestamp;
use acp_client::wire::ContentBlock;

fn now() -> Timestamp {
    Timestamp { secs: 1_700_000_000, nanos: 0 }
}

fn shared() -> Shared {
    Shared::new(TurnOwnership { prompt_in_flight: false, terminal: TerminalClaim::new() }, 0)
}

fn session() -> Session {
    Session {
        acp_session_id: "sess-1".to_string(),
        session_from_storage: false,
        channels: SessionChannels {
            available_mode_ids: Some(vec!["plan".to_string()]),
            mode_config_option_id: None,
            model_config_option_id: Some("model".to_string()),
            thought_level_config_option_id: None,
        },
        steering_capable: true,
        grok_shell: false,
        default_effort: None,
        default_mode: None,
        default_model: None,
        pending_prompts: vec![],
    }
}

fn blocks(text: &str) -> Vec<ContentBlock> {
    vec![ContentBlock::Text { text: text.to_string(), annotations: None, meta: None }]
}

fn outcome(name: &str) -> Option<Json> {
    Some(Json::Object(vec![("outcome".to_string(), Json::Text(name.to_string()))]))
}

fn command(cmd: ClientCmd) -> TurnInput {
    TurnInput::Command { cmd: Some(cmd), off_protocol: None }
}

fn cancel_sent(cause: CancelCause, sent: bool) -> TurnInput {
    TurnInput::CancelSent { cause, sent, now: now() }
}

fn busy(text: &str) -> SessionAction {
    SessionAction::Publish(Event::PromptRejected {
        reason: "agent_busy".to_string(),
        text: text.to_string(),
    })
}

fn quiet(flow: Flow) -> TurnStep {
    TurnStep { actions: vec![], flow }
}

fn calm() -> WatchdogProbe {
    WatchdogProbe { fire: false, cost_seen: false, off_protocol: None, saw_progress: true }
}

struct Running {
    turn: Turn,
    session: Session,
    shared: Shared,
}

impl Running {
    fn start(session: Session) -> Running {
        let mut shared = shared();
        let (turn, _) = shared.start_prompt(blocks("hello"));
        Running { turn, session, shared }
    }

    fn go(&mut self, input: TurnInput) -> TurnStep {
        self.turn.on_input(&mut self.session, &mut self.shared, input)
    }
}

#[test]
fn cancel_reaches_the_agent_while_notifications_remain_queued() {
    let mut running = Running::start(session());
    // A busy agent always has a signal ready.
    let flooded = ReadyArms {
        prompt: false,
        command: true,
        cancel_grace: false,
        signal: true,
        orphan_check: true,
        steer: true,
    };
    assert_eq!(running.turn.next_arm(flooded, true, true), Some(Arm::Command));
    let step = running.go(command(ClientCmd::Cancel));
    assert_eq!(
        step.actions,
        vec![SessionAction::SendCancel { cause: CancelCause::User }]
    );
    running.go(cancel_sent(CancelCause::User, true));
    // So does the time in which the turn has to end.
    let late = ReadyArms { command: false, cancel_grace: true, ..flooded };
    assert_eq!(running.turn.next_arm(late, true, true), Some(Arm::CancelGrace));
}

#[test]
fn follow_up_during_compaction_is_rejected_instead_of_steered() {
    let mut running = Running::start(session());
    let step = running.go(TurnInput::Command {
        cmd: Some(ClientCmd::Prompt(blocks("also check the tests"))),
        off_protocol: Some(OffProtocolWorkKind::Compaction),
    });
    assert_eq!(step.actions, vec![busy("also check the tests")]);
    assert_eq!(step.flow, Flow::Continue);
    assert_eq!(running.turn.steering, None);
}

#[test]
fn a_prompt_takes_the_connection_over() {
    let mut shared = shared();
    shared.suppress_history_replay = true;
    shared.adopted_turn_active = true;
    shared.between_prompt.active = true;
    shared.between_prompt.off_protocol = true;
    shared.between_prompt.follow_agent("a1".to_string());
    let (turn, actions) = shared.start_prompt(blocks("hi"));
    assert_eq!(turn.epoch, 1);
    assert_eq!(
        actions,
        vec![
            SessionAction::SupersedeAdoptedTurn,
            SessionAction::DropQueuedSignals,
            SessionAction::SendPrompt { blocks: blocks("hi") },
        ]
    );
    assert!(!shared.suppress_history_replay);
    assert!(!shared.adopted_turn_active);
    assert!(shared.prompt_sent_since_attach);
    assert!(shared.turn.prompt_in_flight);
    assert!(!shared.between_prompt.active);
    assert!(!shared.between_prompt.off_protocol);
    assert!(shared.between_prompt.is_busy(), "a followed sub-agent stays followed");
}

#[test]
fn what_is_ready_is_taken_in_order() {
    let mut running = Running::start(session());
    let all = ReadyArms {
        prompt: true,
        command: true,
        cancel_grace: true,
        signal: true,
        orphan_check: true,
        steer: true,
    };
    assert_eq!(running.turn.next_arm(all, true, true), Some(Arm::Prompt));
    assert_eq!(running.turn.next_arm(all, false, true), Some(Arm::Command));
    let late = ReadyArms { command: false, ..all };
    // Nothing is being cancelled, so there is no deadline.
    assert_eq!(running.turn.next_arm(late, false, true), Some(Arm::Signal));
    let quiet = ReadyArms { signal: false, ..late };
    assert_eq!(running.turn.next_arm(quiet, false, true), Some(Arm::OrphanCheck));
    assert_eq!(running.turn.next_arm(quiet, false, false), None);
    running.go(command(ClientCmd::Prompt(blocks("more"))));
    assert_eq!(running.turn.next_arm(quiet, false, false), Some(Arm::Steer));
}

#[test]
fn an_answer_ends_the_turn() {
    let mut running = Running::start(session());
    let step = running.go(TurnInput::PromptReply(PromptReply::Ended(StopReason::Cancelled)));
    assert_eq!(step, quiet(Flow::Break));
    assert!(running.turn.flags.prompt_cancelled);
    let mut running = Running::start(session());
    running.go(TurnInput::PromptReply(PromptReply::Ended(StopReason::EndTurn)));
    assert!(!running.turn.flags.prompt_cancelled);
}

#[test]
fn a_limit_parks_the_session() {
    let mut stored = session();
    stored.session_from_storage = true;
    let mut running = Running::start(stored);
    let info = || RateLimitInfo { resets_at: Some(now()), detail: Json::Null };
    let step = running.go(TurnInput::PromptReply(PromptReply::Failed {
        text: "limited".to_string(),
        rate_limit: Some(info()),
        unsupported_session: true,
    }));
    assert_eq!(
        step,
        TurnStep {
            actions: vec![SessionAction::Publish(Event::RateLimit { info: info() })],
            flow: Flow::Break,
        }
    );
    assert!(running.turn.flags.rate_limited && running.turn.flags.shutdown);
    assert!(!running.shared.context_reset_emitted);
}

#[test]
fn attached_session_only_resets_for_missing_session_errors() {
    for (message, should_reset) in
        [("Unsupported ACP session", true), ("Unsupported session mode", false)]
    {
        let mut stored = session();
        stored.session_from_storage = true;
        let mut running = Running::start(stored);
        let step = running.go(TurnInput::PromptReply(PromptReply::Failed {
            text: message.to_string(),
            rate_limit: None,
            unsupported_session: should_reset,
        }));
        assert_eq!(step.flow, Flow::Fail);
        let published: Vec<StartupAction> = connection_failed(
            false,
            running.shared.context_reset_emitted,
            failure_message(message),
            None,
        );
        if should_reset {
            assert_eq!(
                step.actions,
                vec![SessionAction::Publish(Event::SessionContextReset {
                    reason: format!("resumed session no longer available: {message}"),
                })]
            );
            assert_eq!(
                published,
                vec![StartupAction::Publish(Event::Stopped {
                    reason: "stored_session_rejected".to_string(),
                })]
            );
        } else {
            assert!(step.actions.is_empty());
            assert_eq!(
                published,
                vec![StartupAction::Publish(Event::AgentStartupError {
                    message: format!("ACP connection failed: {message}"),
                })]
            );
        }
    }
    // A session that the agent has made itself is not given up.
    let mut running = Running::start(session());
    let step = running.go(TurnInput::PromptReply(PromptReply::Failed {
        text: "Unsupported ACP session".to_string(),
        rate_limit: None,
        unsupported_session: true,
    }));
    assert_eq!(step, quiet(Flow::Fail));
    assert!(!running.shared.context_reset_emitted);
}

#[test]
fn only_the_first_cancel_is_announced() {
    let mut running = Running::start(session());
    let step = running.go(cancel_sent(CancelCause::User, true));
    assert_eq!(
        step.actions,
        vec![
            SessionAction::ArmCancelGrace { millis: 10_000 },
            SessionAction::Publish(Event::CancelRequested {
                escalates_at: Timestamp { secs: 1_700_000_010, nanos: 0 },
            }),
        ]
    );
    assert_eq!(running.go(cancel_sent(CancelCause::User, true)), quiet(Flow::Continue));
    assert_eq!(running.go(TurnInput::CancelGrace), quiet(Flow::Break));
    assert!(running.turn.flags.agent_unresponsive && running.turn.flags.shutdown);
}

#[test]
fn a_cancel_that_cannot_be_sent_ends_the_turn() {
    let mut running = Running::start(session());
    assert_eq!(running.go(cancel_sent(CancelCause::User, false)), quiet(Flow::Break));
    assert!(!running.turn.flags.cancelling);
    assert!(running.turn.flags.shutdown);
    let mut shared = running.shared;
    let (shutdown, actions) =
        running.turn.finish_turn(&mut shared, "codex", &calm(), None, "shutdown");
    assert!(shutdown);
    assert_eq!(
        actions,
        vec![SessionAction::Publish(Event::Stopped { reason: "shutdown".to_string() })]
    );
}

#[test]
fn a_forced_stop_ends_the_turn_whatever_the_agent_does() {
    let mut running = Running::start(session());
    let step = running.go(command(ClientCmd::ForceStop));
    assert_eq!(
        step.actions,
        vec![SessionAction::SendCancel { cause: CancelCause::ForceStop }]
    );
    assert_eq!(step.flow, Flow::Break);
    assert_eq!(running.go(cancel_sent(CancelCause::ForceStop, false)), quiet(Flow::Break));
    assert!(running.turn.flags.force_stopped && running.turn.flags.shutdown);
}

#[test]
fn a_follow_up_while_cancelling_is_rejected_and_ends_the_turn() {
    let mut running = Running::start(session());
    running.go(cancel_sent(CancelCause::User, true));
    let step = running.go(command(ClientCmd::Prompt(blocks("again"))));
    assert_eq!(step, TurnStep { actions: vec![busy("again")], flow: Flow::Break });
    assert!(running.turn.flags.agent_unresponsive && running.turn.flags.shutdown);
}

#[test]
fn an_agent_that_cannot_be_steered_rejects_follow_ups() {
    let mut plain = session();
    plain.steering_capable = false;
    let mut running = Running::start(plain);
    let step = running.go(command(ClientCmd::Prompt(blocks("again"))));
    assert_eq!(step, TurnStep { actions: vec![busy("again")], flow: Flow::Continue });
}

#[test]
fn messages_wait_for_each_other_and_keep_their_order() {
    let mut running = Running::start(session());
    let step = running.go(command(ClientCmd::Prompt(blocks("one"))));
    match &step.actions[0] {
        SessionAction::Steer { method, params } => {
            assert_eq!(method, "_session/steering");
            assert_eq!(params.get("sessionId").unwrap().as_str(), Some("sess-1"));
        }
        other => panic!("expected a steer, got {other:?}"),
    }
    assert_eq!(running.go(command(ClientCmd::Prompt(blocks("two")))), quiet(Flow::Continue));
    assert_eq!(
        running.go(command(ClientCmd::Prompt(blocks("three")))),
        quiet(Flow::Continue)
    );

    // The first is taken, which counts as progress, and the second follows.
    let step = running.go(TurnInput::SteerReply(outcome("injected")));
    assert_eq!(step.actions[0], SessionAction::ApplySignal(LifecycleSignal::Progress));
    assert!(matches!(&step.actions[1], SessionAction::Steer { .. }));
    assert_eq!(running.turn.steering, Some(blocks("two")));

    // The turn was over: the rest become prompts, in order.
    let step = running.go(TurnInput::SteerReply(outcome("promptRequired")));
    assert_eq!(step, quiet(Flow::Continue));
    assert_eq!(running.turn.steering, None);
    assert_eq!(running.session.pending_prompts, vec![blocks("two"), blocks("three")]);
    assert_eq!(running.session.take_pending(), Some(blocks("two")));
    assert_eq!(running.session.take_pending(), Some(blocks("three")));
    assert_eq!(running.session.take_pending(), None);
}

#[test]
fn a_message_that_was_consumed_is_not_sent_again() {
    for name in ["startedNewTurn", "teleported"] {
        let mut running = Running::start(session());
        running.go(command(ClientCmd::Prompt(blocks("one"))));
        assert_eq!(
            running.go(TurnInput::SteerReply(outcome(name))),
            quiet(Flow::Continue)
        );
        assert!(running.session.pending_prompts.is_empty());
    }
}

#[test]
fn a_message_that_could_not_be_handed_over_is_rejected() {
    let mut running = Running::start(session());
    running.go(command(ClientCmd::Prompt(blocks("one"))));
    running.go(command(ClientCmd::Prompt(blocks("two"))));
    let step = running.go(TurnInput::SteerReply(None));
    assert_eq!(step.actions[0], busy("one"));
    assert!(matches!(&step.actions[1], SessionAction::Steer { .. }));
    assert_eq!(running.turn.steering, Some(blocks("two")));
}

#[test]
fn an_agent_behind_a_shell_is_steered_under_its_own_method() {
    let mut grok = session();
    grok.grok_shell = true;
    let mut running = Running::start(grok);
    let step = running.go(command(ClientCmd::Prompt(blocks("one"))));
    assert!(matches!(
        &step.actions[0],
        SessionAction::Steer { method, .. } if method == "__session/steering"
    ));
}

#[test]
fn other_requests_pass_during_a_turn() {
    let mut running = Running::start(session());
    let step = running.go(command(ClientCmd::SetConfigOption {
        config_id: "model".to_string(),
        value: "opus".to_string(),
    }));
    assert_eq!(
        step.actions,
        vec![SessionAction::SetConfigOption {
            config_id: "model".to_string(),
            value: "opus".to_string(),
        }]
    );
    assert_eq!(running.session.default_model, Some("opus".to_string()));
    running.go(command(ClientCmd::SetConfigOption {
        config_id: "effort".to_string(),
        value: "high".to_string(),
    }));
    assert_eq!(running.session.default_model, Some("opus".to_string()));

    let step = running.go(command(ClientCmd::SetMode("plan".to_string())));
    assert_eq!(
        step.actions,
        vec![SessionAction::SetMode(ModeRequest::SessionMode { mode_id: "plan".to_string() })]
    );
    let step = running.go(command(ClientCmd::DeleteSession { acp_session_id: "x".to_string() }));
    assert_eq!(
        step.actions,
        vec![SessionAction::DeleteSession { acp_session_id: "x".to_string() }]
    );
    let step = running.go(command(ClientCmd::ResumeBackgroundTailing));
    assert_eq!(step.actions, vec![SessionAction::ResumeBackgroundTailing]);
    let step = running.go(command(ClientCmd::ResetSession { text: "/clear".to_string() }));
    assert_eq!(
        step.actions,
        vec![
            busy("/clear"),
            SessionAction::AnswerReset(ResetSessionOutcome::Failed {
                message: "a turn is in flight; stop it before clearing the conversation"
                    .to_string(),
            }),
        ]
    );
}

#[test]
fn a_session_without_an_owner_shuts_down() {
    for cmd in [Some(ClientCmd::Shutdown), None] {
        let mut running = Running::start(session());
        let step = running.go(TurnInput::Command { cmd, off_protocol: None });
        assert_eq!(step, quiet(Flow::Break));
        assert!(running.turn.flags.shutdown);
    }
}

#[test]
fn signals_of_another_prompt_are_ignored() {
    let mut running = Running::start(session());
    let envelope = |epoch: u64| {
        TurnInput::Signal(Some(LifecycleEnvelope { epoch, signal: LifecycleSignal::Progress }))
    };
    assert_eq!(
        running.go(envelope(1)).actions,
        vec![SessionAction::ApplySignal(LifecycleSignal::Progress)]
    );
    assert_eq!(running.go(envelope(0)), quiet(Flow::Continue));
    assert_eq!(running.go(TurnInput::Signal(None)), quiet(Flow::Continue));
}

#[test]
fn a_silent_turn_is_cancelled_unless_it_is_over() {
    let mut running = Running::start(session());
    assert_eq!(
        running.go(TurnInput::OrphanCheck(calm())).actions,
        vec![SessionAction::RearmOrphanCheck]
    );
    let over = WatchdogProbe { fire: true, cost_seen: true, ..calm() };
    let step = running.go(TurnInput::OrphanCheck(over));
    assert_eq!(
        step,
        TurnStep { actions: vec![SessionAction::ReleaseLocalPrompt], flow: Flow::Break }
    );
    assert!(!running.turn.flags.prompt_orphaned);

    let mut running = Running::start(session());
    let stuck = WatchdogProbe {
        off_protocol: Some(OffProtocolWorkKind::BackgroundCommand),
        ..over
    };
    let step = running.go(TurnInput::OrphanCheck(stuck));
    assert_eq!(
        step.actions,
        vec![SessionAction::SendCancel { cause: CancelCause::Orphan }]
    );
    let step = running.go(cancel_sent(CancelCause::Orphan, true));
    assert_eq!(
        step.actions,
        vec![
            SessionAction::ArmCancelGrace { millis: 10_000 },
            SessionAction::RearmOrphanCheck,
        ]
    );
    // The user is not told of it, and is not told later either.
    assert_eq!(running.go(cancel_sent(CancelCause::User, true)), quiet(Flow::Continue));
    assert_eq!(
        running.turn.stop_flags(&WatchdogProbe { cost_seen: true, ..calm() }),
        StopFlags {
            rate_limited: false,
            force_stopped: false,
            prompt_orphaned: true,
            agent_unresponsive: false,
            shutdown: false,
            prompt_cancelled: false,
            finished_after_orphan_cancel: true,
        }
    );
}

#[test]
fn a_silent_turn_that_cannot_be_cancelled_ends() {
    let mut running = Running::start(session());
    running.go(TurnInput::OrphanCheck(WatchdogProbe { fire: true, ..calm() }));
    assert_eq!(running.go(cancel_sent(CancelCause::Orphan, false)), quiet(Flow::Break));
    assert!(running.turn.flags.prompt_orphaned && running.turn.flags.shutdown);
}

#[test]
fn a_turn_ends_with_its_reason() {
    let running = Running::start(session());
    let mut shared = running.shared;
    let (shutdown, actions) =
        running.turn.finish_turn(&mut shared, "codex", &calm(), None, "prompt_complete");
    assert!(!shutdown);
    assert_eq!(
        actions,
        vec![SessionAction::Publish(Event::Stopped { reason: "prompt_complete".to_string() })]
    );
    assert!(!shared.turn.prompt_in_flight);
    assert!(shared.turn.terminal.claimed());
}

#[test]
fn a_hidden_error_is_published_before_the_end() {
    let wordless = WatchdogProbe { cost_seen: true, saw_progress: false, ..calm() };
    let finish = |key: &str, probe: &WatchdogProbe| {
        let running = Running::start(session());
        let mut shared = running.shared;
        running
            .turn
            .finish_turn(&mut shared, key, probe, Some("no credits".to_string()), "prompt_complete")
            .1
    };
    let stopped = SessionAction::Publish(Event::Stopped { reason: "prompt_complete".to_string() });
    let error =
        SessionAction::Publish(Event::PromptRuntimeError { message: "no credits".to_string() });
    assert_eq!(finish("opencode", &wordless), vec![error, stopped]);
    assert!(may_hide_error("opencode", &wordless));
    assert!(!may_hide_error("codex", &wordless));
    assert_eq!(finish("codex", &wordless).len(), 1);
    assert_eq!(finish("opencode", &WatchdogProbe { saw_progress: true, ..wordless }).len(), 1);
}

#[test]
fn only_debug_builds_simulate_silence() {
    assert!(simulate_orphan(true, Some("1")));
    assert!(!simulate_orphan(false, Some("1")));
    assert!(!simulate_orphan(true, Some("0")));
    assert!(!simulate_orphan(true, None));
}
