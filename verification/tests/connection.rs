//! A connection from its handshake to its end.

use acp_client::command_loop::{NewSession, OptionReply, OptionRequest};
use acp_client::connection::{
    connection_failed, failure_message, reattach_idle_event, resume_idle_grace, AgentFacts,
    ConnectMode, Establish, EstablishNext, EstablishRequest, Incompatibility, LoadReply,
    ResumeWatch, SessionReply, StartupAction,
};
use acp_client::control::{
    ControlBody, ControlProtocol, ControlState, PromptOutcome, ReaderAction, TurnOwnership,
};
use acp_client::errors::AcpError;
use acp_client::event::{Event, ModeInfo, RateLimitInfo};
use acp_client::json::Json;
use acp_client::lifecycle::TerminalClaim;
use acp_client::notifications::Shared;
use acp_client::session::SessionAction;
use acp_client::wire::{
    ConfigCategory, ConfigKind, ConfigOption, SelectOptions, SessionModes,
};

fn shared() -> Shared {
    Shared::new(TurnOwnership { prompt_in_flight: false, terminal: TerminalClaim::new() }, 1000)
}

fn facts() -> AgentFacts {
    AgentFacts {
        load_session: true,
        fork: true,
        image: true,
        audio: false,
        embedded_context: true,
        steering: false,
    }
}

fn fresh(stored: Option<&str>, seed: bool, fork_from: Option<&str>) -> ConnectMode {
    ConnectMode::Fresh {
        stored_acp_session_id: stored.map(str::to_string),
        seed_history_replay: seed,
        fork_from: fork_from.map(str::to_string),
    }
}

fn resume(in_flight_turn: bool) -> ConnectMode {
    ConnectMode::Resume { acp_session_id: "stored".to_string(), in_flight_turn }
}

fn option(id: &str, category: ConfigCategory) -> ConfigOption {
    ConfigOption {
        id: id.to_string(),
        name: id.to_string(),
        description: None,
        category: Some(category),
        kind: ConfigKind::Select {
            current_value: "x".to_string(),
            options: SelectOptions::Ungrouped(vec![]),
        },
    }
}

fn options() -> Option<Vec<ConfigOption>> {
    Some(vec![
        option("effort", ConfigCategory::ThoughtLevel),
        option("mode", ConfigCategory::Mode),
    ])
}

fn modes() -> Option<SessionModes> {
    Some(SessionModes {
        current_mode_id: "plan".to_string(),
        available_modes: vec![ModeInfo {
            id: "plan".to_string(),
            name: "Plan".to_string(),
            description: None,
        }],
    })
}

fn created(id: &str) -> SessionReply {
    SessionReply::Created(NewSession {
        session_id: id.to_string(),
        modes: modes(),
        config_options: options(),
    })
}

fn start(mode: &ConnectMode, facts: &AgentFacts) -> (Establish, SessionActions, Shared) {
    let mut shared = shared();
    let (state, step) = Establish::start(
        mode,
        facts,
        Some("high".to_string()),
        Some("plan".to_string()),
        &mut shared,
    );
    (state, SessionActions { actions: step.actions, next: step.next }, shared)
}

struct SessionActions {
    actions: Vec<SessionAction>,
    next: EstablishNext,
}

fn asks(request: EstablishRequest) -> EstablishNext {
    EstablishNext::Request(request)
}

fn set(config_id: &str, value: &str) -> OptionRequest {
    OptionRequest { config_id: config_id.to_string(), value: value.to_string() }
}

fn reset(reason: &str) -> SessionAction {
    SessionAction::Publish(Event::SessionContextReset { reason: reason.to_string() })
}

fn assigned(id: &str) -> SessionAction {
    SessionAction::Publish(Event::AcpSessionAssigned { acp_session_id: id.to_string() })
}

fn settled(id: &str) -> SessionAction {
    SessionAction::FinishTransition { acp_session_id: id.to_string() }
}

#[test]
fn the_grace_of_an_adopted_turn_can_be_changed_in_debug_builds() {
    assert_eq!(resume_idle_grace(true, None), 10_000);
    assert_eq!(resume_idle_grace(true, Some("2500")), 2_500);
    assert_eq!(resume_idle_grace(true, Some("+2500")), 2_500);
    assert_eq!(resume_idle_grace(true, Some("5")), 100);
    assert_eq!(resume_idle_grace(true, Some("soon")), 10_000);
    assert_eq!(resume_idle_grace(false, Some("2500")), 10_000);
}

#[test]
fn a_silent_adopted_turn_is_ended_after_the_grace() {
    let mut shared = shared();
    assert_eq!(shared.resume_idle_tick(500, 1_400), ResumeWatch::Keep);
    assert!(!shared.turn.terminal.claimed());
    assert_eq!(shared.resume_idle_tick(500, 1_500), ResumeWatch::Stop);
    assert_eq!(reattach_idle_event(), Event::Stopped { reason: "reattach_idle".to_string() });
    assert!(shared.turn.terminal.claimed());
    assert_eq!(shared.resume_idle_tick(500, 1_500), ResumeWatch::Disarm);
}

#[test]
fn one_path_publishes_the_end_of_an_adopted_turn() {
    let protocol = ControlProtocol {
        version: 3,
        internal_error: -32603,
        daemon_gone: -32001,
        frame_bytes_field: "bytes".to_string(),
    };
    let watched = |shared: &mut Shared, _: &mut ControlState| {
        shared.resume_idle_tick(500, 1_500) == ResumeWatch::Stop
    };
    let silent = |shared: &mut Shared, _: &mut ControlState| {
        shared.adopted_turn_active && shared.between_prompt_idle_tick(true).is_some()
    };
    let reported = |shared: &mut Shared, channel: &mut ControlState| {
        let frame = ControlBody::PromptCompleted {
            prompt_req_id: 7,
            outcome: PromptOutcome::Completed { stop_reason: None },
        };
        let actions = channel.on_frame(&mut shared.turn, frame, 0, &protocol, None);
        actions.iter().any(|action| matches!(action, ReaderAction::Publish(Event::Stopped { .. })))
    };
    let paths: [&dyn Fn(&mut Shared, &mut ControlState) -> bool; 3] =
        [&watched, &silent, &reported];
    for first in 0..3 {
        for stood_down in [false, true] {
            let mut shared = shared();
            shared.turn.prompt_in_flight = true;
            shared.adopted_turn_active = true;
            let mut channel = ControlState::new();
            if stood_down {
                shared.stand_down_idle_completion();
            }
            assert_eq!(paths[first](&mut shared, &mut channel), !stood_down, "{first}");
            for again in paths {
                assert!(!again(&mut shared, &mut channel), "{first}");
            }
        }
    }
}

#[test]
fn the_watch_over_an_adopted_turn_ends_with_any_news() {
    let mut told = shared();
    told.first_event_after_attach = true;
    assert_eq!(told.resume_idle_tick(500, 9_000), ResumeWatch::Disarm);
    let mut prompted = shared();
    prompted.prompt_sent_since_attach = true;
    assert_eq!(prompted.resume_idle_tick(500, 9_000), ResumeWatch::Disarm);
    assert!(!prompted.turn.terminal.claimed());
}

#[test]
fn the_handshake_announces_what_the_agent_can_do() {
    let mut shared = shared();
    let actions = shared.on_initialized(None, &facts(), &resume(true));
    assert_eq!(
        actions,
        vec![
            StartupAction::Publish(Event::PromptCapabilities {
                image: true,
                audio: false,
                embedded_context: true,
                load_session: Some(true),
                steering: false,
            }),
            StartupAction::Ready { error: None },
        ]
    );
    assert!(shared.adopted_turn_active);
    shared.on_initialized(None, &facts(), &resume(false));
    assert!(!shared.adopted_turn_active);
}

#[test]
fn an_agent_that_does_not_fit_is_reported_to_the_waiter() {
    let mut shared = shared();
    let reason = Incompatibility { detail: Json::Null, message: "too old".to_string() };
    let actions = shared.on_initialized(Some(reason), &facts(), &resume(true));
    assert_eq!(
        actions,
        vec![StartupAction::Ready {
            error: Some(AcpError::IncompatibleAgent {
                detail: Json::Null,
                message: "too old".to_string(),
            }),
        }]
    );
    assert!(!shared.adopted_turn_active);
}

#[test]
fn a_resumed_session_is_committed_without_asking_the_agent() {
    assert_eq!(resume(true).initial_id(), Some("stored".to_string()));
    assert!(resume(true).adopts_turn());
    let (mut state, step, _) = start(&resume(true), &facts());
    assert!(step.actions.is_empty());
    assert_eq!(step.next, asks(EstablishRequest::Resume { stored: "stored".to_string() }));
    let step = state.on_resume_reply(Some("actual".to_string()));
    assert_eq!(
        step.actions,
        vec![settled("actual"), assigned("actual"), SessionAction::ApplyReplay]
    );
    assert_eq!(step.next, EstablishNext::Established);
    let session = state.into_session(true, false, None).unwrap();
    assert_eq!(session.acp_session_id, "actual");
    assert!(session.session_from_storage);
    assert!(session.steering_capable);
}

#[test]
fn a_resume_that_fails_fails_the_connection() {
    let (mut state, _, _) = start(&resume(false), &facts());
    let step = state.on_resume_reply(None);
    assert_eq!(step.next, EstablishNext::Failed);
    assert!(state.into_session(false, false, None).is_none());
}

#[test]
fn a_fork_is_made_and_gets_its_effort() {
    let mode = fresh(Some("stored"), false, Some("parent"));
    assert_eq!(mode.initial_id(), None);
    assert!(!mode.adopts_turn());
    let (mut state, step, shared) = start(&mode, &facts());
    assert_eq!(step.actions, vec![SessionAction::BeginTransition]);
    assert_eq!(step.next, asks(EstablishRequest::Fork { parent: "parent".to_string() }));
    assert!(!shared.suppress_history_replay);
    let step = state.on_fork_reply(created("child"));
    assert_eq!(step.actions[1], assigned("child"));
    assert_eq!(step.actions.len(), 5, "modes and options are announced too");
    assert_eq!(step.next, asks(EstablishRequest::SetEffort(set("effort", "high"))));
    let step = state.on_effort_reply(OptionReply::Accepted(options().unwrap()));
    assert_eq!(step.actions.len(), 1);
    assert_eq!(step.next, EstablishNext::Established);
}

#[test]
fn a_fork_that_fails_fails_the_connection() {
    let (mut state, _, _) = start(&fresh(None, false, Some("parent")), &facts());
    let step = state.on_fork_reply(SessionReply::Failed { text: "nope".to_string() });
    assert_eq!(step.actions, vec![reset("fork_failed: nope")]);
    assert_eq!(step.next, EstablishNext::Failed);
}

#[test]
fn a_fork_that_the_agent_cannot_make_is_reported_once() {
    let cannot = AgentFacts { fork: false, load_session: false, ..facts() };
    let (mut state, step, _) = start(&fresh(Some("stored"), false, Some("parent")), &cannot);
    assert_eq!(
        step.actions,
        vec![reset("fork_unsupported_by_agent"), SessionAction::BeginTransition]
    );
    assert_eq!(step.next, asks(EstablishRequest::New));
    let step = state.on_new_reply(created("new"));
    assert_eq!(step.actions[0], settled("new"), "the loss was reported already");
}

#[test]
fn a_stored_session_is_loaded_with_its_replay_held_back() {
    let (mut state, step, mut shared) = start(&fresh(Some("stored"), false, None), &facts());
    assert_eq!(step.actions, vec![settled("stored")]);
    assert_eq!(step.next, asks(EstablishRequest::Load { stored: "stored".to_string() }));
    assert!(shared.suppress_history_replay);
    let step = state.on_load_reply(
        &mut shared,
        LoadReply::Loaded { modes: modes(), config_options: options() },
    );
    assert_eq!(step.actions[0], assigned("stored"));
    assert_eq!(step.actions.len(), 2, "a load announces options, and no modes");
    assert!(shared.suppress_history_replay);
    assert_eq!(step.next, asks(EstablishRequest::SetEffort(set("effort", "high"))));
    let session = state.into_session(false, true, Some("opus".to_string())).unwrap();
    assert!(session.session_from_storage);
    assert_eq!(session.channels.available_mode_ids, Some(vec!["plan".to_string()]));
    assert_eq!(session.default_model.as_deref(), Some("opus"));
}

#[test]
fn a_load_that_fails_is_replaced_by_a_new_session() {
    let (mut state, _, mut shared) = start(&fresh(Some("stored"), false, None), &facts());
    let step =
        state.on_load_reply(&mut shared, LoadReply::Failed { text: "gone".to_string() });
    assert_eq!(
        step.actions,
        vec![SessionAction::AbandonTransition, SessionAction::BeginTransition]
    );
    assert_eq!(step.next, asks(EstablishRequest::New));
    assert!(!shared.suppress_history_replay);
    let step = state.on_new_reply(created("new"));
    assert_eq!(step.actions[0], reset("session/load failed: gone"));
    assert_eq!(step.actions[2], assigned("new"));
    assert_eq!(step.next, asks(EstablishRequest::SetMode(set("mode", "plan"))));
    let step = state.on_mode_reply(OptionReply::Refused { text: "no".to_string() });
    assert!(step.actions.is_empty());
    assert_eq!(step.next, asks(EstablishRequest::SetEffort(set("effort", "high"))));
    assert!(!state.into_session(false, false, None).unwrap().session_from_storage);
}

#[test]
fn an_import_is_loaded_or_fails() {
    let (mut state, _, mut shared) = start(&fresh(Some("stored"), true, None), &facts());
    assert!(!shared.suppress_history_replay, "the replay is wanted");
    let step =
        state.on_load_reply(&mut shared, LoadReply::Failed { text: "gone".to_string() });
    assert!(step.actions.is_empty());
    assert_eq!(step.next, EstablishNext::Failed);
}

#[test]
fn an_agent_that_cannot_load_starts_with_empty_context() {
    let cannot = AgentFacts { load_session: false, ..facts() };
    let (mut state, step, shared) = start(&fresh(Some("stored"), false, None), &cannot);
    assert_eq!(step.next, asks(EstablishRequest::New));
    assert!(!shared.suppress_history_replay);
    let step = state.on_new_reply(created("new"));
    assert_eq!(
        step.actions[0],
        reset("session/load unavailable; started a new session with empty context")
    );
}

#[test]
fn a_new_session_without_options_is_established_at_once() {
    let (mut state, step, _) = start(&fresh(None, false, None), &facts());
    assert_eq!(step.next, asks(EstablishRequest::New));
    let step = state.on_new_reply(SessionReply::Created(NewSession {
        session_id: "new".to_string(),
        modes: None,
        config_options: None,
    }));
    assert_eq!(
        step.actions,
        vec![settled("new"), assigned("new"), SessionAction::ApplyReplay]
    );
    assert_eq!(step.next, EstablishNext::Established);
    let step = state.on_new_reply(SessionReply::Failed { text: "no".to_string() });
    assert_eq!(step.next, EstablishNext::Failed);
}

#[test]
fn a_failure_is_told_to_whoever_has_to_know() {
    let message = failure_message("boom");
    assert_eq!(message, "ACP connection failed: boom");
    let info = || RateLimitInfo { resets_at: None, detail: Json::Null };
    assert_eq!(
        connection_failed(true, true, message.clone(), None),
        vec![StartupAction::Ready { error: Some(AcpError::Spawn(message.clone())) }]
    );
    assert_eq!(
        connection_failed(true, false, message.clone(), Some(info())),
        vec![StartupAction::Ready { error: Some(AcpError::RateLimited(info())) }]
    );
    assert_eq!(
        connection_failed(false, true, message.clone(), Some(info())),
        vec![
            StartupAction::Publish(Event::RateLimit { info: info() }),
            StartupAction::Publish(Event::Stopped { reason: "rate_limited".to_string() }),
        ]
    );
    assert_eq!(
        connection_failed(false, true, message.clone(), None),
        vec![StartupAction::Publish(Event::Stopped {
            reason: "stored_session_rejected".to_string(),
        })]
    );
    assert_eq!(
        connection_failed(false, false, message.clone(), None),
        vec![StartupAction::Publish(Event::AgentStartupError { message })]
    );
}
