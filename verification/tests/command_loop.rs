//! A session between its turns.

use acp_client::command_loop::{
    announce, IdleNext, IdleProbe, IdleStop, NewSession, OptionReply, OptionRequest,
    ReapplyStage, ResetReply,
};
use acp_client::config_options::{ModeRequest, SessionChannels};
use acp_client::control::TurnOwnership;
use acp_client::event::{Event, ModeInfo};
use acp_client::lifecycle::TerminalClaim;
use acp_client::notifications::Shared;
use acp_client::session::{
    CancelCause, ClientCmd, ResetSessionOutcome, Session, SessionAction,
};
use acp_client::wire::{
    ConfigCategory, ConfigKind, ConfigOption, ContentBlock, SelectOptions, SessionModes,
};

fn shared() -> Shared {
    Shared::new(TurnOwnership { prompt_in_flight: false, terminal: TerminalClaim::new() }, 7)
}

fn session() -> Session {
    Session {
        acp_session_id: "old".to_string(),
        session_from_storage: true,
        channels: SessionChannels {
            available_mode_ids: None,
            mode_config_option_id: None,
            model_config_option_id: None,
            thought_level_config_option_id: None,
        },
        steering_capable: false,
        grok_shell: false,
        default_effort: Some("high".to_string()),
        default_mode: Some("plan".to_string()),
        default_model: Some("opus".to_string()),
        pending_prompts: vec![],
    }
}

fn blocks(text: &str) -> Vec<ContentBlock> {
    vec![ContentBlock::Text { text: text.to_string(), annotations: None, meta: None }]
}

fn option(id: &str, category: ConfigCategory) -> ConfigOption {
    ConfigOption {
        id: id.to_string(),
        name: id.to_string(),
        description: None,
        category: Some(category),
        kind: ConfigKind::Select {
            current_value: "x".to_string(),
            options: SelectOptions::Ungrouped(vec![]),
        },
    }
}

fn options() -> Vec<ConfigOption> {
    vec![
        option("model", ConfigCategory::Model),
        option("effort", ConfigCategory::ThoughtLevel),
        option("mode", ConfigCategory::Mode),
    ]
}

fn modes() -> SessionModes {
    SessionModes {
        current_mode_id: "plan".to_string(),
        available_modes: vec![ModeInfo {
            id: "plan".to_string(),
            name: "Plan".to_string(),
            description: None,
        }],
    }
}

fn request(config_id: &str, value: &str) -> OptionRequest {
    OptionRequest { config_id: config_id.to_string(), value: value.to_string() }
}

fn stopped(reason: &str) -> SessionAction {
    SessionAction::Publish(Event::Stopped { reason: reason.to_string() })
}

fn failed(message: &str) -> SessionAction {
    SessionAction::AnswerReset(ResetSessionOutcome::Failed { message: message.to_string() })
}

#[test]
fn a_cancel_between_turns_still_ends_what_the_user_sees() {
    let mut shared = shared();
    shared.adopted_turn_active = true;
    shared.between_prompt.active = true;
    let step = session().on_idle_command(&mut shared, Some(ClientCmd::Cancel));
    assert_eq!(
        step.actions,
        vec![SessionAction::SendCancel { cause: CancelCause::User }, stopped("cancelled")]
    );
    assert_eq!(step.next, IdleNext::Wait);
    assert!(shared.turn.terminal.claimed());
    assert!(!shared.adopted_turn_active);
    assert!(!shared.between_prompt.active);
}

#[test]
fn a_forced_stop_between_turns_publishes_nothing() {
    let mut shared = shared();
    let step = session().on_idle_command(&mut shared, Some(ClientCmd::ForceStop));
    assert_eq!(
        step.actions,
        vec![SessionAction::SendCancel { cause: CancelCause::ForceStop }]
    );
    assert!(shared.turn.terminal.claimed());
}

#[test]
fn requests_between_turns_lead_on() {
    let mut session = session();
    let mut shared = shared();
    let step = session.on_idle_command(&mut shared, Some(ClientCmd::Prompt(blocks("hi"))));
    assert_eq!(step.next, IdleNext::RunPrompt(blocks("hi")));
    let reset = ClientCmd::ResetSession { text: "/clear".to_string() };
    let step = session.on_idle_command(&mut shared, Some(reset));
    assert_eq!(step.next, IdleNext::Reset("/clear".to_string()));
    assert_eq!(
        session.on_idle_command(&mut shared, Some(ClientCmd::Shutdown)).next,
        IdleNext::Exit
    );
    assert_eq!(session.on_idle_command(&mut shared, None).next, IdleNext::Exit);
    let step = session.on_idle_command(&mut shared, Some(ClientCmd::SetMode("a".to_string())));
    assert_eq!(
        step.actions,
        vec![SessionAction::SetMode(ModeRequest::SessionMode { mode_id: "a".to_string() })]
    );
    let delete = ClientCmd::DeleteSession { acp_session_id: "x".to_string() };
    let step = session.on_idle_command(&mut shared, Some(delete));
    assert_eq!(
        step.actions,
        vec![SessionAction::DeleteSession { acp_session_id: "x".to_string() }]
    );
    let step = session.on_idle_command(&mut shared, Some(ClientCmd::ResumeBackgroundTailing));
    assert_eq!(step.actions, vec![SessionAction::ResumeBackgroundTailing]);
    let set = ClientCmd::SetConfigOption {
        config_id: "c".to_string(),
        value: "v".to_string(),
    };
    let step = session.on_idle_command(&mut shared, Some(set));
    assert!(matches!(&step.actions[0], SessionAction::SetConfigOption { .. }));
}

#[test]
fn a_silent_turn_of_the_agent_is_over() {
    let mut shared = shared();
    shared.between_prompt.active = true;
    shared.between_prompt.cost_seen = true;
    shared.between_prompt.wake_at = 99;
    shared.between_prompt.follow_agent("a1".to_string());
    assert_eq!(
        shared.idle_probe(),
        IdleProbe {
            active: true,
            last_lifecycle_at: 7,
            wake_at: Some(99),
            cost_seen: true,
            busy: true,
            off_protocol: false,
        }
    );
    assert_eq!(shared.between_prompt_idle_tick(false), None);
    assert!(shared.between_prompt.active);
    assert_eq!(
        shared.between_prompt_idle_tick(true),
        Some(IdleStop { adopted: false, cost_seen: true })
    );
    assert!(!shared.between_prompt.active);
    assert!(!shared.between_prompt.is_busy());
    assert_eq!(shared.idle_probe().wake_at, None);
    assert!(!shared.turn.terminal.claimed(), "only an adopted turn's end is raced for");
}

#[test]
fn the_end_of_an_adopted_turn_is_published_once() {
    let mut shared = shared();
    shared.adopted_turn_active = true;
    assert_eq!(
        shared.between_prompt_idle_tick(true),
        Some(IdleStop { adopted: true, cost_seen: false })
    );
    assert!(shared.turn.terminal.claimed());
    shared.adopted_turn_active = true;
    assert_eq!(shared.between_prompt_idle_tick(true), None);
    assert!(!shared.adopted_turn_active);
}

#[test]
fn a_reset_is_refused_while_something_stands_against_it() {
    let mut shared = shared();
    assert_eq!(
        shared.reset_session("/clear".to_string(), false),
        vec![failed("reset deadline expired while agent callbacks were in flight")]
    );
    shared.between_prompt.follow_agent("a1".to_string());
    assert_eq!(
        shared.reset_session("/clear".to_string(), true),
        vec![
            SessionAction::Publish(Event::PromptRejected {
                reason: "agent_busy".to_string(),
                text: "/clear".to_string(),
            }),
            failed(
                "agent work is still in flight; wait for it to finish before clearing the conversation"
            ),
        ]
    );
    shared.between_prompt.agent_ended("a1");
    assert_eq!(
        shared.reset_session("/clear".to_string(), true),
        vec![SessionAction::BeginTransition, SessionAction::RequestNewSession]
    );
}

#[test]
fn a_reset_moves_the_session_to_its_new_id() {
    let mut session = session();
    let created = NewSession {
        session_id: "new".to_string(),
        modes: Some(modes()),
        config_options: Some(options()),
    };
    let (done, actions) = session.on_reset_reply(ResetReply::Created(created));
    assert!(done);
    assert_eq!(session.acp_session_id, "new");
    assert!(!session.session_from_storage);
    assert_eq!(session.channels.mode_config_option_id.as_deref(), Some("mode"));
    assert_eq!(
        actions[..5],
        [
            SessionAction::FinishTransition { acp_session_id: "new".to_string() },
            SessionAction::Publish(Event::SessionCleared),
            SessionAction::Publish(Event::SessionContextReset {
                reason: "conversation cleared; the agent started a fresh session".to_string(),
            }),
            SessionAction::Publish(Event::AcpSessionAssigned {
                acp_session_id: "new".to_string(),
            }),
            SessionAction::ApplyReplay,
        ]
    );
    assert_eq!(actions[5..], announce(&Some(modes()), &Some(options()))[..]);
    assert_eq!(actions.len(), 7);
    assert_eq!(
        session.finish_reset(),
        vec![
            stopped("session_reset"),
            SessionAction::AnswerReset(ResetSessionOutcome::Reset {
                new_acp_session_id: "new".to_string(),
            }),
        ]
    );
}

#[test]
fn a_reset_that_fails_keeps_the_old_session() {
    let same = NewSession { session_id: "old".to_string(), modes: None, config_options: None };
    for (reply, message) in [
        (
            ResetReply::Created(same),
            "the worker replayed the existing session instead of creating a fresh one; restart the structured view worker to clear context",
        ),
        (ResetReply::Refused { text: "no".to_string() }, "session/new failed: no"),
        (
            ResetReply::TimedOut,
            "agent did not answer session/new before the reset deadline",
        ),
    ] {
        let mut session = session();
        let (done, actions) = session.on_reset_reply(reply);
        assert!(!done);
        assert_eq!(session, self::session());
        assert_eq!(
            actions,
            vec![
                SessionAction::FinishTransition { acp_session_id: "old".to_string() },
                SessionAction::ApplyReplay,
                SessionAction::Publish(Event::PromptRuntimeError {
                    message: message.to_string(),
                }),
                stopped("session_reset_failed"),
                failed(message),
            ]
        );
    }
}

#[test]
fn settings_are_set_again_in_order() {
    let (mut state, next) = session().reapply_defaults(&Some(options()), false);
    assert_eq!(next, Some((ReapplyStage::Model, request("model", "opus"))));
    // The model brings another option for the effort.
    let step = state.on_option_reply(
        ReapplyStage::Model,
        OptionReply::Accepted(vec![option("effort2", ConfigCategory::ThoughtLevel)]),
    );
    assert_eq!(step.next, Some((ReapplyStage::Effort, request("effort2", "high"))));
    assert!(matches!(
        &step.actions[..],
        [SessionAction::Publish(Event::ConfigOptionsUpdated { options })] if options.len() == 1
    ));
    let step = state.on_option_reply(
        ReapplyStage::Effort,
        OptionReply::Refused { text: "no".to_string() },
    );
    assert!(step.actions.is_empty());
    assert_eq!(step.next, Some((ReapplyStage::Mode, request("mode", "plan"))));
    let step = state.on_option_reply(ReapplyStage::Mode, OptionReply::Accepted(options()));
    assert_eq!(step.next, None);
    assert_eq!(step.actions.len(), 1);
}

#[test]
fn a_model_that_is_refused_is_reported() {
    let (mut state, _) = session().reapply_defaults(&Some(options()), false);
    let step = state.on_option_reply(
        ReapplyStage::Model,
        OptionReply::Refused { text: "gone".to_string() },
    );
    assert_eq!(
        step.actions,
        vec![SessionAction::Publish(Event::ConfigOptionSwitchFailed {
            config_id: "model".to_string(),
            value: "opus".to_string(),
            reason: "gone".to_string(),
        })]
    );
    assert_eq!(step.next, Some((ReapplyStage::Effort, request("effort", "high"))));
}

#[test]
fn settings_stop_at_the_deadline_and_skip_what_is_missing() {
    let (mut state, _) = session().reapply_defaults(&Some(options()), false);
    let step = state.on_option_reply(ReapplyStage::Model, OptionReply::TimedOut);
    assert!(step.actions.is_empty());
    assert_eq!(step.next, None);

    let (_, next) = session().reapply_defaults(&Some(options()), true);
    assert_eq!(next, Some((ReapplyStage::Effort, request("effort", "high"))));
    let only_mode = vec![option("mode", ConfigCategory::Mode)];
    let (_, next) = session().reapply_defaults(&Some(only_mode), false);
    assert_eq!(next, Some((ReapplyStage::Mode, request("mode", "plan"))));
    let (_, next) = session().reapply_defaults(&None, false);
    assert_eq!(next, None);
}
