//! How updates change what a connection knows.

use acp_client::agent_profiles::claude_code;
use acp_client::control::TurnOwnership;
use acp_client::event::{Event, UsageCost};
use acp_client::json::{Json, JsonNumber};
use acp_client::lifecycle::{LifecycleSignal, TerminalClaim};
use acp_client::notifications::{
    BetweenPromptUpdate, NotificationAction, NotificationOutcome, RateLimitRejection, Shared,
    WatchedUpdate,
};
use acp_client::time::Timestamp;
use acp_client::update_events::SyntheticSeq;
use acp_client::wire::{
    ContentBlock, ContentChunk, SessionUpdate, ToolCallFrame, ToolCallStatus,
    ToolCallUpdateFrame, ToolContent, ToolContentBlock, UsageFrame,
};

fn now() -> Timestamp {
    Timestamp { secs: 1_700_000_000, nanos: 5_000_000 }
}

fn shared() -> Shared {
    Shared::new(TurnOwnership { prompt_in_flight: false, terminal: TerminalClaim::new() }, 0)
}

fn text_chunk(text: &str, id: Option<&str>) -> SessionUpdate {
    SessionUpdate::AgentMessageChunk(ContentChunk {
        content: ContentBlock::Text { text: text.to_string(), annotations: None, meta: None },
        message_id: id.map(str::to_string),
    })
}

fn usage(cost: bool, meta: Option<Json>) -> SessionUpdate {
    SessionUpdate::UsageUpdate(UsageFrame {
        used: 1,
        size: 2,
        cost: if cost {
            Some(UsageCost { amount_bits: 0.5f64.to_bits(), currency: "USD".to_string() })
        } else {
            None
        },
        meta,
    })
}

fn object(entries: Vec<(&str, Json)>) -> Json {
    Json::Object(entries.into_iter().map(|(k, v)| (k.to_string(), v)).collect())
}

fn text(value: &str) -> Json {
    Json::Text(value.to_string())
}

fn tool_call(id: &str) -> SessionUpdate {
    SessionUpdate::ToolCall(ToolCallFrame {
        id: id.to_string(),
        title: "Bash".to_string(),
        kind: "execute".to_string(),
        switches_mode: false,
        raw_input: None,
        args_preview: String::new(),
        diffs: vec![],
        memory_recall: None,
        meta: None,
        switch_plan: None,
    })
}

fn tool_done(id: &str, status: ToolCallStatus, said: &str) -> SessionUpdate {
    SessionUpdate::ToolCallUpdate(ToolCallUpdateFrame {
        id: id.to_string(),
        status: Some(status),
        title: None,
        raw_input: None,
        content: Some(ToolContent {
            blocks: vec![ToolContentBlock::Text(said.to_string())],
            text: said.to_string(),
            diffs: vec![],
            output: vec![],
        }),
        meta_diffs: None,
        payload: Json::Null,
    })
}

fn launch() -> SessionUpdate {
    SessionUpdate::ToolCallUpdate(ToolCallUpdateFrame {
        id: "t".to_string(),
        status: None,
        title: None,
        raw_input: None,
        content: None,
        meta_diffs: None,
        payload: object(vec![
            ("toolCallId", text("t")),
            (
                "_meta",
                object(vec![(
                    "claudeCode",
                    object(vec![
                        ("toolName", text("Agent")),
                        (
                            "toolResponse",
                            object(vec![
                                ("agentId", text("a1")),
                                ("outputFile", text("/tmp/a1.output")),
                                ("status", text("async_launched")),
                            ]),
                        ),
                    ]),
                )]),
            ),
        ]),
    })
}

/// Sees and applies an update; nothing where it is dropped.
fn take(
    shared: &mut Shared,
    update: SessionUpdate,
    between: Option<BetweenPromptUpdate>,
) -> Option<NotificationOutcome> {
    take_counted(shared, update, between, &mut SyntheticSeq { next: 0 })
}

/// The same, with the counter of the process.
fn take_counted(
    shared: &mut Shared,
    update: SessionUpdate,
    between: Option<BetweenPromptUpdate>,
    seq: &mut SyntheticSeq,
) -> Option<NotificationOutcome> {
    let profile = claude_code("default");
    let watched = shared.see_notification(&update, &profile, now())?;
    Some(shared.apply_notification(update, watched, between, None, true, &profile, now(), seq))
}

fn armed() -> Option<BetweenPromptUpdate> {
    Some(BetweenPromptUpdate { cost_seen: false, last_lifecycle_at: 42, wake_at: 0 })
}

#[test]
fn news_of_a_turn_counts_and_state_does_not() {
    let mut shared = shared();
    take(&mut shared, SessionUpdate::CurrentModeUpdate("plan".to_string()), None).unwrap();
    assert!(!shared.first_event_after_attach);
    assert_eq!(shared.last_event_at, 1_700_000_000_005);
    take(&mut shared, text_chunk("hi", None), None).unwrap();
    assert!(shared.first_event_after_attach);
}

#[test]
fn a_restatement_is_dropped_before_anything_sees_it() {
    let mut shared = shared();
    shared.turn.prompt_in_flight = true;
    shared.prompt_epoch = 3;
    let outcome = take(&mut shared, text_chunk("hello", Some("m1")), None).unwrap();
    assert_eq!(outcome.envelopes.len(), 1);
    assert_eq!(outcome.envelopes[0].epoch, 3);
    assert_eq!(take(&mut shared, text_chunk("hello", Some("m2")), None), None);
}

#[test]
fn a_replay_that_is_held_back_shows_nothing_and_says_nothing() {
    let mut shared = shared();
    shared.suppress_history_replay = true;
    let outcome = take(&mut shared, text_chunk("old words", Some("m1")), None).unwrap();
    assert_eq!(outcome, NotificationOutcome { envelopes: vec![], actions: vec![] });
    assert!(!shared.first_event_after_attach);
    // Sub-agents of the past are not followed.
    let outcome = take(&mut shared, launch(), None).unwrap();
    assert!(!outcome
        .actions
        .iter()
        .any(|a| matches!(a, NotificationAction::FollowAgent { .. })));
    // State still gets through.
    let outcome = take(&mut shared, usage(true, None), None).unwrap();
    assert!(matches!(
        &outcome.actions[0],
        NotificationAction::Publish(Event::UsageUpdated { .. })
    ));
}

#[test]
fn a_sub_agent_is_followed_when_it_is_launched() {
    let mut shared = shared();
    let outcome = take(&mut shared, launch(), None).unwrap();
    assert_eq!(
        outcome.actions[0],
        NotificationAction::FollowAgent {
            agent_id: "a1".to_string(),
            output_file: "/tmp/a1.output".to_string(),
        }
    );
    assert!(matches!(
        &outcome.actions[1],
        NotificationAction::Publish(Event::BackgroundAgentLaunched { .. })
    ));
    shared.between_prompt.follow_agent("a1".to_string());
    assert!(shared.between_prompt.is_busy());
    shared.between_prompt.agent_ended("a1");
    assert!(!shared.between_prompt.is_busy());
}

#[test]
fn a_turn_of_the_agent_gets_an_end_of_its_own() {
    let mut shared = shared();
    shared.turn.terminal.claim();
    take(&mut shared, text_chunk("I woke up", None), armed()).unwrap();
    assert!(shared.between_prompt.active);
    assert!(!shared.turn.terminal.claimed());
    assert_eq!(shared.between_prompt.last_lifecycle_at, 42);
    // The turn goes on: its end stays its own.
    shared.turn.terminal.claim();
    take(&mut shared, text_chunk(" and went on", None), armed()).unwrap();
    assert!(shared.turn.terminal.claimed());
}

#[test]
fn during_a_prompt_nothing_is_tracked_between_prompts() {
    let mut shared = shared();
    shared.turn.prompt_in_flight = true;
    take(&mut shared, tool_call("t1"), armed()).unwrap();
    assert!(!shared.between_prompt.active);
    assert!(!shared.between_prompt.is_busy());
}

#[test]
fn signals_need_a_prompt_that_was_sent_here() {
    let profile = claude_code("default");
    for (in_flight, epoch, local, count) in [
        (true, 1, true, 1),
        (false, 1, true, 0),
        (true, 0, true, 0),
        (true, 1, false, 0),
    ] {
        let mut shared = shared();
        shared.turn.prompt_in_flight = in_flight;
        shared.prompt_epoch = epoch;
        let update = text_chunk("x", None);
        let watched = shared.see_notification(&update, &profile, now()).unwrap();
        assert_eq!(
            watched,
            WatchedUpdate { lifecycle: Some(LifecycleSignal::Progress), wakeup: None }
        );
        let mut seq = SyntheticSeq { next: 0 };
        let outcome = shared
            .apply_notification(update, watched, None, None, local, &profile, now(), &mut seq);
        assert_eq!(outcome.envelopes.len(), count);
    }
}

#[test]
fn open_tools_and_work_left_behind_are_known() {
    let mut shared = shared();
    take(&mut shared, tool_call("t1"), None).unwrap();
    assert!(shared.between_prompt.is_busy());
    take(
        &mut shared,
        tool_done(
            "t1",
            ToolCallStatus::Completed,
            "Command running in background with ID: b1.",
        ),
        None,
    )
    .unwrap();
    assert!(!shared.between_prompt.is_busy());
    assert!(shared.between_prompt.off_protocol);
}

#[test]
fn failed_calls_and_followed_agents_leave_no_work_behind() {
    for (status, said) in [
        (ToolCallStatus::Failed, "Command running in background with ID: b1."),
        (ToolCallStatus::Completed, "Async agent launched successfully"),
        (ToolCallStatus::Completed, "done"),
    ] {
        let mut shared = shared();
        take(&mut shared, tool_call("t1"), None).unwrap();
        take(&mut shared, tool_done("t1", status, said), None).unwrap();
        assert!(!shared.between_prompt.off_protocol, "{said}");
        assert!(!shared.between_prompt.is_busy());
    }
}

#[test]
fn the_costs_of_an_adopted_turn_release_its_tools() {
    let mut plain = shared();
    take(&mut plain, tool_call("t1"), None).unwrap();
    take(&mut plain, usage(true, None), None).unwrap();
    assert!(plain.between_prompt.is_busy());

    let mut adopted = shared();
    adopted.adopted_turn_active = true;
    take(&mut adopted, tool_call("t1"), None).unwrap();
    adopted.between_prompt.off_protocol = true;
    take(&mut adopted, usage(true, None), None).unwrap();
    assert!(!adopted.between_prompt.is_busy());
    assert!(!adopted.between_prompt.off_protocol);
}

#[test]
fn limits_are_kept_by_their_name() {
    let profile = claude_code("default");
    let mut shared = shared();
    let mut limit = |window: &str, at: i64, told: bool| {
        let meta = if told {
            Some(object(vec![(
                "_claude/rateLimit",
                object(vec![("resetsAt", Json::Number(JsonNumber::PosInt(1)))]),
            )]))
        } else {
            None
        };
        let update = usage(false, meta);
        let watched = shared.see_notification(&update, &profile, now()).unwrap();
        let rejection =
            Some(RateLimitRejection { window: window.to_string(), resets_at_secs: at });
        let mut seq = SyntheticSeq { next: 0 };
        shared
            .apply_notification(update, watched, None, rejection, true, &profile, now(), &mut seq);
        (
            shared.rate_limit_rejections.get("five_hour"),
            shared.rate_limit_rejections.get("seven_day"),
        )
    };
    assert_eq!(limit("five_hour", 10, false), (None, None));
    assert_eq!(limit("five_hour", 10, true), (Some(10), None));
    assert_eq!(limit("seven_day", 20, true), (Some(10), Some(20)));
    assert_eq!(limit("five_hour", 30, true), (Some(30), Some(20)));
}

#[test]
fn successive_plans_have_ids_of_their_own() {
    let mut shared = shared();
    let mut seq = SyntheticSeq { next: 0 };
    take_counted(&mut shared, SessionUpdate::Plan(vec![]), None, &mut seq).unwrap();
    assert_eq!(seq.next, 1);
    take_counted(&mut shared, text_chunk("x", None), None, &mut seq).unwrap();
    assert_eq!(seq.next, 1);
}

#[test]
fn plans_of_two_connections_in_one_millisecond_have_ids_of_their_own() {
    let mut seq = SyntheticSeq { next: 0 };
    let mut ids = |shared: &mut Shared| {
        let plan = SessionUpdate::Plan(vec![]);
        let outcome = take_counted(shared, plan, None, &mut seq).unwrap();
        match &outcome.actions[..] {
            [NotificationAction::Publish(Event::ToolCallStarted { tool_call }), NotificationAction::Publish(Event::PlanUpdated { plan }), NotificationAction::Publish(Event::ToolCallCompleted { tool_call_id, .. })] =>
            {
                assert_eq!(&tool_call.id, tool_call_id);
                (tool_call.id.clone(), plan.plan_id.clone())
            }
            other => panic!("expected a plan within its call, got {other:?}"),
        }
    };
    let (mut one, mut two) = (shared(), shared());
    let pair = |tool: &str, plan: &str| (tool.to_string(), plan.to_string());
    assert_eq!(ids(&mut one), pair("todo-1700000000005-0", "plan-1700000000005-0"));
    assert_eq!(ids(&mut two), pair("todo-1700000000005-1", "plan-1700000000005-1"));
    assert_eq!(ids(&mut one), pair("todo-1700000000005-2", "plan-1700000000005-2"));
}
