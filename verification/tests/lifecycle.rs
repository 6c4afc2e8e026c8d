//! What updates say about a turn.

use acp_client::agent_profiles;
use acp_client::event::UsageCost;
use acp_client::json::{Json, JsonNumber};
use acp_client::lifecycle::{
    classify_lifecycle_signal, detect_off_protocol_work_completed, forward_lifecycle_signals,
    wakeup_lifecycle_signal_from_update, LifecycleEnvelope, LifecycleSignal, OffProtocolWorkKind,
    TerminalClaim,
};
use acp_client::time::Timestamp;
use acp_client::wire::{
    ContentBlock, ContentChunk, RawInput, SessionUpdate, ToolCallFrame, ToolCallStatus,
    ToolCallUpdateFrame, ToolContent, ToolContentBlock, UsageFrame,
};

fn now() -> Timestamp {
    Timestamp { secs: 1_700_000_000, nanos: 500_000_000 }
}

fn text_chunk(text: &str, id: Option<&str>) -> SessionUpdate {
    SessionUpdate::AgentMessageChunk(ContentChunk {
        content: ContentBlock::Text { text: text.to_string(), annotations: None, meta: None },
        message_id: id.map(str::to_string),
    })
}

fn content(text: &str) -> Option<ToolContent> {
    Some(ToolContent {
        blocks: vec![ToolContentBlock::Text(text.to_string())],
        text: text.to_string(),
        diffs: vec![],
        output: vec![],
    })
}

fn tool_call(id: &str, title: &str, raw_input: Option<RawInput>) -> SessionUpdate {
    SessionUpdate::ToolCall(ToolCallFrame {
        id: id.to_string(),
        title: title.to_string(),
        kind: "other".to_string(),
        switches_mode: false,
        raw_input,
        args_preview: String::new(),
        diffs: vec![],
        memory_recall: None,
        meta: None,
        switch_plan: None,
    })
}

fn tool_update(
    id: &str,
    status: Option<ToolCallStatus>,
    title: Option<&str>,
    raw_input: Option<RawInput>,
    content: Option<ToolContent>,
) -> SessionUpdate {
    SessionUpdate::ToolCallUpdate(ToolCallUpdateFrame {
        id: id.to_string(),
        status,
        title: title.map(str::to_string),
        raw_input,
        content,
        meta_diffs: None,
        payload: Json::Object(vec![]),
    })
}

fn raw(entries: Vec<(&str, Json)>, delay_ms: Option<i64>) -> Option<RawInput> {
    Some(RawInput {
        value: Json::Object(entries.into_iter().map(|(k, v)| (k.to_string(), v)).collect()),
        preview: String::new(),
        delay_ms,
    })
}

fn minute() -> Option<RawInput> {
    raw(vec![("delaySeconds", Json::Number(JsonNumber::PosInt(60)))], Some(60_000))
}

fn tool_started(id: &str) -> LifecycleSignal {
    LifecycleSignal::ToolStarted { id: id.to_string(), is_background_task: false }
}

#[test]
fn between_prompt_signals_do_not_block_on_a_full_lifecycle_channel() {
    for i in 0..200 {
        let envelopes =
            forward_lifecycle_signals(false, 0, Some(tool_started(&i.to_string())), None);
        assert!(envelopes.is_empty());
    }
}

#[test]
fn active_prompt_signals_still_reach_the_lifecycle_channel() {
    let envelopes = forward_lifecycle_signals(
        true,
        7,
        Some(LifecycleSignal::Progress),
        Some(LifecycleSignal::WakeupPending { at: now() }),
    );
    assert_eq!(envelopes.len(), 2, "no extra envelopes");
    assert_eq!(envelopes[0].epoch, 7);
    assert!(matches!(envelopes[0].signal, LifecycleSignal::Progress));
    assert!(matches!(envelopes[1].signal, LifecycleSignal::WakeupPending { .. }));
}

#[test]
fn classify_lifecycle_signal_routes_compaction_markers() {
    assert!(matches!(
        classify_lifecycle_signal(&text_chunk("Compacting...", Some("m1"))),
        Some(LifecycleSignal::CompactionStarted)
    ));
    assert!(matches!(
        classify_lifecycle_signal(&text_chunk("Compacting completed.", Some("m2"))),
        Some(LifecycleSignal::CompactionCompleted)
    ));
    assert!(matches!(
        classify_lifecycle_signal(&text_chunk("regular assistant output", Some("m3"))),
        Some(LifecycleSignal::Progress)
    ));
    for text in [
        "\n\nCompacting failed: API Error: Request was aborted.",
        "\n\nCompacting failed: Not enough messages to compact.",
        "\n\nCompacting failed.",
    ] {
        assert!(
            matches!(
                classify_lifecycle_signal(&text_chunk(text, Some("m4"))),
                Some(LifecycleSignal::CompactionFailed)
            ),
            "{text:?}"
        );
    }
    // Prose that merely mentions compaction must stay plain progress.
    assert!(matches!(
        classify_lifecycle_signal(&text_chunk("the compaction failed earlier", Some("m5"))),
        Some(LifecycleSignal::Progress)
    ));
}

#[test]
fn detect_off_protocol_work_completed_matches_async_agent_prefix() {
    let blocks = content(
        "Async agent launched successfully.\nagentId: af2a6a5d46bc21f91 (internal ID)",
    );
    assert_eq!(
        detect_off_protocol_work_completed(&blocks),
        Some(OffProtocolWorkKind::AsyncAgent)
    );
}

#[test]
fn detect_off_protocol_work_completed_matches_background_command_prefix() {
    let blocks = content(
        "Command running in background with ID: bgxe33hwb. Output is being written to: /tmp/x",
    );
    assert_eq!(
        detect_off_protocol_work_completed(&blocks),
        Some(OffProtocolWorkKind::BackgroundCommand)
    );
}

#[test]
fn detect_off_protocol_work_completed_none_on_regular_completion() {
    let blocks = content("abc1234 first commit\nabc1235 second commit");
    assert!(detect_off_protocol_work_completed(&blocks).is_none());
}

#[test]
fn detect_off_protocol_work_completed_none_on_none_content() {
    assert!(detect_off_protocol_work_completed(&None).is_none());
}

#[test]
fn detect_off_protocol_work_completed_none_on_empty_content() {
    let empty = ToolContent { blocks: vec![], text: String::new(), diffs: vec![], output: vec![] };
    assert!(detect_off_protocol_work_completed(&Some(empty)).is_none());
}

#[test]
fn detect_off_protocol_work_completed_ignores_echoed_marker_mid_line() {
    let blocks = content("user typed: Command running in background with ID: pretend\nbye");
    assert!(detect_off_protocol_work_completed(&blocks).is_none());

    let blocks2 = content("log line: Async agent launched successfully but actually not");
    assert!(detect_off_protocol_work_completed(&blocks2).is_none());
}

#[test]
fn detect_off_protocol_work_completed_matches_marker_on_indented_line() {
    let blocks = content("\n  Command running in background with ID: btest. log: /tmp/x");
    assert_eq!(
        detect_off_protocol_work_completed(&blocks),
        Some(OffProtocolWorkKind::BackgroundCommand)
    );
}

#[test]
fn wakeup_lifecycle_signal_from_completed_tool_call_update() {
    let update = tool_update(
        "tc-wake-1",
        Some(ToolCallStatus::Completed),
        Some("ScheduleWakeup"),
        minute(),
        None,
    );
    let profile = agent_profiles::claude_code("default");
    let sig = wakeup_lifecycle_signal_from_update(&update, &profile, now());
    assert_eq!(
        sig,
        Some(LifecycleSignal::WakeupPending {
            at: Timestamp { secs: 1_700_000_060, nanos: 500_000_000 },
        })
    );
}

#[test]
fn wakeup_lifecycle_signal_none_on_initial_tool_call() {
    let update = tool_call("tc-wake-2", "ScheduleWakeup", minute());
    let profile = agent_profiles::claude_code("default");
    assert!(wakeup_lifecycle_signal_from_update(&update, &profile, now()).is_none());
}

#[test]
fn wakeup_lifecycle_signal_none_on_failed_completion() {
    let update = tool_update(
        "tc-wake-3",
        Some(ToolCallStatus::Failed),
        Some("ScheduleWakeup"),
        minute(),
        None,
    );
    let profile = agent_profiles::claude_code("default");
    assert!(wakeup_lifecycle_signal_from_update(&update, &profile, now()).is_none());
}

#[test]
fn wakeup_lifecycle_signal_fires_on_in_progress_with_raw_input() {
    let update = tool_update(
        "tc-wake-4",
        Some(ToolCallStatus::InProgress),
        Some("ScheduleWakeup"),
        minute(),
        None,
    );
    let profile = agent_profiles::claude_code("default");
    let sig = wakeup_lifecycle_signal_from_update(&update, &profile, now());
    assert!(matches!(sig, Some(LifecycleSignal::WakeupPending { .. })));
}

#[test]
fn classify_lifecycle_signal_marks_async_agent_completion() {
    let update = tool_update(
        "tc-async-1",
        Some(ToolCallStatus::Completed),
        None,
        None,
        content("Async agent launched successfully. agentId: async-test-1"),
    );
    match classify_lifecycle_signal(&update) {
        Some(LifecycleSignal::ToolCompleted { id, succeeded, off_protocol_work }) => {
            assert_eq!(id, "tc-async-1");
            assert!(succeeded);
            assert_eq!(off_protocol_work, Some(OffProtocolWorkKind::AsyncAgent));
        }
        other => panic!(
            "expected ToolCompleted {{ off_protocol_work: Some(AsyncAgent) }}, got {other:?}"
        ),
    }
}

#[test]
fn classify_lifecycle_signal_marks_background_command_completion() {
    let update = tool_update(
        "tc-bg-1",
        Some(ToolCallStatus::Completed),
        None,
        None,
        content(
            "Command running in background with ID: bgtest. Output is being written to: /tmp/x",
        ),
    );
    match classify_lifecycle_signal(&update) {
        Some(LifecycleSignal::ToolCompleted { id, succeeded, off_protocol_work }) => {
            assert_eq!(id, "tc-bg-1");
            assert!(succeeded);
            assert_eq!(off_protocol_work, Some(OffProtocolWorkKind::BackgroundCommand));
        }
        other => panic!(
            "expected ToolCompleted {{ off_protocol_work: Some(BackgroundCommand) }}, got {other:?}"
        ),
    }
}

#[test]
fn classify_lifecycle_signal_clears_off_protocol_on_regular_completion() {
    let update = tool_update(
        "tc-bash-1",
        Some(ToolCallStatus::Completed),
        None,
        None,
        content("ls /tmp/foo done"),
    );
    match classify_lifecycle_signal(&update) {
        Some(LifecycleSignal::ToolCompleted { id, succeeded, off_protocol_work }) => {
            assert_eq!(id, "tc-bash-1");
            assert!(succeeded);
            assert!(off_protocol_work.is_none());
        }
        other => panic!("expected ToolCompleted {{ off_protocol_work: None }}, got {other:?}"),
    }
}

#[test]
fn classify_lifecycle_signal_failed_ignores_off_protocol_marker() {
    let update = tool_update(
        "tc-failed-1",
        Some(ToolCallStatus::Failed),
        None,
        None,
        content("Async agent launched successfully. agentId: not-real"),
    );
    match classify_lifecycle_signal(&update) {
        Some(LifecycleSignal::ToolCompleted { succeeded, off_protocol_work, .. }) => {
            assert!(!succeeded, "Failed updates must mark succeeded=false");
            assert!(
                off_protocol_work.is_none(),
                "Failed updates must not activate off-protocol suppression"
            );
        }
        other => panic!("expected ToolCompleted, got {other:?}"),
    }
}

#[test]
fn lifecycle_envelope_round_trips_epoch_and_signal() {
    let env = LifecycleEnvelope {
        epoch: 42,
        signal: LifecycleSignal::WakeupPending { at: now() },
    };
    assert_eq!(env.epoch, 42);
    assert!(matches!(env.signal, LifecycleSignal::WakeupPending { .. }));
}

#[test]
fn classify_lifecycle_signal_tool_call_carries_run_in_background_flag() {
    let update = tool_call(
        "tc-bg-2",
        "Bash",
        raw(
            vec![
                ("command", Json::Text("npm install".to_string())),
                ("run_in_background", Json::Bool(true)),
            ],
            None,
        ),
    );
    match classify_lifecycle_signal(&update) {
        Some(LifecycleSignal::ToolStarted { id, is_background_task }) => {
            assert_eq!(id, "tc-bg-2");
            assert!(is_background_task, "raw_input.run_in_background=true must propagate");
        }
        other => panic!("expected ToolStarted, got {other:?}"),
    }
}

#[test]
fn classify_lifecycle_signal_tool_call_defaults_run_in_background_false() {
    let update = tool_call(
        "tc-fg-1",
        "Bash",
        raw(vec![("command", Json::Text("ls".to_string()))], None),
    );
    match classify_lifecycle_signal(&update) {
        Some(LifecycleSignal::ToolStarted { is_background_task, .. }) => {
            assert!(!is_background_task)
        }
        other => panic!("expected ToolStarted, got {other:?}"),
    }
}

#[test]
fn terminal_claim_is_per_turn_not_per_connection() {
    let mut claim = TerminalClaim::new();

    // First turn: claimable exactly once.
    assert!(!claim.claimed());
    assert!(claim.claim(), "first turn's terminal is unclaimed");
    assert!(claim.claimed());
    assert!(
        !claim.claim(),
        "a second path must not double-publish the same turn's terminal"
    );

    // Second turn on the same connection: its own terminal.
    claim.begin_turn();
    assert!(!claim.claimed(), "a new turn must not inherit the previous turn's claim");
    assert!(claim.claim(), "second turn's terminal is claimable");
    assert!(!claim.claim());

    // And it keeps working, so a long-lived connection cannot run out.
    claim.begin_turn();
    assert!(claim.claim());
}

#[test]
fn only_usage_with_costs_ends_a_turn() {
    let usage = |cost: Option<UsageCost>| {
        SessionUpdate::UsageUpdate(UsageFrame { used: 1, size: 2, cost, meta: None })
    };
    assert_eq!(classify_lifecycle_signal(&usage(None)), None);
    let cost = UsageCost { amount_bits: 0.25f64.to_bits(), currency: "USD".to_string() };
    assert_eq!(
        classify_lifecycle_signal(&usage(Some(cost))),
        Some(LifecycleSignal::TerminalUsage)
    );
}

#[test]
fn state_around_the_turn_carries_no_signal() {
    for update in [
        SessionUpdate::CurrentModeUpdate("plan".to_string()),
        SessionUpdate::AvailableCommandsUpdate(vec![]),
        SessionUpdate::ConfigOptionUpdate(vec![]),
        SessionUpdate::SessionInfoUpdate,
        SessionUpdate::Other(Json::Null),
    ] {
        assert_eq!(classify_lifecycle_signal(&update), None, "{update:?}");
    }
    assert_eq!(
        classify_lifecycle_signal(&SessionUpdate::Plan(vec![])),
        Some(LifecycleSignal::Progress)
    );
}

#[test]
fn agents_without_wakeup_tools_register_no_wakeup() {
    let update = tool_update(
        "tc-wake-5",
        Some(ToolCallStatus::Completed),
        Some("ScheduleWakeup"),
        minute(),
        None,
    );
    let profile = agent_profiles::codex();
    assert!(wakeup_lifecycle_signal_from_update(&update, &profile, now()).is_none());
}
