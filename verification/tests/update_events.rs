//! Events that updates become.

use acp_client::agent_profiles::{claude_code, codex, plain, AgentProfile};
use acp_client::event::{
    ConfigOptionCategory, DiffPreview, Event, Plan, PlanStep, PlanStepStatus, SessionMode,
    UsageCost,
};
use acp_client::json::{Json, JsonNumber};
use acp_client::time::Timestamp;
use acp_client::transcript_filter::{is_transcript_event, transcript_event_kind};
use acp_client::update_events::{
    is_compact_completion, is_compact_failure, is_compact_start, is_heartbeat_tool_call_id,
    map_update_to_events, times_fit, AgentMessageDedup, SyntheticSeq,
};
use acp_client::wire::{
    CommandInput, CommandSpec, ConfigCategory, ConfigKind, ConfigOption, ContentBlock,
    ContentChunk, PlanEntry, RawInput, SelectOption, SelectOptions, SessionUpdate, ToolCallFrame,
    ToolCallStatus, ToolCallUpdateFrame, ToolContent, ToolContentBlock, UsageFrame,
};

fn now() -> Timestamp {
    Timestamp { secs: 1_700_000_000, nanos: 123_000_000 }
}

fn events_of(update: SessionUpdate, profile: &AgentProfile) -> Vec<Event> {
    let mut seq = SyntheticSeq { next: 0 };
    map_update_to_events(update, profile, now(), &mut seq)
}

fn full() -> AgentProfile {
    claude_code("default")
}

fn object(entries: Vec<(&str, Json)>) -> Json {
    Json::Object(entries.into_iter().map(|(k, v)| (k.to_string(), v)).collect())
}

fn text(value: &str) -> Json {
    Json::Text(value.to_string())
}

fn text_block(text: &str) -> ContentBlock {
    ContentBlock::Text { text: text.to_string(), annotations: None, meta: None }
}

fn text_chunk(text: &str, id: Option<&str>) -> SessionUpdate {
    SessionUpdate::AgentMessageChunk(ContentChunk {
        content: text_block(text),
        message_id: id.map(str::to_string),
    })
}

fn content(text: &str) -> Option<ToolContent> {
    Some(ToolContent {
        blocks: vec![ToolContentBlock::Text(text.to_string())],
        text: text.to_string(),
        diffs: vec![],
        output: vec![],
    })
}

fn diff() -> DiffPreview {
    DiffPreview {
        path: "src/foo.rs".to_string(),
        old_text: Some("old".to_string()),
        new_text: Some("new".to_string()),
    }
}

fn raw(value: Json, preview: &str, delay_ms: Option<i64>) -> Option<RawInput> {
    Some(RawInput { value, preview: preview.to_string(), delay_ms })
}

fn tool_call(id: &str, title: &str) -> ToolCallFrame {
    ToolCallFrame {
        id: id.to_string(),
        title: title.to_string(),
        kind: "other".to_string(),
        switches_mode: false,
        raw_input: None,
        args_preview: String::new(),
        diffs: vec![],
        memory_recall: None,
        meta: None,
        switch_plan: None,
    }
}

fn tool_update(id: &str, status: Option<ToolCallStatus>) -> ToolCallUpdateFrame {
    ToolCallUpdateFrame {
        id: id.to_string(),
        status,
        title: None,
        raw_input: None,
        content: None,
        meta_diffs: None,
        payload: object(vec![("toolCallId", text(id))]),
    }
}

fn with_parent(id: &str, title: &str) -> ToolCallFrame {
    let mut frame = tool_call(id, title);
    frame.raw_input = raw(object(vec![("path", text("x"))]), "{\"path\":\"x\"}", None);
    frame.meta = Some(object(vec![(
        "claudeCode",
        object(vec![("parentToolUseId", text("tc-task-1"))]),
    )]));
    frame
}

fn parent_of(events: &[Event]) -> Option<String> {
    events
        .iter()
        .find_map(|e| match e {
            Event::ToolCallStarted { tool_call } => Some(tool_call.parent_tool_call_id.clone()),
            _ => None,
        })
        .expect("ToolCallStarted emitted")
}

#[test]
fn heartbeat_tool_call_id_predicate() {
    assert!(is_heartbeat_tool_call_id("toolu_01ABC-heartbeat-0"));
    assert!(is_heartbeat_tool_call_id("toolu_01ABC-heartbeat-123"));
    // Not a heartbeat: non-numeric suffix, empty suffix, plain id, or the
    // marker embedded mid-id rather than as the trailing segment.
    assert!(!is_heartbeat_tool_call_id("toolu_01ABC-heartbeat-x"));
    assert!(!is_heartbeat_tool_call_id("toolu_01ABC-heartbeat-"));
    assert!(!is_heartbeat_tool_call_id("toolu_01ABC"));
    assert!(!is_heartbeat_tool_call_id("toolu_01ABC-heartbeat-1-extra"));
}

#[test]
fn map_update_to_events_drops_heartbeat_keepalive() {
    let update = tool_update("toolu_01ABC-heartbeat-0", Some(ToolCallStatus::InProgress));
    let events = events_of(SessionUpdate::ToolCallUpdate(update), &full());
    assert!(events.is_empty(), "heartbeat emitted events: {events:?}");
}

#[test]
fn map_update_to_events_keeps_heartbeat_id_for_non_claude_profile() {
    let mut update = tool_update("real-tool-heartbeat-0", Some(ToolCallStatus::InProgress));
    update.title = Some("real-tool-heartbeat-0".to_string());
    let events = events_of(SessionUpdate::ToolCallUpdate(update), &codex());
    assert!(
        events.iter().any(|e| matches!(e, Event::ToolCallUpdated { .. })),
        "heartbeat-suffixed id should be kept, got {events:?}"
    );
}

#[test]
fn map_update_to_events_keeps_normal_in_progress_update() {
    let update = tool_update("toolu_01ABC", Some(ToolCallStatus::InProgress));
    let events = events_of(SessionUpdate::ToolCallUpdate(update), &full());
    assert!(
        events.iter().any(|e| matches!(e, Event::ToolCallUpdated { .. })),
        "expected ToolCallUpdated, got {events:?}"
    );
}

#[test]
fn map_update_to_events_threads_parent_tool_call_id() {
    let events = events_of(SessionUpdate::ToolCall(with_parent("tc-child-1", "Read")), &full());
    assert_eq!(parent_of(&events).as_deref(), Some("tc-task-1"));
}

#[test]
fn map_update_to_events_leaves_parent_none_when_meta_missing() {
    let mut frame = tool_call("tc-1", "Read");
    frame.raw_input = raw(object(vec![("path", text("x"))]), "", None);
    let events = events_of(SessionUpdate::ToolCall(frame), &full());
    assert!(parent_of(&events).is_none());
}

fn boundary() -> SessionUpdate {
    SessionUpdate::ToolCall(tool_call("t-dedup", "Read"))
}

#[test]
fn dedup_drops_consolidated_restatement_after_deltas() {
    let mut d = AgentMessageDedup::default();
    assert!(!d.observe(&text_chunk("", Some("m1"))));
    assert!(!d.observe(&text_chunk(
        "Concrete repro. Let me inspect the events around approval and",
        Some("m1")
    )));
    assert!(!d.observe(&text_chunk(
        " the \"Plan approved\" message in that session.",
        Some("m1")
    )));
    // Consolidated copy carries the mismatched id and restates the block.
    assert!(d.observe(&text_chunk(
        "Concrete repro. Let me inspect the events around approval and the \"Plan approved\" message in that session.",
        Some("m2")
    )));
}

#[test]
fn dedup_drops_restatement_when_delta_ids_absent() {
    let mut d = AgentMessageDedup::default();
    assert!(!d.observe(&text_chunk("", None)));
    assert!(!d.observe(&text_chunk("Getting the real failure log,", None)));
    assert!(!d.observe(&text_chunk(" not guessing this time.", None)));
    assert!(d.observe(&text_chunk(
        "Getting the real failure log, not guessing this time.",
        Some("uuid-1")
    )));
}

#[test]
fn dedup_drops_single_delta_restatement() {
    let mut d = AgentMessageDedup::default();
    assert!(!d.observe(&text_chunk("hello world", Some("m1"))));
    assert!(d.observe(&text_chunk("hello world", Some("m2"))));
}

#[test]
fn dedup_keeps_legitimate_repeated_same_id_delta() {
    let mut d = AgentMessageDedup::default();
    assert!(!d.observe(&text_chunk("", Some("m1"))));
    assert!(!d.observe(&text_chunk("ha", Some("m1"))));
    assert!(!d.observe(&text_chunk("ha", Some("m1"))));
}

#[test]
fn dedup_resets_on_boundary_and_handles_adjacent_blocks() {
    let mut d = AgentMessageDedup::default();
    // Block 1: delta then restatement, dropped.
    assert!(!d.observe(&text_chunk("ab", Some("m1"))));
    assert!(d.observe(&text_chunk("ab", Some("m2"))));
    // A tool call ends the block.
    assert!(!d.observe(&boundary()));
    // Block 2 reuses the text: its first chunk is no restatement.
    assert!(!d.observe(&text_chunk("ab", Some("m3"))));
    assert!(d.observe(&text_chunk("ab", Some("m4"))));
}

#[test]
fn dedup_never_drops_when_ids_absent() {
    let mut d = AgentMessageDedup::default();
    assert!(!d.observe(&text_chunk("", None)));
    assert!(!d.observe(&text_chunk("done", None)));
    assert!(!d.observe(&text_chunk("done", None)));
}

#[test]
fn dedup_reset_forgets_in_flight_block() {
    let mut d = AgentMessageDedup::default();
    assert!(!d.observe(&text_chunk("ab", Some("m1"))));
    d.reset();
    assert!(!d.observe(&text_chunk("ab", Some("m2"))));
}

#[test]
fn map_update_to_events_does_not_link_parent_for_unverified_agents() {
    let events = events_of(SessionUpdate::ToolCall(with_parent("tc-child-1", "Read")), &codex());
    assert!(parent_of(&events).is_none());
}

#[test]
fn is_compact_completion_matches_adapter_string() {
    assert!(is_compact_completion("Compacting completed."));
    assert!(is_compact_completion("\n\nCompacting completed.\n"));
    assert!(!is_compact_completion("Compacting..."));
    assert!(!is_compact_completion("compact done"));
    assert!(!is_compact_completion(""));
}

#[test]
fn is_compact_start_matches_adapter_string() {
    assert!(is_compact_start("Compacting..."));
    assert!(is_compact_start("\n\nCompacting...\n"));
    // The completion marker must not be read as a fresh start.
    assert!(!is_compact_start("Compacting completed."));
    assert!(!is_compact_start("compacting"));
    assert!(!is_compact_start(""));
}

fn hook_payload(id: &str, tool: &str, response: Json) -> Json {
    object(vec![
        ("toolCallId", text(id)),
        (
            "_meta",
            object(vec![(
                "claudeCode",
                object(vec![("toolName", text(tool)), ("toolResponse", response)]),
            )]),
        ),
    ])
}

#[test]
fn map_tool_call_update_meta_emits_background_agent_launched() {
    let mut update = tool_update("toolu_01HzYCZK", None);
    update.payload = hook_payload(
        "toolu_01HzYCZK",
        "Agent",
        object(vec![
            ("agentId", text("a6654829ea0a19032")),
            ("description", text("grep tmux mentions repo-wide")),
            ("prompt", text("Grep the repo for tmux.")),
            ("resolvedModel", text("opus-4-8[1m]")),
            ("outputFile", text("/tmp/x/tasks/a6654829ea0a19032.output")),
            ("status", text("async_launched")),
        ]),
    );
    let events = events_of(SessionUpdate::ToolCallUpdate(update), &full());
    match events.iter().find_map(|e| match e {
        Event::BackgroundAgentLaunched { agent_id, description, output_file, .. } => {
            Some((agent_id.clone(), description.clone(), output_file.clone()))
        }
        _ => None,
    }) {
        Some((id, desc, out)) => {
            assert_eq!(id, "a6654829ea0a19032");
            assert_eq!(desc, "grep tmux mentions repo-wide");
            assert!(out.ends_with(".output"));
        }
        None => panic!("expected BackgroundAgentLaunched, got {events:?}"),
    }
    assert!(
        !events.iter().any(|e| matches!(e, Event::RawAgentUpdate { .. })),
        "async launch should not also pass through as RawAgentUpdate"
    );
}

#[test]
fn only_a_bare_hook_frame_of_a_waking_agent_can_name_a_time_out_of_range() {
    let frame = |status| {
        let mut update = tool_update("toolu_m", status);
        update.payload = hook_payload(
            "toolu_m",
            "Monitor",
            object(vec![
                ("taskId", text("m1")),
                ("timeoutMs", Json::Number(JsonNumber::PosInt(i64::MAX as u64))),
            ]),
        );
        SessionUpdate::ToolCallUpdate(update)
    };
    assert!(!times_fit(&frame(None), &full(), now()));
    assert!(times_fit(&frame(None), &codex(), now()));
    assert!(times_fit(&frame(Some(ToolCallStatus::Completed)), &full(), now()));
    assert!(times_fit(&frame(Some(ToolCallStatus::InProgress)), &full(), now()));
    let never = Timestamp { secs: i64::MAX, nanos: 0 };
    assert!(!times_fit(&SessionUpdate::SessionInfoUpdate, &full(), never));
    assert!(times_fit(&SessionUpdate::SessionInfoUpdate, &full(), now()));
}

#[test]
fn map_hook_frame_emits_background_item_started_for_claude_only() {
    let meta_frame = || {
        let mut update = tool_update("toolu_m", None);
        update.payload = hook_payload(
            "toolu_m",
            "Monitor",
            object(vec![
                ("taskId", text("m1")),
                ("timeoutMs", Json::Number(JsonNumber::PosInt(0))),
                ("persistent", Json::Bool(true)),
            ]),
        );
        SessionUpdate::ToolCallUpdate(update)
    };
    let events = events_of(meta_frame(), &full());
    assert!(
        events.iter().any(|e| matches!(e, Event::BackgroundItemStarted { id, .. } if id == "m1")),
        "{events:?}"
    );
    let other = events_of(meta_frame(), &codex());
    assert!(
        other.iter().all(|e| !matches!(e, Event::BackgroundItemStarted { .. })),
        "{other:?}"
    );
}

#[test]
fn map_tool_call_update_completed_carries_content() {
    let mut update = tool_update("tc-1", Some(ToolCallStatus::Completed));
    update.content = content("abc1234 first commit");
    let events = events_of(SessionUpdate::ToolCallUpdate(update), &full());
    assert_eq!(events.len(), 1);
    match &events[0] {
        Event::ToolCallCompleted { tool_call_id, is_error, content, .. } => {
            assert_eq!(tool_call_id, "tc-1");
            assert!(!*is_error);
            assert_eq!(content, "abc1234 first commit");
        }
        other => panic!("expected ToolCallCompleted, got {other:?}"),
    }
}

fn async_flag(text: &str, id: &str) -> bool {
    let mut update = tool_update(id, Some(ToolCallStatus::Completed));
    update.content = content(text);
    let events = events_of(SessionUpdate::ToolCallUpdate(update), &full());
    events
        .iter()
        .find_map(|e| match e {
            Event::ToolCallCompleted { async_subagent, .. } => Some(*async_subagent),
            _ => None,
        })
        .expect("a ToolCallCompleted event")
}

#[test]
fn map_tool_call_update_flags_async_subagent_launch() {
    assert!(
        async_flag(
            "Async agent launched successfully\nagentId: ae6f0567246843e25 (internal ID)",
            "tc-async"
        ),
        "async sub-agent launch must set async_subagent"
    );
}

#[test]
fn map_tool_call_update_normal_completion_is_not_async_subagent() {
    assert!(!async_flag("done", "tc-normal"), "normal completion must not set async_subagent");
}

#[test]
fn map_user_message_chunk_becomes_user_prompt_sent() {
    let chunk = ContentChunk { content: text_block("hello from the past"), message_id: None };
    let events = events_of(SessionUpdate::UserMessageChunk(chunk), &full());
    assert_eq!(events.len(), 1);
    match &events[0] {
        Event::UserPromptSent { text, attachments, .. } => {
            assert_eq!(text, "hello from the past");
            assert!(attachments.is_empty());
        }
        other => panic!("expected UserPromptSent, got {other:?}"),
    }
}

#[test]
fn map_agent_thought_chunk_keeps_text_and_still_signals_activity() {
    let cases: [(&str, &[&str]); 4] = [
        (
            "Both port forwards verified; handing to the implementer now.",
            &["thinking_started", "agent_thought_chunk"],
        ),
        ("", &["thinking_started"]),
        // Whitespace-only is as wordless as empty.
        ("  \n ", &["thinking_started"]),
        ("x", &["thinking_started", "agent_thought_chunk"]),
    ];
    for (text, want) in cases {
        let chunk = ContentChunk { content: text_block(text), message_id: None };
        let events = events_of(SessionUpdate::AgentThoughtChunk(chunk), &full());
        let kinds: Vec<&str> = events.iter().map(transcript_event_kind).collect();
        assert_eq!(kinds, want, "chunk {text:?}");
        if let Some(Event::AgentThoughtChunk { text: got }) = events.get(1) {
            assert_eq!(got, text, "text preserved verbatim");
        }
    }
}

#[test]
fn map_agent_message_chunk_emits_compaction_lifecycle_events() {
    let cases: [(&str, &[&str]); 4] = [
        ("just some prose", &[]),
        ("Compacting...", &["conversation_compaction_started"]),
        ("\n\nCompacting completed.", &["conversation_compacted", "plan_updated"]),
        // Near-miss prose must not latch the phase.
        ("I am compacting the list", &[]),
    ];
    for (text, expected_tail) in cases {
        let events = events_of(text_chunk(text, None), &full());
        let kinds: Vec<&str> = events.iter().map(transcript_event_kind).collect();
        let mut want = vec!["agent_message_chunk"];
        want.extend_from_slice(expected_tail);
        assert_eq!(kinds, want, "chunk {text:?}");
    }
}

#[test]
fn compaction_events_are_suppressed_during_load_replay() {
    let cases = [
        (Event::ConversationCompactionStarted, true),
        (Event::ConversationCompacted, true),
        (Event::AgentMessageChunk { text: "Compacting...".into() }, true),
        // State must still reach the user on resume.
        (Event::SessionCleared, false),
        (Event::Stopped { reason: "prompt_complete".into() }, false),
    ];
    for (event, expected) in cases {
        assert_eq!(is_transcript_event(&event), expected, "{}", transcript_event_kind(&event));
    }
}

fn mode_from_current_mode_update(id: &str) -> SessionMode {
    let events = events_of(SessionUpdate::CurrentModeUpdate(id.to_string()), &full());
    match events.as_slice() {
        [Event::CurrentModeChanged { current_mode_id }, Event::ModeChanged { mode }] => {
            assert_eq!(current_mode_id, id, "raw mode id must be preserved");
            *mode
        }
        other => panic!("expected [CurrentModeChanged, ModeChanged], got {other:?}"),
    }
}

#[test]
fn current_mode_update_classifies_gemini_mode_ids() {
    assert_eq!(mode_from_current_mode_update("yolo"), SessionMode::BypassPermissions);
    assert_eq!(mode_from_current_mode_update("auto_edit"), SessionMode::AcceptEdits);
    assert_eq!(mode_from_current_mode_update("autoEdit"), SessionMode::AcceptEdits);
}

#[test]
fn current_mode_update_keeps_existing_mode_ids() {
    assert_eq!(mode_from_current_mode_update("default"), SessionMode::Default);
    assert_eq!(mode_from_current_mode_update("plan"), SessionMode::Plan);
    assert_eq!(mode_from_current_mode_update("accept_edits"), SessionMode::AcceptEdits);
    assert_eq!(mode_from_current_mode_update("acceptEdits"), SessionMode::AcceptEdits);
    assert_eq!(
        mode_from_current_mode_update("bypass_permissions"),
        SessionMode::BypassPermissions
    );
    assert_eq!(
        mode_from_current_mode_update("bypassPermissions"),
        SessionMode::BypassPermissions
    );
    // Unknown ids still fall back to Default.
    assert_eq!(mode_from_current_mode_update("some_future_mode"), SessionMode::Default);
}

#[test]
fn map_tool_call_update_in_progress_with_content_emits_streaming_event() {
    let mut update = tool_update("tc-2", Some(ToolCallStatus::InProgress));
    update.content = content("partial output");
    let events = events_of(SessionUpdate::ToolCallUpdate(update), &full());
    assert_eq!(events.len(), 2);
    match &events[0] {
        Event::ToolCallUpdated { tool_call_id, started_at, .. } => {
            assert_eq!(tool_call_id, "tc-2");
            assert_eq!(*started_at, Some(now()));
        }
        other => panic!("expected ToolCallUpdated, got {other:?}"),
    }
    match &events[1] {
        Event::ToolCallContent { tool_call_id, content } => {
            assert_eq!(tool_call_id, "tc-2");
            assert_eq!(content, "partial output");
        }
        other => panic!("expected ToolCallContent, got {other:?}"),
    }
}

#[test]
fn map_tool_call_update_in_progress_restamps_started_at() {
    let update = tool_update("tc-3", Some(ToolCallStatus::InProgress));
    let events = events_of(SessionUpdate::ToolCallUpdate(update), &full());
    assert_eq!(events.len(), 1);
    match &events[0] {
        Event::ToolCallUpdated { tool_call_id, started_at, title, args_preview, diffs } => {
            assert_eq!(tool_call_id, "tc-3");
            assert!(started_at.is_some(), "InProgress must carry a re-stamped started_at");
            assert!(title.is_none());
            assert!(args_preview.is_none());
            assert!(diffs.is_none());
        }
        other => panic!("expected ToolCallUpdated, got {other:?}"),
    }
}

#[test]
fn map_tool_call_bridges_diff_content_onto_started_tool() {
    let mut frame = tool_call("tc-edit-1", "Edit src/foo.rs");
    frame.kind = "edit".to_string();
    frame.diffs = vec![diff()];
    let events = events_of(SessionUpdate::ToolCall(frame), &codex());
    match &events[0] {
        Event::ToolCallStarted { tool_call } => {
            assert_eq!(tool_call.diffs.len(), 1);
            assert_eq!(tool_call.diffs[0].path, "src/foo.rs");
            assert_eq!(tool_call.diffs[0].new_text.as_deref(), Some("new"));
        }
        other => panic!("expected ToolCallStarted, got {other:?}"),
    }
}

#[test]
fn map_tool_call_update_carries_diff_content() {
    let mut update = tool_update("tc-edit-1", Some(ToolCallStatus::Completed));
    update.content = Some(ToolContent {
        blocks: vec![ToolContentBlock::Other],
        text: String::new(),
        diffs: vec![diff()],
        output: vec![],
    });
    let events = events_of(SessionUpdate::ToolCallUpdate(update), &codex());
    let updated = events
        .iter()
        .find_map(|e| match e {
            Event::ToolCallUpdated { diffs, .. } => Some(diffs),
            _ => None,
        })
        .expect("a ToolCallUpdated event must be emitted for a diff-only update");
    let diffs = updated.as_ref().expect("diffs must be Some");
    assert_eq!(diffs.len(), 1);
    assert_eq!(diffs[0].path, "src/foo.rs");
}

#[test]
fn map_tool_call_update_text_only_leaves_diffs_none() {
    let mut update = tool_update("tc-edit-1", Some(ToolCallStatus::Completed));
    update.content = content("done");
    let events = events_of(SessionUpdate::ToolCallUpdate(update), &codex());
    for e in &events {
        if let Event::ToolCallUpdated { diffs, .. } = e {
            assert!(diffs.is_none(), "text-only update must leave diffs None");
        }
    }
}

#[test]
fn map_tool_call_update_emits_wakeup_when_title_and_raw_input_land_in_update() {
    let mut update = tool_update("toolu_test", None);
    update.title = Some("ScheduleWakeup".to_string());
    update.raw_input = raw(
        object(vec![
            ("delaySeconds", Json::Number(JsonNumber::PosInt(600))),
            ("prompt", text("Wake-up fired. Confirm.")),
            ("reason", text("Test 10-minute wake-up card countdown")),
        ]),
        "",
        Some(600_000),
    );
    let events = events_of(SessionUpdate::ToolCallUpdate(update), &full());
    let wakeup = events
        .iter()
        .find(|e| matches!(e, Event::WakeupScheduled { .. }))
        .expect(
            "ToolCallUpdate with title=ScheduleWakeup + delaySeconds must emit WakeupScheduled",
        );
    match wakeup {
        Event::WakeupScheduled { at, reason } => {
            let delta = at.secs - now().secs;
            assert!(
                (590..=610).contains(&delta),
                "wakeup `at` should be ~600s in the future, got {delta}s",
            );
            assert_eq!(reason.as_deref(), Some("Test 10-minute wake-up card countdown"));
        }
        other => panic!("expected WakeupScheduled, got {other:?}"),
    }
}

#[test]
fn map_tool_call_update_skips_wakeup_when_raw_input_missing() {
    let mut update = tool_update("toolu_test", None);
    update.title = Some("ScheduleWakeup".to_string());
    let events = events_of(SessionUpdate::ToolCallUpdate(update), &full());
    assert!(
        !events.iter().any(|e| matches!(e, Event::WakeupScheduled { .. })),
        "no WakeupScheduled should fire without delaySeconds",
    );
}

#[test]
fn map_session_info_update_ignores_pushed_title() {
    assert!(events_of(SessionUpdate::SessionInfoUpdate, &full()).is_empty());
}

#[test]
fn map_session_info_update_without_title_emits_nothing() {
    assert!(events_of(SessionUpdate::SessionInfoUpdate, &codex()).is_empty());
}

#[test]
fn map_usage_update_emits_typed_usage_event() {
    let cost = UsageCost { amount_bits: 0.42f64.to_bits(), currency: "USD".to_string() };
    let frame = UsageFrame { used: 12_345, size: 200_000, cost: Some(cost), meta: None };
    let events = events_of(SessionUpdate::UsageUpdate(frame), &full());
    assert_eq!(events.len(), 1);
    match &events[0] {
        Event::UsageUpdated { usage } => {
            assert_eq!(usage.used, 12_345);
            assert_eq!(usage.size, 200_000);
            let cost = usage.cost.as_ref().expect("cost present");
            assert!((f64::from_bits(cost.amount_bits) - 0.42).abs() < f64::EPSILON);
            assert_eq!(cost.currency, "USD");
        }
        other => panic!("expected UsageUpdated, got {other:?}"),
    }
}

#[test]
fn map_available_commands_update_emits_typed_event() {
    let commands = vec![
        CommandSpec {
            name: "review".to_string(),
            description: "Review changes".to_string(),
            input: Some(CommandInput::Unstructured),
        },
        CommandSpec {
            name: "clear".to_string(),
            description: "Reset context".to_string(),
            input: None,
        },
    ];
    let events = events_of(SessionUpdate::AvailableCommandsUpdate(commands), &full());
    assert_eq!(events.len(), 1);
    match &events[0] {
        Event::AvailableCommandsUpdated { commands } => {
            assert_eq!(commands.len(), 2);
            assert_eq!(commands[0].name, "review");
            assert!(commands[0].accepts_input);
            assert_eq!(commands[1].name, "clear");
            assert!(!commands[1].accepts_input);
        }
        other => panic!("expected AvailableCommandsUpdated, got {other:?}"),
    }
}

fn select(
    id: &str,
    name: &str,
    current: &str,
    choices: &[(&str, &str)],
    category: ConfigCategory,
) -> ConfigOption {
    ConfigOption {
        id: id.to_string(),
        name: name.to_string(),
        description: None,
        category: Some(category),
        kind: ConfigKind::Select {
            current_value: current.to_string(),
            options: SelectOptions::Ungrouped(
                choices
                    .iter()
                    .map(|(value, name)| SelectOption {
                        value: value.to_string(),
                        name: name.to_string(),
                        description: None,
                    })
                    .collect(),
            ),
        },
    }
}

#[test]
fn map_config_option_update_emits_typed_event_with_categories() {
    let options = vec![
        select(
            "model",
            "Model",
            "opus-4-7",
            &[("opus-4-7", "Opus 4.7"), ("sonnet-4-6", "Sonnet 4.6")],
            ConfigCategory::Model,
        ),
        select(
            "effort",
            "Reasoning Effort",
            "default",
            &[("default", "Default"), ("high", "High")],
            ConfigCategory::ThoughtLevel,
        ),
        select(
            "mode",
            "Mode",
            "default",
            &[("default", "Default"), ("plan", "Plan")],
            ConfigCategory::Mode,
        ),
    ];
    let events = events_of(SessionUpdate::ConfigOptionUpdate(options), &full());
    assert_eq!(events.len(), 1);
    match &events[0] {
        Event::ConfigOptionsUpdated { options } => {
            assert_eq!(options.len(), 3);
            assert_eq!(options[0].id, "model");
            assert_eq!(options[0].category, ConfigOptionCategory::Model);
            assert_eq!(options[0].current_value, "opus-4-7");
            assert_eq!(options[0].options.len(), 2);
            assert_eq!(options[1].category, ConfigOptionCategory::ThoughtLevel);
            assert_eq!(options[1].current_value, "default");
            assert_eq!(options[2].category, ConfigOptionCategory::Mode);
        }
        other => panic!("expected ConfigOptionsUpdated, got {other:?}"),
    }
}

#[test]
fn map_config_option_preserves_unknown_category_name() {
    let unknown = select(
        "future",
        "Future Selector",
        "a",
        &[("a", "A")],
        ConfigCategory::Other("future_category".to_string()),
    );
    let events = events_of(SessionUpdate::ConfigOptionUpdate(vec![unknown]), &full());
    assert_eq!(events.len(), 1);
    match &events[0] {
        Event::ConfigOptionsUpdated { options } => {
            assert_eq!(options.len(), 1, "unknown-category option must not be dropped");
            assert_eq!(options[0].id, "future");
            assert_eq!(
                options[0].category,
                ConfigOptionCategory::Other("future_category".to_string()),
            );
        }
        other => panic!("expected ConfigOptionsUpdated, got {other:?}"),
    }
}

#[test]
fn a_failed_compaction_is_recognized_by_its_marker() {
    assert!(is_compact_failure("\n\nCompacting failed."));
    assert!(!is_compact_failure("the compaction failed earlier"));
}

#[test]
fn a_plan_is_shown_as_a_finished_tool_call() {
    let entry = |content: &str, status: PlanStepStatus, status_text: &str| PlanEntry {
        content: content.to_string(),
        status,
        status_text: status_text.to_string(),
    };
    let entries = || {
        vec![
            entry("say \"hi\"\u{1}", PlanStepStatus::Completed, "completed"),
            entry("go", PlanStepStatus::InProgress, "in_progress"),
        ]
    };
    let mut seq = SyntheticSeq { next: 4 };
    let first = map_update_to_events(SessionUpdate::Plan(entries()), &full(), now(), &mut seq);
    let second = map_update_to_events(SessionUpdate::Plan(entries()), &full(), now(), &mut seq);
    let started = |events: &[Event]| match &events[0] {
        Event::ToolCallStarted { tool_call } => {
            (tool_call.id.clone(), tool_call.args_preview.clone())
        }
        other => panic!("expected ToolCallStarted, got {other:?}"),
    };
    let (first_id, args) = started(&first);
    let (second_id, _) = started(&second);
    assert_ne!(first_id, second_id);
    assert!(first_id.ends_with("1700000000123-4"), "{first_id}");
    // The arguments are JSON, with the texts escaped.
    let parsed: serde_json::Value = serde_json::from_str(&args).expect("arguments are JSON");
    assert_eq!(parsed["todos"][0]["content"], "say \"hi\"\u{1}");
    assert_eq!(parsed["todos"][1]["status"], "in_progress");
    assert_eq!(
        args,
        "{\"todos\":[{\"content\":\"say \\\"hi\\\"\\u0001\",\"status\":\"completed\"},\
         {\"content\":\"go\",\"status\":\"in_progress\"}]}"
    );
    let plan = first
        .iter()
        .find_map(|e| match e {
            Event::PlanUpdated { plan } => Some(plan),
            _ => None,
        })
        .expect("the plan is updated too");
    assert_eq!(plan.steps.len(), 2);
    assert_eq!(plan.steps[1].title, "go");
    assert_eq!(plan.steps[1].status, PlanStepStatus::InProgress);
}

#[test]
fn leaving_the_plan_mode_announces_its_plan() {
    let plan = || Plan {
        plan_id: "p".to_string(),
        version: 1,
        steps: vec![PlanStep {
            id: "s".to_string(),
            title: "do".to_string(),
            detail: None,
            status: PlanStepStatus::Pending,
        }],
    };
    let frame = || {
        let mut frame = tool_call("tc", "ExitPlanMode");
        frame.switches_mode = true;
        frame.switch_plan = Some(plan());
        SessionUpdate::ToolCall(frame)
    };
    let events = events_of(frame(), &full());
    assert_eq!(events[1], Event::PlanUpdated { plan: plan() });
    assert_eq!(events_of(frame(), &plain("other")).len(), 1);
}

#[test]
fn frames_of_no_known_kind_pass_through() {
    let payload = object(vec![("sessionUpdate", text("novel"))]);
    let events = events_of(SessionUpdate::Other(payload), &full());
    match &events[0] {
        Event::RawAgentUpdate { payload } => {
            assert_eq!(payload.get("sessionUpdate").unwrap().as_str(), Some("novel"))
        }
        other => panic!("expected RawAgentUpdate, got {other:?}"),
    }
}

#[test]
fn news_with_metadata_alone_passes_through() {
    let update = tool_update("tc-meta", None);
    let payload = object(vec![("toolCallId", text("tc-meta"))]);
    assert_eq!(
        events_of(SessionUpdate::ToolCallUpdate(update), &codex()),
        vec![Event::RawAgentUpdate { payload }]
    );
}

#[test]
fn memories_are_shown_for_agents_that_recall_them() {
    let frame = || {
        let mut frame = tool_call("tc", "Recall");
        frame.memory_recall = Some(text("memory"));
        SessionUpdate::ToolCall(frame)
    };
    let recalled = |events: Vec<Event>| match &events[0] {
        Event::ToolCallStarted { tool_call } => tool_call.memory_recall.is_some(),
        other => panic!("expected ToolCallStarted, got {other:?}"),
    };
    assert!(recalled(events_of(frame(), &full())));
    assert!(!recalled(events_of(frame(), &plain("other"))));
}
