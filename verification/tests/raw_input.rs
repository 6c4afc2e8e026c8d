//! Events that a tool call's raw input asks for.

use acp_client::event::{BackgroundEndReason, BackgroundKind, Event};
use acp_client::json::{Json, JsonNumber};
use acp_client::raw_input::{
    background_agent_launched_from_value, background_item_event_from_hook, monitor_fits,
    wakeup_event_from_raw,
};
use acp_client::time::Timestamp;
use acp_client::wire::RawInput;
use serde_json::Value;

fn now() -> Timestamp {
    Timestamp { secs: 1_700_000_000, nanos: 250_000_000 }
}

fn from_value(value: &Value) -> Json {
    match value {
        Value::Null => Json::Null,
        Value::Bool(b) => Json::Bool(*b),
        Value::Number(n) => Json::Number(if let Some(u) = n.as_u64() {
            JsonNumber::PosInt(u)
        } else if let Some(i) = n.as_i64() {
            JsonNumber::NegInt(i)
        } else {
            JsonNumber::Float(n.as_f64().unwrap().to_bits())
        }),
        Value::String(s) => Json::Text(s.clone()),
        Value::Array(items) => Json::Array(items.iter().map(from_value).collect()),
        Value::Object(entries) => {
            Json::Object(entries.iter().map(|(k, v)| (k.clone(), from_value(v))).collect())
        }
    }
}

fn json(text: &str) -> Json {
    from_value(&serde_json::from_str(text).unwrap())
}

/// The arguments of a wakeup, with the delay in milliseconds.
fn wakeup_args(text: &str) -> RawInput {
    let value: Value = serde_json::from_str(text).unwrap();
    let delay_ms = value
        .get("delaySeconds")
        .and_then(|v| v.as_f64().or_else(|| v.as_str().and_then(|s| s.parse().ok())))
        .filter(|secs: &f64| secs.is_finite() && *secs >= 0.0)
        .map(|secs| (secs * 1000.0).clamp(0.0, i64::MAX as f64) as i64);
    RawInput { value: from_value(&value), preview: String::new(), delay_ms }
}

#[test]
fn wakeup_from_raw_rejects_unusable_delays() {
    let cases = [
        ("missing", "{}"),
        ("non-numeric", r#"{ "delaySeconds": "soon" }"#),
        ("negative", r#"{ "delaySeconds": -1.0 }"#),
        // JSON has no infinity literal, so it arrives as a numeric string.
        ("non-finite", r#"{ "delaySeconds": "inf" }"#),
        // Finite, but past the range of times that can be named.
        ("overflowing", r#"{ "delaySeconds": 1e18 }"#),
    ];
    for (label, raw) in cases {
        assert!(
            wakeup_event_from_raw(&wakeup_args(raw), now()).is_none(),
            "{label} delaySeconds must not emit WakeupScheduled"
        );
    }
}

#[test]
fn wakeup_from_raw_schedules_delay_given_as_string() {
    match wakeup_event_from_raw(&wakeup_args(r#"{ "delaySeconds": "600" }"#), now()) {
        Some(Event::WakeupScheduled { at, .. }) => {
            let delta = at.secs - now().secs;
            assert!((600..660).contains(&delta), "expected ~600s, got {delta}s");
        }
        other => panic!("expected WakeupScheduled, got {other:?}"),
    }
}

#[test]
fn background_agent_launched_parsed_from_agent_meta() {
    let payload = json(
        r#"{
            "_meta": { "claudeCode": {
                "toolName": "Agent",
                "toolResponse": {
                    "agentId": "a3d5ae46a7a0414b1",
                    "description": "grep tmux mentions repo-wide",
                    "prompt": "Grep the repo for tmux.",
                    "resolvedModel": "opus-4-8[1m]",
                    "outputFile": "/tmp/x/tasks/a3d5ae46a7a0414b1.output",
                    "status": "async_launched"
                }
            }},
            "toolCallId": "toolu_012yUZykQT2vqFXZTvqWev5e"
        }"#,
    );
    match background_agent_launched_from_value(&payload, now()) {
        Some(Event::BackgroundAgentLaunched {
            agent_id,
            tool_call_id,
            description,
            model,
            output_file,
            ..
        }) => {
            assert_eq!(agent_id, "a3d5ae46a7a0414b1");
            assert_eq!(tool_call_id, "toolu_012yUZykQT2vqFXZTvqWev5e");
            assert_eq!(description, "grep tmux mentions repo-wide");
            assert_eq!(model, "opus-4-8[1m]");
            assert!(output_file.ends_with(".output"));
        }
        other => panic!("expected BackgroundAgentLaunched, got {other:?}"),
    }
}

#[test]
fn background_agent_launched_ignores_non_agent_meta() {
    let bash = json(
        r#"{ "_meta": { "claudeCode": { "toolName": "Bash", "toolResponse": {} } } }"#,
    );
    assert!(background_agent_launched_from_value(&bash, now()).is_none());
    // An agent that runs in the foreground has no status.
    let sync = json(
        r#"{ "_meta": { "claudeCode": { "toolName": "Agent", "toolResponse": {
            "agentId": "x"
        }}} }"#,
    );
    assert!(background_agent_launched_from_value(&sync, now()).is_none());
    assert!(background_agent_launched_from_value(&json("{}"), now()).is_none());
}

fn hook(tool: &str, resp: &str) -> Json {
    json(&format!(
        r#"{{ "toolCallId": "toolu_1", "_meta": {{ "claudeCode": {{ "toolName": "{tool}", "toolResponse": {resp} }} }} }}"#
    ))
}

#[test]
fn a_monitor_that_expires_beyond_all_time_does_not_fit() {
    let huge = r#"{"taskId":"m1","timeoutMs":9223372036854775807}"#;
    assert!(!monitor_fits(&hook("Monitor", huge), now()));
    assert!(monitor_fits(&hook("Bash", huge), now()));
    for fits in [
        r#"{"taskId":"m1","timeoutMs":60000}"#,
        r#"{"taskId":"m1","timeoutMs":9223372036854775807,"persistent":true}"#,
        r#"{"timeoutMs":9223372036854775807}"#,
        r#"{"taskId":"m1","timeoutMs":-1}"#,
    ] {
        assert!(monitor_fits(&hook("Monitor", fits), now()), "{fits}");
    }
    assert!(monitor_fits(&Json::Null, now()));
}

#[test]
fn hook_frames_start_and_end_background_items() {
    match background_item_event_from_hook(
        &hook("Monitor", r#"{"taskId":"m1","timeoutMs":60000,"persistent":false}"#),
        now(),
    ) {
        Some(Event::BackgroundItemStarted {
            kind: BackgroundKind::Monitor,
            id,
            tool_call_id,
            expires_at,
            ..
        }) => {
            assert_eq!(id, "m1");
            assert_eq!(tool_call_id.as_deref(), Some("toolu_1"));
            assert_eq!(
                expires_at,
                Some(Timestamp { secs: now().secs + 60, nanos: now().nanos })
            );
        }
        other => panic!("expected monitor start, got {other:?}"),
    }
    match background_item_event_from_hook(
        &hook("Monitor", r#"{"taskId":"m2","timeoutMs":0,"persistent":true}"#),
        now(),
    ) {
        Some(Event::BackgroundItemStarted { expires_at: None, .. }) => {}
        other => panic!("persistent monitor has no expiry, got {other:?}"),
    }
    assert!(matches!(
        background_item_event_from_hook(
            &hook("Bash", r#"{"backgroundTaskId":"bg1","stdout":""}"#),
            now()
        ),
        Some(Event::BackgroundItemStarted { kind: BackgroundKind::Shell, .. })
    ));
    match background_item_event_from_hook(
        &hook("Workflow", r#"{"status":"async_launched","taskId":"w1","summary":"fix wave"}"#),
        now(),
    ) {
        Some(Event::BackgroundItemStarted { kind: BackgroundKind::Workflow, label, .. }) => {
            assert_eq!(label.as_deref(), Some("fix wave"))
        }
        other => panic!("expected workflow start, got {other:?}"),
    }
    assert!(matches!(
        background_item_event_from_hook(
            &hook("TaskStop", r#"{"task_id":"m1","message":"ok"}"#),
            now()
        ),
        Some(Event::BackgroundItemEnded { reason: BackgroundEndReason::Stopped, .. })
    ));
    assert!(matches!(
        background_item_event_from_hook(
            &hook("TaskOutput", r#"{"task":{"task_id":"bg1","status":"completed"}}"#),
            now()
        ),
        Some(Event::BackgroundItemEnded { reason: BackgroundEndReason::Finished, .. })
    ));
    for (label, frame) in [
        (
            "running poll",
            hook("TaskOutput", r#"{"task":{"task_id":"bg1","status":"running"}}"#),
        ),
        ("foreground bash", hook("Bash", r#"{"stdout":"hi"}"#)),
        ("sync workflow", hook("Workflow", r#"{"status":"completed","taskId":"w2"}"#)),
        ("other tool", hook("Read", r#"{"file":"x"}"#)),
    ] {
        assert!(background_item_event_from_hook(&frame, now()).is_none(), "{label}");
    }
}

#[test]
fn a_wakeup_has_the_exact_time_and_the_reason() {
    let raw = wakeup_args(r#"{ "delaySeconds": 1.5, "reason": "poll the build" }"#);
    assert_eq!(
        wakeup_event_from_raw(&raw, now()),
        Some(Event::WakeupScheduled {
            at: Timestamp { secs: 1_700_000_001, nanos: 750_000_000 },
            reason: Some("poll the build".to_string()),
        })
    );
}
