//! Events synthesized from a tool call's raw input: wakeups and background
//! work.

use crate::event::{BackgroundEndReason, BackgroundKind, Event, EventV};
use crate::json::{Json, JsonV};
use crate::text;
use crate::time::Timestamp;
use crate::wire::{RawInput, RawInputV};
use vstd::prelude::*;

verus! {

/// The wakeup that the arguments of a `ScheduleWakeup` call ask for at the
/// time `now`: there is one where they hold a `delaySeconds` that stands for
/// a number of milliseconds, not negative, after which a time can be named.
pub open spec fn wakeup_event(raw_input: RawInputV, now: Timestamp) -> Option<EventV> {
    match (raw_input.value.get("delaySeconds"@), raw_input.delay_ms) {
        (Some(_), Some(delay_ms)) => if delay_ms >= 0 && now.reaches(delay_ms as int) {
            Some(
                EventV::WakeupScheduled {
                    at: now.later(delay_ms as int),
                    reason: raw_input.value.str_at("reason"@),
                },
            )
        } else {
            None
        },
        _ => None,
    }
}

/// Builds the `WakeupScheduled` event that a `ScheduleWakeup` call asks for.
/// The time of the wakeup is absolute. Where the delay is missing, is no
/// number, is negative or leads past the last time that can be named there is
/// no event: better none than a wakeup at a wrong time.
pub fn wakeup_event_from_raw(raw_input: &RawInput, now: Timestamp) -> (r: Option<Event>)
    requires
        now.valid(),
    ensures
        r.deep_view() == wakeup_event(raw_input.deep_view(), now),
{
    if raw_input.value.get("delaySeconds").is_none() {
        return None;
    }
    match raw_input.delay_ms {
        Some(delay_ms) => {
            if delay_ms < 0 {
                return None;
            }
            match now.checked_add_millis(delay_ms) {
                Some(at) => {
                    let reason = raw_input.value.str_at("reason");
                    Some(Event::WakeupScheduled { at, reason })
                },
                None => None,
            }
        },
        None => None,
    }
}

/// The text that `v` holds under `key`, or no text.
pub open spec fn text_or_empty(v: JsonV, key: Seq<char>) -> Seq<char> {
    match v.str_at(key) {
        Some(s) => s,
        None => Seq::empty(),
    }
}

fn text_or_default(v: &Json, key: &str) -> (r: String)
    ensures
        r@ == text_or_empty(v.deep_view(), key@),
{
    match v.str_at(key) {
        Some(s) => s,
        None => {
            let r = String::new();
            proof {
                assert(r@ =~= Seq::<char>::empty());
            }
            r
        },
    }
}

/// The start of an asynchronous sub-agent that `v` reports: a response of the
/// tool `Agent` with the status `async_launched` and an agent id. All other
/// fields may be missing.
pub open spec fn background_agent_launched(v: JsonV, now: Timestamp) -> Option<EventV> {
    match v.get2("_meta"@, "claudeCode"@) {
        Some(claude) => match claude.get("toolResponse"@) {
            Some(response) => if claude.str_at("toolName"@) == Some("Agent"@)
                && response.str_at("status"@) == Some("async_launched"@) {
                match response.str_at("agentId"@) {
                    Some(agent_id) => Some(
                        EventV::BackgroundAgentLaunched {
                            agent_id,
                            tool_call_id: text_or_empty(v, "toolCallId"@),
                            description: text_or_empty(response, "description"@),
                            prompt: text_or_empty(response, "prompt"@),
                            model: text_or_empty(response, "resolvedModel"@),
                            output_file: text_or_empty(response, "outputFile"@),
                            started_at: now,
                        },
                    ),
                    None => None,
                }
            } else {
                None
            },
            None => None,
        },
        None => None,
    }
}

/// Detects the start of an asynchronous sub-agent in an otherwise unmapped
/// update. A missing agent id is the only field that matters.
pub fn background_agent_launched_from_value(v: &Json, now: Timestamp) -> (r: Option<Event>)
    ensures
        r.deep_view() == background_agent_launched(v.deep_view(), now),
{
    let claude = match v.get2("_meta", "claudeCode") {
        Some(claude) => claude,
        None => return None,
    };
    if !claude.has_text("toolName", "Agent") {
        return None;
    }
    let response = match claude.get("toolResponse") {
        Some(response) => response,
        None => return None,
    };
    if !response.has_text("status", "async_launched") {
        return None;
    }
    match response.str_at("agentId") {
        Some(agent_id) => Some(
            Event::BackgroundAgentLaunched {
                agent_id,
                tool_call_id: text_or_default(v, "toolCallId"),
                description: text_or_default(response, "description"),
                prompt: text_or_default(response, "prompt"),
                model: text_or_default(response, "resolvedModel"),
                output_file: text_or_default(response, "outputFile"),
                started_at: now,
            },
        ),
        None => None,
    }
}

/// The number of milliseconds after which a monitor that reports `response`
/// expires: none for a persistent one, and none without a positive timeout.
pub open spec fn monitor_timeout(response: JsonV) -> Option<int> {
    match response.i64_at("timeoutMs"@) {
        Some(timeout_ms) => if timeout_ms > 0 && response.bool_at("persistent"@) != Some(true) {
            Some(timeout_ms as int)
        } else {
            None
        },
        None => None,
    }
}

/// What a response of the tool `name` says about background work.
pub open spec fn hook_event(
    name: Seq<char>,
    response: JsonV,
    tool_call_id: Option<Seq<char>>,
    now: Timestamp,
) -> Option<EventV> {
    if name == "Monitor"@ {
        match response.str_at("taskId"@) {
            Some(id) => Some(
                EventV::BackgroundItemStarted {
                    kind: BackgroundKind::Monitor,
                    id,
                    tool_call_id,
                    label: None,
                    started_at: now,
                    expires_at: match monitor_timeout(response) {
                        Some(timeout_ms) => Some(now.later(timeout_ms)),
                        None => None,
                    },
                },
            ),
            None => None,
        }
    } else if name == "Bash"@ {
        match response.str_at("backgroundTaskId"@) {
            Some(id) => Some(
                EventV::BackgroundItemStarted {
                    kind: BackgroundKind::Shell,
                    id,
                    tool_call_id,
                    label: None,
                    started_at: now,
                    expires_at: None,
                },
            ),
            None => None,
        }
    } else if name == "Workflow"@ && response.str_at("status"@) == Some("async_launched"@) {
        match response.str_at("taskId"@) {
            Some(id) => Some(
                EventV::BackgroundItemStarted {
                    kind: BackgroundKind::Workflow,
                    id,
                    tool_call_id,
                    label: match response.str_at("summary"@) {
                        Some(summary) => Some(summary),
                        None => response.str_at("workflowName"@),
                    },
                    started_at: now,
                    expires_at: None,
                },
            ),
            None => None,
        }
    } else if name == "TaskStop"@ {
        match response.str_at("task_id"@) {
            Some(id) => Some(
                EventV::BackgroundItemEnded {
                    id,
                    reason: BackgroundEndReason::Stopped,
                    cause: None,
                    at: now,
                },
            ),
            None => None,
        }
    } else if name == "TaskOutput"@ {
        match response.get("task"@) {
            Some(task) => match (task.str_at("status"@), task.str_at("task_id"@)) {
                (Some(status), Some(id)) => if status == "running"@ || status == "pending"@ {
                    None
                } else {
                    Some(
                        EventV::BackgroundItemEnded {
                            id,
                            reason: BackgroundEndReason::Finished,
                            cause: None,
                            at: now,
                        },
                    )
                },
                _ => None,
            },
            None => None,
        }
    } else {
        None
    }
}

/// The tool's name and its response in a hook frame
/// (`_meta.claudeCode.{toolName, toolResponse}`).
pub open spec fn hook_response(payload: JsonV) -> Option<(Seq<char>, JsonV)> {
    match payload.get2("_meta"@, "claudeCode"@) {
        Some(claude) => match (claude.str_at("toolName"@), claude.get("toolResponse"@)) {
            (Some(name), Some(response)) => Some((name, response)),
            _ => None,
        },
        None => None,
    }
}

/// What a hook frame says about background work: a started monitor, shell
/// command or workflow, or a task that was stopped or has finished.
pub open spec fn background_item_event(payload: JsonV, now: Timestamp) -> Option<EventV> {
    match hook_response(payload) {
        Some((name, response)) => hook_event(name, response, payload.str_at("toolCallId"@), now),
        None => None,
    }
}

/// Whether the time at which a monitor that the frame starts expires can be
/// named.
pub open spec fn monitor_in_range(payload: JsonV, now: Timestamp) -> bool {
    hook_response(payload) matches Some((name, response)) ==> name == "Monitor"@
        ==> response.str_at("taskId"@) is Some ==> (monitor_timeout(response) matches Some(ms)
        ==> now.reaches(ms))
}

fn timeout_of(response: &Json) -> (r: Option<i64>)
    ensures
        match monitor_timeout(response.deep_view()) {
            Some(ms) => r matches Some(n) && n == ms && n > 0,
            None => r is None,
        },
{
    let persistent = match response.bool_at("persistent") {
        Some(b) => b,
        None => false,
    };
    let timeout_ms: i64 = match response.i64_at("timeoutMs") {
        Some(ms) => ms,
        None => 0,
    };
    if !persistent && timeout_ms > 0 {
        Some(timeout_ms)
    } else {
        None
    }
}

fn monitor_expiry(response: &Json, now: Timestamp) -> (r: Option<Timestamp>)
    requires
        now.valid(),
        monitor_timeout(response.deep_view()) matches Some(ms) ==> now.reaches(ms),
    ensures
        r == (match monitor_timeout(response.deep_view()) {
            Some(ms) => Some(now.later(ms)),
            None => None,
        }),
{
    match timeout_of(response) {
        Some(ms) => now.checked_add_millis(ms),
        None => None,
    }
}

/// Whether the time at which a monitor that the frame starts expires can be
/// named: what [`background_item_event_from_hook`] asks of a frame.
pub fn monitor_fits(payload: &Json, now: Timestamp) -> (r: bool)
    requires
        now.valid(),
    ensures
        r == monitor_in_range(payload.deep_view(), now),
{
    let claude = match payload.get2("_meta", "claudeCode") {
        Some(claude) => claude,
        None => return true,
    };
    let response = match claude.get("toolResponse") {
        Some(response) => response,
        None => return true,
    };
    if !claude.has_text("toolName", "Monitor") || response.str_at("taskId").is_none() {
        return true;
    }
    match timeout_of(response) {
        Some(ms) => now.checked_add_millis(ms).is_some(),
        None => true,
    }
}

/// Background work that a hook frame reports.
pub fn background_item_event_from_hook(payload: &Json, now: Timestamp) -> (r: Option<Event>)
    requires
        now.valid(),
        monitor_in_range(payload.deep_view(), now),
    ensures
        r.deep_view() == background_item_event(payload.deep_view(), now),
{
    let claude = match payload.get2("_meta", "claudeCode") {
        Some(claude) => claude,
        None => return None,
    };
    let response = match claude.get("toolResponse") {
        Some(response) => response,
        None => return None,
    };
    let tool_call_id = payload.str_at("toolCallId");
    let name = match claude.str_at("toolName") {
        Some(name) => name,
        None => return None,
    };
    let name = name.as_str();
    if text::same(name, "Monitor") {
        match response.str_at("taskId") {
            Some(id) => Some(
                Event::BackgroundItemStarted {
                    kind: BackgroundKind::Monitor,
                    id,
                    tool_call_id,
                    label: None,
                    started_at: now,
                    expires_at: monitor_expiry(response, now),
                },
            ),
            None => None,
        }
    } else if text::same(name, "Bash") {
        match response.str_at("backgroundTaskId") {
            Some(id) => Some(
                Event::BackgroundItemStarted {
                    kind: BackgroundKind::Shell,
                    id,
                    tool_call_id,
                    label: None,
                    started_at: now,
                    expires_at: None,
                },
            ),
            None => None,
        }
    } else if text::same(name, "Workflow") && response.has_text("status", "async_launched") {
        match response.str_at("taskId") {
            Some(id) => {
                let label = match response.str_at("summary") {
                    Some(summary) => Some(summary),
                    None => response.str_at("workflowName"),
                };
                Some(
                    Event::BackgroundItemStarted {
                        kind: BackgroundKind::Workflow,
                        id,
                        tool_call_id,
                        label,
                        started_at: now,
                        expires_at: None,
                    },
                )
            },
            None => None,
        }
    } else if text::same(name, "TaskStop") {
        match response.str_at("task_id") {
            Some(id) => Some(
                Event::BackgroundItemEnded {
                    id,
                    reason: BackgroundEndReason::Stopped,
                    cause: None,
                    at: now,
                },
            ),
            None => None,
        }
    } else if text::same(name, "TaskOutput") {
        let task = match response.get("task") {
            Some(task) => task,
            None => return None,
        };
        match task.str_at("status") {
            Some(status) => {
                if text::same(status.as_str(), "running") || text::same(
                    status.as_str(),
                    "pending",
                ) {
                    return None;
                }
                match task.str_at("task_id") {
                    Some(id) => Some(
                        Event::BackgroundItemEnded {
                            id,
                            reason: BackgroundEndReason::Finished,
                            cause: None,
                            at: now,
                        },
                    ),
                    None => None,
                }
            },
            None => None,
        }
    } else {
        None
    }
}

/// A wakeup comes after just the delay that is asked for, and for the reason that
/// is given; where no delay is given, none can be read, it is negative, or no time
/// can be named after it, there is no wakeup.
pub proof fn law_a_wakeup_comes_after_its_delay(raw_input: RawInputV, now: Timestamp)
    requires
        now.valid(),
    ensures
        match wakeup_event(raw_input, now) {
            Some(EventV::WakeupScheduled { at, reason }) => {
                &&& raw_input.value.get("delaySeconds"@) is Some
                &&& raw_input.delay_ms matches Some(delay_ms)
                &&& delay_ms >= 0
                &&& at.valid()
                &&& at.total_nanos() == now.total_nanos() + delay_ms * 1_000_000
                &&& reason == raw_input.value.str_at("reason"@)
            },
            Some(_) => false,
            None => {
                ||| raw_input.value.get("delaySeconds"@) is None
                ||| raw_input.delay_ms is None
                ||| raw_input.delay_ms->0 < 0
                ||| !now.reaches(raw_input.delay_ms->0 as int)
            },
        },
{
    if wakeup_event(raw_input, now) is Some {
        let delay_ms = raw_input.delay_ms->0 as int;
        crate::time::law_later_is_later_by_as_much(now, delay_ms);
    }
}

/// Whether `v` reports the response `response` of the tool `name`.
pub open spec fn reports(v: JsonV, name: Seq<char>, response: JsonV) -> bool {
    &&& v.get("_meta"@) matches Some(meta)
    &&& meta.get("claudeCode"@) matches Some(fields)
    &&& fields.get("toolName"@) == Some(JsonV::Text(name))
    &&& fields.get("toolResponse"@) == Some(response)
}

/// A sub-agent is told of exactly where the tool `Agent` reports that it was
/// launched, and under which id; with what the report says of it.
pub proof fn law_launches_are_told(v: JsonV, name: Seq<char>, response: JsonV, now: Timestamp)
    requires
        reports(v, name, response),
    ensures
        ({
            let launched = name == "Agent"@ && response.str_at("status"@) == Some(
                "async_launched"@,
            ) && response.str_at("agentId"@) is Some;
            &&& background_agent_launched(v, now) is Some <==> launched
            &&& launched ==> {
                &&& background_agent_launched(v, now)->0 matches EventV::BackgroundAgentLaunched {
                    agent_id,
                    tool_call_id,
                    description,
                    prompt,
                    model,
                    output_file,
                    started_at,
                }
                &&& Some(agent_id) == response.str_at("agentId"@)
                &&& started_at == now
                &&& v.str_at("toolCallId"@) matches Some(id) ==> tool_call_id == id
                &&& response.str_at("description"@) matches Some(text) ==> description == text
                &&& response.str_at("prompt"@) matches Some(text) ==> prompt == text
                &&& response.str_at("resolvedModel"@) matches Some(text) ==> model == text
                &&& response.str_at("outputFile"@) matches Some(text) ==> output_file == text
                &&& response.str_at("outputFile"@) is None ==> output_file.len() == 0
            }
        }),
{
}

/// Nothing is told of background work or of sub-agents where no tool reports.
pub proof fn law_without_a_report_nothing_is_told(v: JsonV, now: Timestamp)
    requires
        forall|name: Seq<char>, response: JsonV| !#[trigger] reports(v, name, response),
    ensures
        background_agent_launched(v, now) is None,
        background_item_event(v, now) is None,
{
    if let Some(fields) = v.get2("_meta"@, "claudeCode"@) {
        if fields.str_at("toolName"@) is Some && fields.get("toolResponse"@) is Some {
            assert(reports(v, fields.str_at("toolName"@)->0, fields.get("toolResponse"@)->0));
        }
    }
}

/// Work in the background is told as what its tool reports: a monitor, a command
/// or a workflow that was started, under its task's id, and a task that was
/// stopped or is no longer running. The response of any other tool tells nothing.
pub proof fn law_background_work_is_told_by_its_tool(
    v: JsonV,
    name: Seq<char>,
    response: JsonV,
    now: Timestamp,
)
    requires
        reports(v, name, response),
    ensures
        match background_item_event(v, now) {
            Some(EventV::BackgroundItemStarted { kind, id, tool_call_id, started_at, .. }) => {
                &&& tool_call_id == v.str_at("toolCallId"@)
                &&& started_at == now
                &&& kind is Monitor <==> name == "Monitor"@
                &&& kind is Shell <==> name == "Bash"@
                &&& kind is Workflow <==> name == "Workflow"@
                &&& name == "Monitor"@ || name == "Workflow"@ ==> response.str_at("taskId"@)
                    == Some(id)
                &&& name == "Bash"@ ==> response.str_at("backgroundTaskId"@) == Some(id)
            },
            Some(EventV::BackgroundItemEnded { id, reason, cause, at }) => {
                &&& at == now
                &&& cause is None
                &&& reason is Stopped ==> name == "TaskStop"@ && response.str_at("task_id"@) == Some(
                    id,
                )
                &&& reason is Finished ==> {
                    &&& name == "TaskOutput"@
                    &&& response.get("task"@) matches Some(task)
                    &&& task.str_at("task_id"@) == Some(id)
                    &&& task.str_at("status"@) matches Some(status)
                    &&& status != "running"@
                    &&& status != "pending"@
                }
                &&& reason is Stopped || reason is Finished
            },
            Some(_) => false,
            None => {
                &&& name == "Monitor"@ ==> response.str_at("taskId"@) is None
                &&& name == "Bash"@ ==> response.str_at("backgroundTaskId"@) is None
                &&& name == "Workflow"@ ==> response.str_at("taskId"@) is None || response.str_at(
                    "status"@,
                ) != Some("async_launched"@)
                &&& name == "TaskStop"@ ==> response.str_at("task_id"@) is None
                &&& name == "TaskOutput"@ ==> {
                    ||| response.get("task"@) is None
                    ||| response.get("task"@)->0.str_at("task_id"@) is None
                    ||| response.get("task"@)->0.str_at("status"@) is None
                    ||| response.get("task"@)->0.str_at("status"@) == Some("running"@)
                    ||| response.get("task"@)->0.str_at("status"@) == Some("pending"@)
                }
            },
        },
{
    reveal_strlit("Monitor");
    reveal_strlit("Bash");
    reveal_strlit("Workflow");
    reveal_strlit("TaskStop");
    reveal_strlit("TaskOutput");
    assert("Monitor"@.len() == 7 && "Bash"@.len() == 4 && "Workflow"@.len() == 8);
    assert("TaskStop"@.len() == 8 && "TaskOutput"@.len() == 10);
    assert("TaskStop"@[0] != "Workflow"@[0]);
}

/// Only a monitor expires: after its timeout, where it has one above zero and is
/// not persistent. Only a workflow has a label: its summary, or else its name.
pub proof fn law_only_monitors_expire(
    v: JsonV,
    name: Seq<char>,
    response: JsonV,
    now: Timestamp,
)
    requires
        reports(v, name, response),
        now.valid(),
        monitor_in_range(v, now),
        background_item_event(v, now) is Some,
    ensures
        background_item_event(v, now)->0 matches EventV::BackgroundItemStarted {
            expires_at,
            label,
            ..
        } ==> {
            let timeout = response.i64_at("timeoutMs"@);
            let expires = name == "Monitor"@ && timeout is Some && timeout->0 > 0
                && response.bool_at("persistent"@) != Some(true);
            &&& expires_at is Some <==> expires
            &&& expires ==> expires_at->0.total_nanos() == now.total_nanos() + timeout->0
                * 1_000_000
            &&& label == if name != "Workflow"@ {
                None
            } else if response.str_at("summary"@) is Some {
                response.str_at("summary"@)
            } else {
                response.str_at("workflowName"@)
            }
        },
{
    reveal_strlit("Monitor");
    reveal_strlit("Bash");
    reveal_strlit("Workflow");
    assert("Monitor"@.len() == 7 && "Bash"@.len() == 4 && "Workflow"@.len() == 8);
    if let Some(ms) = monitor_timeout(response) {
        if name == "Monitor"@ {
            crate::time::law_later_is_later_by_as_much(now, ms);
        }
    }
}

}
