//! Which events make up the visible transcript of a session.

use crate::event::{Event, EventV};
use vstd::prelude::*;

verus! {

/// Whether an event is part of the visible transcript: what the user and the
/// agent said, tool calls, plans, and the compaction of the conversation. The
/// state around it (modes, usage, commands, options) and the end of a turn
/// are not.
pub open spec fn in_transcript(event: EventV) -> bool {
    ||| event is AgentMessageChunk
    ||| event is AgentThoughtChunk
    ||| event is ThinkingStarted
    ||| event is UserPromptSent
    ||| event is ConversationCompactionStarted
    ||| event is ConversationCompacted
    ||| event is PlanUpdated
    ||| event is ToolCallStarted
    ||| event is ToolCallUpdated
    ||| event is ToolCallContent
    ||| event is ToolCallCompleted
}

/// Whether `event` is part of the visible transcript.
pub fn is_transcript_event(event: &Event) -> (r: bool)
    ensures
        r == in_transcript(event.deep_view()),
{
    match event {
        Event::AgentMessageChunk { .. } => true,
        Event::AgentThoughtChunk { .. } => true,
        Event::ThinkingStarted => true,
        Event::UserPromptSent { .. } => true,
        Event::ConversationCompactionStarted => true,
        Event::ConversationCompacted => true,
        Event::PlanUpdated { .. } => true,
        Event::ToolCallStarted { .. } => true,
        Event::ToolCallUpdated { .. } => true,
        Event::ToolCallContent { .. } => true,
        Event::ToolCallCompleted { .. } => true,
        _ => false,
    }
}

/// The name under which an event is logged.
pub open spec fn event_kind(event: EventV) -> Seq<char> {
    match event {
        EventV::AgentMessageChunk { .. } => "agent_message_chunk"@,
        EventV::AgentThoughtChunk { .. } => "agent_thought_chunk"@,
        EventV::ThinkingStarted => "thinking_started"@,
        EventV::UserPromptSent { .. } => "user_prompt_sent"@,
        EventV::ConversationCompactionStarted => "conversation_compaction_started"@,
        EventV::ConversationCompacted => "conversation_compacted"@,
        EventV::PlanUpdated { .. } => "plan_updated"@,
        EventV::ToolCallStarted { .. } => "tool_call_started"@,
        EventV::ToolCallUpdated { .. } => "tool_call_updated"@,
        EventV::ToolCallContent { .. } => "tool_call_content"@,
        EventV::ToolCallCompleted { .. } => "tool_call_completed"@,
        EventV::WakeupScheduled { .. } => "wakeup_scheduled"@,
        EventV::BackgroundAgentLaunched { .. } => "background_agent_launched"@,
        EventV::BackgroundItemStarted { .. } => "background_item_started"@,
        EventV::BackgroundItemEnded { .. } => "background_item_ended"@,
        EventV::CurrentModeChanged { .. } => "current_mode_changed"@,
        EventV::ModeChanged { .. } => "mode_changed"@,
        EventV::ModeSwitchFailed { .. } => "mode_switch_failed"@,
        EventV::ModesAvailable { .. } => "modes_available"@,
        EventV::UsageUpdated { .. } => "usage_updated"@,
        EventV::AvailableCommandsUpdated { .. } => "available_commands_updated"@,
        EventV::ConfigOptionsUpdated { .. } => "config_options_updated"@,
        EventV::ConfigOptionSwitchFailed { .. } => "config_option_switch_failed"@,
        EventV::PromptCapabilities { .. } => "prompt_capabilities"@,
        EventV::AcpSessionAssigned { .. } => "acp_session_assigned"@,
        EventV::SessionContextReset { .. } => "session_context_reset"@,
        EventV::SessionCleared => "session_cleared"@,
        EventV::RateLimit { .. } => "rate_limit"@,
        EventV::CancelRequested { .. } => "cancel_requested"@,
        EventV::PromptRejected { .. } => "prompt_rejected"@,
        EventV::PromptRuntimeError { .. } => "prompt_runtime_error"@,
        EventV::Stopped { .. } => "stopped"@,
        EventV::AgentStartupError { .. } => "agent_startup_error"@,
        EventV::ElicitationRequested { .. } => "elicitation_requested"@,
        EventV::ElicitationResolved { .. } => "elicitation_resolved"@,
        EventV::RawAgentUpdate { .. } => "raw_agent_update"@,
    }
}

/// The name under which `event` is logged.
pub fn transcript_event_kind(event: &Event) -> (r: &'static str)
    ensures
        r@ == event_kind(event.deep_view()),
{
    match event {
        Event::AgentMessageChunk { .. } => "agent_message_chunk",
        Event::AgentThoughtChunk { .. } => "agent_thought_chunk",
        Event::ThinkingStarted => "thinking_started",
        Event::UserPromptSent { .. } => "user_prompt_sent",
        Event::ConversationCompactionStarted => "conversation_compaction_started",
        Event::ConversationCompacted => "conversation_compacted",
        Event::PlanUpdated { .. } => "plan_updated",
        Event::ToolCallStarted { .. } => "tool_call_started",
        Event::ToolCallUpdated { .. } => "tool_call_updated",
        Event::ToolCallContent { .. } => "tool_call_content",
        Event::ToolCallCompleted { .. } => "tool_call_completed",
        Event::WakeupScheduled { .. } => "wakeup_scheduled",
        Event::BackgroundAgentLaunched { .. } => "background_agent_launched",
        Event::BackgroundItemStarted { .. } => "background_item_started",
        Event::BackgroundItemEnded { .. } => "background_item_ended",
        Event::CurrentModeChanged { .. } => "current_mode_changed",
        Event::ModeChanged { .. } => "mode_changed",
        Event::ModeSwitchFailed { .. } => "mode_switch_failed",
        Event::ModesAvailable { .. } => "modes_available",
        Event::UsageUpdated { .. } => "usage_updated",
        Event::AvailableCommandsUpdated { .. } => "available_commands_updated",
        Event::ConfigOptionsUpdated { .. } => "config_options_updated",
        Event::ConfigOptionSwitchFailed { .. } => "config_option_switch_failed",
        Event::PromptCapabilities { .. } => "prompt_capabilities",
        Event::AcpSessionAssigned { .. } => "acp_session_assigned",
        Event::SessionContextReset { .. } => "session_context_reset",
        Event::SessionCleared => "session_cleared",
        Event::RateLimit { .. } => "rate_limit",
        Event::CancelRequested { .. } => "cancel_requested",
        Event::PromptRejected { .. } => "prompt_rejected",
        Event::PromptRuntimeError { .. } => "prompt_runtime_error",
        Event::Stopped { .. } => "stopped",
        Event::AgentStartupError { .. } => "agent_startup_error",
        Event::ElicitationRequested { .. } => "elicitation_requested",
        Event::ElicitationResolved { .. } => "elicitation_resolved",
        Event::RawAgentUpdate { .. } => "raw_agent_update",
    }
}

/// Ambient state and the end of a turn are never taken for transcript, so
/// they pass while the transcript is held back.
pub proof fn law_state_is_no_transcript(event: EventV)
    requires
        event is Stopped || event is SessionCleared || event is AgentStartupError
            || event is RateLimit || event is CurrentModeChanged || event is ModeChanged
            || event is UsageUpdated || event is AvailableCommandsUpdated
            || event is ConfigOptionsUpdated || event is ModesAvailable,
    ensures
        !in_transcript(event),
{
}

/// What is said, thought and done is transcript: none of it is shown a second time
/// while a transcript that is known is replayed.
pub proof fn law_what_is_said_and_done_is_transcript(event: EventV)
    requires
        event is AgentMessageChunk || event is AgentThoughtChunk || event is UserPromptSent
            || event is PlanUpdated || event is ToolCallStarted || event is ToolCallUpdated
            || event is ToolCallContent || event is ToolCallCompleted || event is ThinkingStarted
            || event is ConversationCompactionStarted || event is ConversationCompacted,
    ensures
        in_transcript(event),
{
}

/// Whatever is not transcript stays out of it: limits, sessions, background work,
/// questions and errors.
pub proof fn law_the_rest_is_no_transcript(event: EventV)
    requires
        event is AcpSessionAssigned || event is SessionContextReset || event is CancelRequested
            || event is PromptRejected || event is PromptRuntimeError
            || event is ElicitationRequested || event is ElicitationResolved
            || event is WakeupScheduled || event is BackgroundAgentLaunched
            || event is BackgroundItemStarted || event is BackgroundItemEnded
            || event is PromptCapabilities || event is ModeSwitchFailed
            || event is ConfigOptionSwitchFailed || event is RawAgentUpdate,
    ensures
        !in_transcript(event),
{
}

}
