//! An established session: what its owner may ask of it, what is done about
//! it, and the settings that outlive a single turn.

use crate::config_options;
use crate::config_options::{
    dispatch_set_mode, ModeRequest, ModeRequestV, SessionChannels, SessionChannelsV,
};
use crate::event::{Event, EventV};
use crate::json::{Json, JsonV};
use crate::lifecycle::{LifecycleSignal, LifecycleSignalV};
use crate::model;
use crate::model::Duplicate;
use crate::text;
use crate::wire::{ContentBlock, ContentBlockV};
use vstd::prelude::*;

verus! {

/// How long an agent may take to end a turn that was cancelled, in
/// milliseconds.
pub const CANCEL_ESCALATION_GRACE_MS: u64 = 10000;

/// Why a turn is cancelled.
#[derive(Debug, Clone, Copy, PartialEq, Eq, Structural)]
pub enum CancelCause {
    /// The user has asked for it.
    User,
    /// The worker is about to be restarted, whatever the agent answers.
    ForceStop,
    /// The turn has gone silent.
    Orphan,
}

impl DeepView for CancelCause {
    type V = CancelCause;

    open spec fn deep_view(&self) -> CancelCause {
        *self
    }
}

impl Duplicate for CancelCause {
    fn duplicate(&self) -> (r: Self) {
        *self
    }
}

/// How a request to clear the conversation ends.
#[derive(Debug, PartialEq, Eq)]
pub enum ResetSessionOutcome {
    Reset { new_acp_session_id: String },
    Failed { message: String },
}

/// The model of [`ResetSessionOutcome`].
#[verifier::ext_equal]
pub enum ResetSessionOutcomeV {
    Reset { new_acp_session_id: Seq<char> },
    Failed { message: Seq<char> },
}

impl DeepView for ResetSessionOutcome {
    type V = ResetSessionOutcomeV;

    open spec fn deep_view(&self) -> ResetSessionOutcomeV {
        match self {
            ResetSessionOutcome::Reset { new_acp_session_id } => {
                ResetSessionOutcomeV::Reset {
                    new_acp_session_id: new_acp_session_id.deep_view(),
                }
            },
            ResetSessionOutcome::Failed { message } => {
                ResetSessionOutcomeV::Failed {
                    message: message.deep_view(),
                }
            },
        }
    }
}

impl Duplicate for ResetSessionOutcome {
    fn duplicate(&self) -> (r: Self) {
        match self {
            ResetSessionOutcome::Reset { new_acp_session_id } => {
                ResetSessionOutcome::Reset {
                    new_acp_session_id: new_acp_session_id.duplicate(),
                }
            },
            ResetSessionOutcome::Failed { message } => {
                ResetSessionOutcome::Failed {
                    message: message.duplicate(),
                }
            },
        }
    }
}

/// What the owner of a session asks of it.
#[derive(Debug, PartialEq, Eq)]
pub enum ClientCmd {
    Prompt(Vec<ContentBlock>),
    Cancel,
    ForceStop,
    SetConfigOption { config_id: String, value: String },
    SetMode(String),
    DeleteSession { acp_session_id: String },
    ResumeBackgroundTailing,
    /// The conversation is cleared. The text is the command that asked for it.
    ResetSession { text: String },
    Shutdown,
}

/// The model of [`ClientCmd`].
#[verifier::ext_equal]
pub enum ClientCmdV {
    Prompt(Seq<ContentBlockV>),
    Cancel,
    ForceStop,
    SetConfigOption { config_id: Seq<char>, value: Seq<char> },
    SetMode(Seq<char>),
    DeleteSession { acp_session_id: Seq<char> },
    ResumeBackgroundTailing,
    ResetSession { text: Seq<char> },
    Shutdown,
}

impl DeepView for ClientCmd {
    type V = ClientCmdV;

    open spec fn deep_view(&self) -> ClientCmdV {
        match self {
            ClientCmd::Prompt(value) => ClientCmdV::Prompt(value.deep_view()),
            ClientCmd::Cancel => ClientCmdV::Cancel,
            ClientCmd::ForceStop => ClientCmdV::ForceStop,
            ClientCmd::SetConfigOption { config_id, value } => {
                ClientCmdV::SetConfigOption {
                    config_id: config_id.deep_view(),
                    value: value.deep_view(),
                }
            },
            ClientCmd::SetMode(value) => ClientCmdV::SetMode(value.deep_view()),
            ClientCmd::DeleteSession { acp_session_id } => {
                ClientCmdV::DeleteSession {
                    acp_session_id: acp_session_id.deep_view(),
                }
            },
            ClientCmd::ResumeBackgroundTailing => ClientCmdV::ResumeBackgroundTailing,
            ClientCmd::ResetSession { text } => ClientCmdV::ResetSession { text: text.deep_view() },
            ClientCmd::Shutdown => ClientCmdV::Shutdown,
        }
    }
}

impl Duplicate for ClientCmd {
    fn duplicate(&self) -> (r: Self) {
        match self {
            ClientCmd::Prompt(value) => ClientCmd::Prompt(value.duplicate()),
            ClientCmd::Cancel => ClientCmd::Cancel,
            ClientCmd::ForceStop => ClientCmd::ForceStop,
            ClientCmd::SetConfigOption { config_id, value } => {
                ClientCmd::SetConfigOption {
                    config_id: config_id.duplicate(),
                    value: value.duplicate(),
                }
            },
            ClientCmd::SetMode(value) => ClientCmd::SetMode(value.duplicate()),
            ClientCmd::DeleteSession { acp_session_id } => {
                ClientCmd::DeleteSession {
                    acp_session_id: acp_session_id.duplicate(),
                }
            },
            ClientCmd::ResumeBackgroundTailing => ClientCmd::ResumeBackgroundTailing,
            ClientCmd::ResetSession { text } => ClientCmd::ResetSession { text: text.duplicate() },
            ClientCmd::Shutdown => ClientCmd::Shutdown,
        }
    }
}

/// What is done about a session.
#[derive(Debug, PartialEq, Eq)]
pub enum SessionAction {
    Publish(Event),
    /// The agent is told to cancel the turn.
    SendCancel { cause: CancelCause },
    SetConfigOption { config_id: String, value: String },
    SetMode(ModeRequest),
    DeleteSession { acp_session_id: String },
    /// The sub-agents that the command names are followed again.
    ResumeBackgroundTailing,
    /// The request to clear the conversation is answered.
    AnswerReset(ResetSessionOutcome),
    /// A message is handed to the running turn.
    Steer { method: String, params: Json },
    /// The watchdog of the turn is told of a signal.
    ApplySignal(LifecycleSignal),
    /// The turn has to end within this time.
    ArmCancelGrace { millis: u64 },
    /// The turn is looked at again after the usual time.
    RearmOrphanCheck,
    /// A turn that a runner was running before is not waited for any more.
    SupersedeAdoptedTurn,
    /// The prompt that a runner is waiting for is given up.
    ReleaseLocalPrompt,
    /// Signals that are waiting are thrown away.
    DropQueuedSignals,
    SendPrompt { blocks: Vec<ContentBlock> },
    /// Updates are held until it is known whose they are.
    BeginTransition,
    RequestNewSession,
    /// The session's id is settled, which lets held updates go.
    FinishTransition { acp_session_id: String },
    /// It is not known any more whose the held updates are.
    AbandonTransition,
    /// The updates that were held are applied.
    ApplyReplay,
}

/// The model of [`SessionAction`].
#[verifier::ext_equal]
pub enum SessionActionV {
    Publish(EventV),
    SendCancel { cause: CancelCause },
    SetConfigOption { config_id: Seq<char>, value: Seq<char> },
    SetMode(ModeRequestV),
    DeleteSession { acp_session_id: Seq<char> },
    ResumeBackgroundTailing,
    AnswerReset(ResetSessionOutcomeV),
    Steer { method: Seq<char>, params: JsonV },
    ApplySignal(LifecycleSignalV),
    ArmCancelGrace { millis: u64 },
    RearmOrphanCheck,
    SupersedeAdoptedTurn,
    ReleaseLocalPrompt,
    DropQueuedSignals,
    SendPrompt { blocks: Seq<ContentBlockV> },
    BeginTransition,
    RequestNewSession,
    FinishTransition { acp_session_id: Seq<char> },
    AbandonTransition,
    ApplyReplay,
}

impl DeepView for SessionAction {
    type V = SessionActionV;

    open spec fn deep_view(&self) -> SessionActionV {
        match self {
            SessionAction::Publish(value) => SessionActionV::Publish(value.deep_view()),
            SessionAction::SendCancel { cause } => {
                SessionActionV::SendCancel {
                    cause: cause.deep_view(),
                }
            },
            SessionAction::SetConfigOption { config_id, value } => {
                SessionActionV::SetConfigOption {
                    config_id: config_id.deep_view(),
                    value: value.deep_view(),
                }
            },
            SessionAction::SetMode(value) => SessionActionV::SetMode(value.deep_view()),
            SessionAction::DeleteSession { acp_session_id } => {
                SessionActionV::DeleteSession {
                    acp_session_id: acp_session_id.deep_view(),
                }
            },
            SessionAction::ResumeBackgroundTailing => SessionActionV::ResumeBackgroundTailing,
            SessionAction::AnswerReset(value) => SessionActionV::AnswerReset(value.deep_view()),
            SessionAction::Steer { method, params } => {
                SessionActionV::Steer {
                    method: method.deep_view(),
                    params: params.deep_view(),
                }
            },
            SessionAction::ApplySignal(value) => SessionActionV::ApplySignal(value.deep_view()),
            SessionAction::ArmCancelGrace { millis } => {
                SessionActionV::ArmCancelGrace {
                    millis: millis.deep_view(),
                }
            },
            SessionAction::RearmOrphanCheck => SessionActionV::RearmOrphanCheck,
            SessionAction::SupersedeAdoptedTurn => SessionActionV::SupersedeAdoptedTurn,
            SessionAction::ReleaseLocalPrompt => SessionActionV::ReleaseLocalPrompt,
            SessionAction::DropQueuedSignals => SessionActionV::DropQueuedSignals,
            SessionAction::SendPrompt { blocks } => {
                SessionActionV::SendPrompt {
                    blocks: blocks.deep_view(),
                }
            },
            SessionAction::BeginTransition => SessionActionV::BeginTransition,
            SessionAction::RequestNewSession => SessionActionV::RequestNewSession,
            SessionAction::FinishTransition { acp_session_id } => {
                SessionActionV::FinishTransition {
                    acp_session_id: acp_session_id.deep_view(),
                }
            },
            SessionAction::AbandonTransition => SessionActionV::AbandonTransition,
            SessionAction::ApplyReplay => SessionActionV::ApplyReplay,
        }
    }
}

impl Duplicate for SessionAction {
    fn duplicate(&self) -> (r: Self) {
        match self {
            SessionAction::Publish(value) => SessionAction::Publish(value.duplicate()),
            SessionAction::SendCancel { cause } => {
                SessionAction::SendCancel {
                    cause: cause.duplicate(),
                }
            },
            SessionAction::SetConfigOption { config_id, value } => {
                SessionAction::SetConfigOption {
                    config_id: config_id.duplicate(),
                    value: value.duplicate(),
                }
            },
            SessionAction::SetMode(value) => SessionAction::SetMode(value.duplicate()),
            SessionAction::DeleteSession { acp_session_id } => {
                SessionAction::DeleteSession {
                    acp_session_id: acp_session_id.duplicate(),
                }
            },
            SessionAction::ResumeBackgroundTailing => SessionAction::ResumeBackgroundTailing,
            SessionAction::AnswerReset(value) => SessionAction::AnswerReset(value.duplicate()),
            SessionAction::Steer { method, params } => {
                SessionAction::Steer {
                    method: method.duplicate(),
                    params: params.duplicate(),
                }
            },
            SessionAction::ApplySignal(value) => SessionAction::ApplySignal(value.duplicate()),
            SessionAction::ArmCancelGrace { millis } => {
                SessionAction::ArmCancelGrace {
                    millis: millis.duplicate(),
                }
            },
            SessionAction::RearmOrphanCheck => SessionAction::RearmOrphanCheck,
            SessionAction::SupersedeAdoptedTurn => SessionAction::SupersedeAdoptedTurn,
            SessionAction::ReleaseLocalPrompt => SessionAction::ReleaseLocalPrompt,
            SessionAction::DropQueuedSignals => SessionAction::DropQueuedSignals,
            SessionAction::SendPrompt { blocks } => {
                SessionAction::SendPrompt {
                    blocks: blocks.duplicate(),
                }
            },
            SessionAction::BeginTransition => SessionAction::BeginTransition,
            SessionAction::RequestNewSession => SessionAction::RequestNewSession,
            SessionAction::FinishTransition { acp_session_id } => {
                SessionAction::FinishTransition {
                    acp_session_id: acp_session_id.duplicate(),
                }
            },
            SessionAction::AbandonTransition => SessionAction::AbandonTransition,
            SessionAction::ApplyReplay => SessionAction::ApplyReplay,
        }
    }
}

/// An established session.
#[derive(Debug, PartialEq, Eq)]
pub struct Session {
    pub acp_session_id: String,
    /// Whether the id was stored before, rather than given by this agent.
    pub session_from_storage: bool,
    pub channels: SessionChannels,
    /// Whether the agent takes messages while a turn is running.
    pub steering_capable: bool,
    /// Whether the agent takes an underscore off the names of methods.
    pub grok_shell: bool,
    pub default_effort: Option<String>,
    pub default_mode: Option<String>,
    pub default_model: Option<String>,
    /// Messages that a turn has handed back, to be sent as prompts.
    pub pending_prompts: Vec<Vec<ContentBlock>>,
}

/// The model of [`Session`].
#[verifier::ext_equal]
pub struct SessionV {
    pub acp_session_id: Seq<char>,
    pub session_from_storage: bool,
    pub channels: SessionChannelsV,
    pub steering_capable: bool,
    pub grok_shell: bool,
    pub default_effort: Option<Seq<char>>,
    pub default_mode: Option<Seq<char>>,
    pub default_model: Option<Seq<char>>,
    pub pending_prompts: Seq<Seq<ContentBlockV>>,
}

impl DeepView for Session {
    type V = SessionV;

    open spec fn deep_view(&self) -> SessionV {
        SessionV {
            acp_session_id: self.acp_session_id.deep_view(),
            session_from_storage: self.session_from_storage,
            channels: self.channels.deep_view(),
            steering_capable: self.steering_capable,
            grok_shell: self.grok_shell,
            default_effort: self.default_effort.deep_view(),
            default_mode: self.default_mode.deep_view(),
            default_model: self.default_model.deep_view(),
            pending_prompts: self.pending_prompts.deep_view(),
        }
    }
}

/// The session once a value is asked for one of its options. The model is
/// set again when the conversation is cleared, so the last pick is kept.
pub open spec fn with_option(state: SessionV, config_id: Seq<char>, value: Seq<char>) -> SessionV {
    if state.channels.model_config_option_id == Some(config_id) {
        SessionV { default_model: Some(value), ..state }
    } else {
        state
    }
}

/// What is published about a message that the agent has no time for.
pub open spec fn busy_event(text: Seq<char>) -> EventV {
    EventV::PromptRejected { reason: "agent_busy"@, text }
}

/// What is published about a message that the agent has no time for.
pub fn reject_busy(text: String) -> (r: SessionAction)
    ensures
        r.deep_view() == SessionActionV::Publish(busy_event(text@)),
{
    SessionAction::Publish(Event::PromptRejected { reason: "agent_busy".to_owned(), text })
}

/// What is published at the end of a turn.
pub fn publish_stopped(reason: &str) -> (r: SessionAction)
    ensures
        r.deep_view() == SessionActionV::Publish(EventV::Stopped { reason: reason@ }),
{
    SessionAction::Publish(Event::Stopped { reason: reason.to_owned() })
}

impl Session {
    /// A value is asked for one of the session's options.
    pub fn dispatch_config_option(&mut self, config_id: String, value: String) -> (r: SessionAction)
        ensures
            final(self).deep_view() == with_option(old(self).deep_view(), config_id@, value@),
            r.deep_view() == (SessionActionV::SetConfigOption {
                config_id: config_id@,
                value: value@,
            }),
    {
        let is_model = match &self.channels.model_config_option_id {
            Some(id) => text::same(id.as_str(), config_id.as_str()),
            None => false,
        };
        if is_model {
            self.default_model = Some(value.clone());
        }
        SessionAction::SetConfigOption { config_id, value }
    }

    /// A mode is asked for.
    pub fn dispatch_mode(&self, mode_id: String) -> (r: SessionAction)
        ensures
            r.deep_view() == SessionActionV::SetMode(
                config_options::mode_request(mode_id@, self.deep_view().channels),
            ),
    {
        SessionAction::SetMode(dispatch_set_mode(mode_id, &self.channels))
    }

    /// Takes the message that has waited longest to be sent as a prompt.
    pub fn take_pending(&mut self) -> (r: Option<Vec<ContentBlock>>)
        ensures
            match r {
                Some(blocks) => {
                    &&& old(self).deep_view().pending_prompts.len() > 0
                    &&& blocks.deep_view() == old(self).deep_view().pending_prompts.first()
                    &&& final(self).deep_view() == (SessionV {
                        pending_prompts: old(self).deep_view().pending_prompts.drop_first(),
                        ..old(self).deep_view()
                    })
                },
                None => {
                    &&& old(self).deep_view().pending_prompts.len() == 0
                    &&& final(self).deep_view() == old(self).deep_view()
                },
            },
    {
        model::pop_first(&mut self.pending_prompts)
    }
}

/// A message that the agent has no time for is given back with its text.
pub proof fn law_a_rejected_message_is_given_back(text: Seq<char>)
    ensures
        busy_event(text) matches EventV::PromptRejected { reason, text: back } && reason
            == "agent_busy"@ && back == text,
{
}

/// The model that was picked last is kept, and only what is set through the
/// session's option for the model is taken for one.
pub proof fn law_the_last_model_is_kept(
    state: SessionV,
    config_id: Seq<char>,
    value: Seq<char>,
    later: Seq<char>,
)
    ensures
        ({
            let once = with_option(state, config_id, value);
            let twice = with_option(once, config_id, later);
            &&& twice == with_option(state, config_id, later)
            &&& state.channels.model_config_option_id == Some(config_id) ==> once.default_model
                == Some(value)
            &&& state.channels.model_config_option_id != Some(config_id) ==> once == state
            &&& once.acp_session_id == state.acp_session_id
            &&& once.pending_prompts == state.pending_prompts
            &&& once.channels == state.channels
            &&& once.default_effort == state.default_effort
            &&& once.default_mode == state.default_mode
        }),
{
}

}
