//! A connection from its handshake to its end: how a session is established,
//! how a turn that was running before is watched, and what is said when the
//! connection fails.

use crate::command_loop;
use crate::command_loop::{
    announce, NewSession, NewSessionV, OptionReply, OptionReplyV, OptionRequest, OptionRequestV,
};
use crate::config_options;
use crate::config_options::{SessionChannels, SessionChannelsV};
use crate::control;
use crate::control::{ControlStateV, PromptOutcomeV};
use crate::errors::{AcpError, AcpErrorV};
use crate::event::{Event, EventV, RateLimitInfo, RateLimitInfoV};
use crate::handshake;
use crate::handshake::should_fork;
use crate::json::{Json, JsonV};
use crate::model;
use crate::model::Duplicate;
use crate::notifications::{Shared, SharedV};
use crate::session::{Session, SessionAction, SessionActionV, SessionV};
use crate::text;
use crate::wire::{ConfigOption, ConfigOptionV, SessionModes, SessionModesV};
use vstd::prelude::*;

verus! {

/// How long an adopted turn may be silent, in milliseconds.
pub const RESUME_IDLE_GRACE_DEFAULT_MS: u64 = 10000;

/// How a session is to be established.
#[derive(Debug, PartialEq, Eq)]
pub enum ConnectMode {
    /// The agent still has the session.
    Resume { acp_session_id: String, in_flight_turn: bool },
    /// The agent was just started. A stored session is loaded, a parent
    /// session is forked, or a new session is made.
    Fresh {
        stored_acp_session_id: Option<String>,
        seed_history_replay: bool,
        fork_from: Option<String>,
    },
}

/// The model of [`ConnectMode`].
#[verifier::ext_equal]
pub enum ConnectModeV {
    Resume { acp_session_id: Seq<char>, in_flight_turn: bool },
    Fresh {
        stored_acp_session_id: Option<Seq<char>>,
        seed_history_replay: bool,
        fork_from: Option<Seq<char>>,
    },
}

impl DeepView for ConnectMode {
    type V = ConnectModeV;

    open spec fn deep_view(&self) -> ConnectModeV {
        match self {
            ConnectMode::Resume { acp_session_id, in_flight_turn } => {
                ConnectModeV::Resume {
                    acp_session_id: acp_session_id.deep_view(),
                    in_flight_turn: in_flight_turn.deep_view(),
                }
            },
            ConnectMode::Fresh { stored_acp_session_id, seed_history_replay, fork_from } => {
                ConnectModeV::Fresh {
                    stored_acp_session_id: stored_acp_session_id.deep_view(),
                    seed_history_replay: seed_history_replay.deep_view(),
                    fork_from: fork_from.deep_view(),
                }
            },
        }
    }
}

impl Duplicate for ConnectMode {
    fn duplicate(&self) -> (r: Self) {
        match self {
            ConnectMode::Resume { acp_session_id, in_flight_turn } => {
                ConnectMode::Resume {
                    acp_session_id: acp_session_id.duplicate(),
                    in_flight_turn: in_flight_turn.duplicate(),
                }
            },
            ConnectMode::Fresh { stored_acp_session_id, seed_history_replay, fork_from } => {
                ConnectMode::Fresh {
                    stored_acp_session_id: stored_acp_session_id.duplicate(),
                    seed_history_replay: seed_history_replay.duplicate(),
                    fork_from: fork_from.duplicate(),
                }
            },
        }
    }
}

/// What the agent has said about itself.
#[derive(Debug, Clone, Copy, PartialEq, Eq, Structural)]
pub struct AgentFacts {
    pub load_session: bool,
    pub fork: bool,
    pub image: bool,
    pub audio: bool,
    pub embedded_context: bool,
    pub steering: bool,
}

impl DeepView for AgentFacts {
    type V = AgentFacts;

    open spec fn deep_view(&self) -> AgentFacts {
        *self
    }
}

impl Duplicate for AgentFacts {
    fn duplicate(&self) -> (r: Self) {
        *self
    }
}

/// Why the client cannot work with the agent.
#[derive(Debug, PartialEq, Eq)]
pub struct Incompatibility {
    pub detail: Json,
    pub message: String,
}

/// The model of [`Incompatibility`].
#[verifier::ext_equal]
pub struct IncompatibilityV {
    pub detail: JsonV,
    pub message: Seq<char>,
}

impl DeepView for Incompatibility {
    type V = IncompatibilityV;

    open spec fn deep_view(&self) -> IncompatibilityV {
        IncompatibilityV {
            detail: self.detail.deep_view(),
            message: self.message.deep_view(),
        }
    }
}

impl Duplicate for Incompatibility {
    fn duplicate(&self) -> (r: Self) {
        Incompatibility {
            detail: self.detail.duplicate(),
            message: self.message.duplicate(),
        }
    }
}

/// What is done about the start and the end of a connection.
#[derive(Debug, PartialEq, Eq)]
pub enum StartupAction {
    Publish(Event),
    /// Whoever waits for the handshake is told how it went.
    Ready { error: Option<AcpError> },
}

/// The model of [`StartupAction`].
#[verifier::ext_equal]
pub enum StartupActionV {
    Publish(EventV),
    Ready { error: Option<AcpErrorV> },
}

impl DeepView for StartupAction {
    type V = StartupActionV;

    open spec fn deep_view(&self) -> StartupActionV {
        match self {
            StartupAction::Publish(value) => StartupActionV::Publish(value.deep_view()),
            StartupAction::Ready { error } => StartupActionV::Ready { error: error.deep_view() },
        }
    }
}

impl Duplicate for StartupAction {
    fn duplicate(&self) -> (r: Self) {
        match self {
            StartupAction::Publish(value) => StartupAction::Publish(value.duplicate()),
            StartupAction::Ready { error } => StartupAction::Ready { error: error.duplicate() },
        }
    }
}

/// What is asked of the agent to establish a session.
#[derive(Debug, PartialEq, Eq)]
pub enum EstablishRequest {
    /// Nothing, but a runner may know the session by another id by now.
    Resume { stored: String },
    Fork { parent: String },
    Load { stored: String },
    New,
    SetMode(OptionRequest),
    SetEffort(OptionRequest),
}

/// The model of [`EstablishRequest`].
#[verifier::ext_equal]
pub enum EstablishRequestV {
    Resume { stored: Seq<char> },
    Fork { parent: Seq<char> },
    Load { stored: Seq<char> },
    New,
    SetMode(OptionRequestV),
    SetEffort(OptionRequestV),
}

impl DeepView for EstablishRequest {
    type V = EstablishRequestV;

    open spec fn deep_view(&self) -> EstablishRequestV {
        match self {
            EstablishRequest::Resume { stored } => {
                EstablishRequestV::Resume {
                    stored: stored.deep_view(),
                }
            },
            EstablishRequest::Fork { parent } => {
                EstablishRequestV::Fork {
                    parent: parent.deep_view(),
                }
            },
            EstablishRequest::Load { stored } => {
                EstablishRequestV::Load {
                    stored: stored.deep_view(),
                }
            },
            EstablishRequest::New => EstablishRequestV::New,
            EstablishRequest::SetMode(value) => EstablishRequestV::SetMode(value.deep_view()),
            EstablishRequest::SetEffort(value) => EstablishRequestV::SetEffort(value.deep_view()),
        }
    }
}

impl Duplicate for EstablishRequest {
    fn duplicate(&self) -> (r: Self) {
        match self {
            EstablishRequest::Resume { stored } => {
                EstablishRequest::Resume {
                    stored: stored.duplicate(),
                }
            },
            EstablishRequest::Fork { parent } => {
                EstablishRequest::Fork {
                    parent: parent.duplicate(),
                }
            },
            EstablishRequest::Load { stored } => {
                EstablishRequest::Load {
                    stored: stored.duplicate(),
                }
            },
            EstablishRequest::New => EstablishRequest::New,
            EstablishRequest::SetMode(value) => EstablishRequest::SetMode(value.duplicate()),
            EstablishRequest::SetEffort(value) => EstablishRequest::SetEffort(value.duplicate()),
        }
    }
}

/// How the establishing of a session goes on.
#[derive(Debug, PartialEq, Eq)]
pub enum EstablishNext {
    Request(EstablishRequest),
    Established,
    /// The connection fails.
    Failed,
}

/// The model of [`EstablishNext`].
#[verifier::ext_equal]
pub enum EstablishNextV {
    Request(EstablishRequestV),
    Established,
    Failed,
}

impl DeepView for EstablishNext {
    type V = EstablishNextV;

    open spec fn deep_view(&self) -> EstablishNextV {
        match self {
            EstablishNext::Request(value) => EstablishNextV::Request(value.deep_view()),
            EstablishNext::Established => EstablishNextV::Established,
            EstablishNext::Failed => EstablishNextV::Failed,
        }
    }
}

impl Duplicate for EstablishNext {
    fn duplicate(&self) -> (r: Self) {
        match self {
            EstablishNext::Request(value) => EstablishNext::Request(value.duplicate()),
            EstablishNext::Established => EstablishNext::Established,
            EstablishNext::Failed => EstablishNext::Failed,
        }
    }
}

/// What is done to establish a session.
#[derive(Debug, PartialEq, Eq)]
pub struct EstablishStep {
    pub actions: Vec<SessionAction>,
    pub next: EstablishNext,
}

/// The model of [`EstablishStep`].
#[verifier::ext_equal]
pub struct EstablishStepV {
    pub actions: Seq<SessionActionV>,
    pub next: EstablishNextV,
}

impl DeepView for EstablishStep {
    type V = EstablishStepV;

    open spec fn deep_view(&self) -> EstablishStepV {
        EstablishStepV {
            actions: self.actions.deep_view(),
            next: self.next.deep_view(),
        }
    }
}

impl Duplicate for EstablishStep {
    fn duplicate(&self) -> (r: Self) {
        EstablishStep {
            actions: self.actions.duplicate(),
            next: self.next.duplicate(),
        }
    }
}

/// How the request for a session was answered.
#[derive(Debug, PartialEq, Eq)]
pub enum SessionReply {
    Created(NewSession),
    Failed { text: String },
}

/// The model of [`SessionReply`].
#[verifier::ext_equal]
pub enum SessionReplyV {
    Created(NewSessionV),
    Failed { text: Seq<char> },
}

impl DeepView for SessionReply {
    type V = SessionReplyV;

    open spec fn deep_view(&self) -> SessionReplyV {
        match self {
            SessionReply::Created(value) => SessionReplyV::Created(value.deep_view()),
            SessionReply::Failed { text } => SessionReplyV::Failed { text: text.deep_view() },
        }
    }
}

impl Duplicate for SessionReply {
    fn duplicate(&self) -> (r: Self) {
        match self {
            SessionReply::Created(value) => SessionReply::Created(value.duplicate()),
            SessionReply::Failed { text } => SessionReply::Failed { text: text.duplicate() },
        }
    }
}

/// How the request to load a session was answered.
#[derive(Debug, PartialEq, Eq)]
pub enum LoadReply {
    Loaded {
        modes: Option<SessionModes>,
        config_options: Option<Vec<ConfigOption>>,
    },
    Failed { text: String },
}

/// The model of [`LoadReply`].
#[verifier::ext_equal]
pub enum LoadReplyV {
    Loaded {
        modes: Option<SessionModesV>,
        config_options: Option<Seq<ConfigOptionV>>,
    },
    Failed { text: Seq<char> },
}

impl DeepView for LoadReply {
    type V = LoadReplyV;

    open spec fn deep_view(&self) -> LoadReplyV {
        match self {
            LoadReply::Loaded { modes, config_options } => {
                LoadReplyV::Loaded {
                    modes: modes.deep_view(),
                    config_options: config_options.deep_view(),
                }
            },
            LoadReply::Failed { text } => LoadReplyV::Failed { text: text.deep_view() },
        }
    }
}

impl Duplicate for LoadReply {
    fn duplicate(&self) -> (r: Self) {
        match self {
            LoadReply::Loaded { modes, config_options } => {
                LoadReply::Loaded {
                    modes: modes.duplicate(),
                    config_options: config_options.duplicate(),
                }
            },
            LoadReply::Failed { text } => LoadReply::Failed { text: text.duplicate() },
        }
    }
}

/// A session that is being established.
#[derive(Debug, PartialEq, Eq)]
pub struct Establish {
    pub load_capable: bool,
    pub stored: Option<String>,
    /// Whether the agent's replay is wanted.
    pub seed_history_replay: bool,
    /// Whether the session was to be forked from another.
    pub fork_requested: bool,
    /// What is said about a context that was lost, once there is a session.
    pub context_reset_reason: Option<String>,
    pub acp_session_id: Option<String>,
    pub session_from_storage: bool,
    pub channels: SessionChannels,
    pub default_effort: Option<String>,
    pub default_mode: Option<String>,
}

/// The model of [`Establish`].
#[verifier::ext_equal]
pub struct EstablishV {
    pub load_capable: bool,
    pub stored: Option<Seq<char>>,
    pub seed_history_replay: bool,
    pub fork_requested: bool,
    pub context_reset_reason: Option<Seq<char>>,
    pub acp_session_id: Option<Seq<char>>,
    pub session_from_storage: bool,
    pub channels: SessionChannelsV,
    pub default_effort: Option<Seq<char>>,
    pub default_mode: Option<Seq<char>>,
}

impl DeepView for Establish {
    type V = EstablishV;

    open spec fn deep_view(&self) -> EstablishV {
        EstablishV {
            load_capable: self.load_capable.deep_view(),
            stored: self.stored.deep_view(),
            seed_history_replay: self.seed_history_replay.deep_view(),
            fork_requested: self.fork_requested.deep_view(),
            context_reset_reason: self.context_reset_reason.deep_view(),
            acp_session_id: self.acp_session_id.deep_view(),
            session_from_storage: self.session_from_storage.deep_view(),
            channels: self.channels.deep_view(),
            default_effort: self.default_effort.deep_view(),
            default_mode: self.default_mode.deep_view(),
        }
    }
}

impl Duplicate for Establish {
    fn duplicate(&self) -> (r: Self) {
        Establish {
            load_capable: self.load_capable.duplicate(),
            stored: self.stored.duplicate(),
            seed_history_replay: self.seed_history_replay.duplicate(),
            fork_requested: self.fork_requested.duplicate(),
            context_reset_reason: self.context_reset_reason.duplicate(),
            acp_session_id: self.acp_session_id.duplicate(),
            session_from_storage: self.session_from_storage.duplicate(),
            channels: self.channels.duplicate(),
            default_effort: self.default_effort.duplicate(),
            default_mode: self.default_mode.duplicate(),
        }
    }
}

/// What the watch over an adopted turn does next.
#[derive(Debug, Clone, Copy, PartialEq, Eq, Structural)]
pub enum ResumeWatch {
    Keep,
    Disarm,
    /// The turn is over, and its end is to be published.
    Stop,
}

impl DeepView for ResumeWatch {
    type V = ResumeWatch;

    open spec fn deep_view(&self) -> ResumeWatch {
        *self
    }
}

impl Duplicate for ResumeWatch {
    fn duplicate(&self) -> (r: Self) {
        *self
    }
}

/// How long an adopted turn may be silent. Only debug builds can be told
/// otherwise, and not to less than a tenth of a second.
pub open spec fn idle_grace(debug: bool, raw: Option<Seq<char>>) -> u64 {
    match raw {
        Some(raw) => match text::u64_of(raw) {
            Some(ms) => if !debug {
                RESUME_IDLE_GRACE_DEFAULT_MS
            } else if ms < 100 {
                100
            } else {
                ms
            },
            None => RESUME_IDLE_GRACE_DEFAULT_MS,
        },
        None => RESUME_IDLE_GRACE_DEFAULT_MS,
    }
}

/// How long an adopted turn may be silent, in milliseconds. `raw` is what the
/// environment says about it.
pub fn resume_idle_grace(debug: bool, raw: Option<&str>) -> (r: u64)
    ensures
        r == idle_grace(
            debug,
            match raw {
                Some(raw) => Some(raw@),
                None => None,
            },
        ),
{
    if debug {
        if let Some(raw) = raw {
            if let Some(ms) = text::parse_u64(raw) {
                return if ms < 100 {
                    100
                } else {
                    ms
                };
            }
        }
    }
    RESUME_IDLE_GRACE_DEFAULT_MS
}

/// What the watch over an adopted turn does next. The watch ends with
/// whatever publishes the turn's end, with a prompt, and with any news of the
/// turn, after which silence means nothing.
pub open spec fn resume_watch(state: SharedV, grace_ms: i64, now_ms: i64) -> ResumeWatch {
    if state.turn.terminal.is_claimed() || state.prompt_sent_since_attach
        || state.first_event_after_attach {
        ResumeWatch::Disarm
    } else if now_ms - state.last_event_at >= grace_ms {
        ResumeWatch::Stop
    } else {
        ResumeWatch::Keep
    }
}

/// What is published at the end of an adopted turn that was silent.
pub open spec fn reattach_idle() -> EventV {
    EventV::Stopped { reason: "reattach_idle"@ }
}

/// The end of an adopted turn that stayed silent, as it is published.
pub fn reattach_idle_event() -> (r: Event)
    ensures
        r.deep_view() == reattach_idle(),
{
    Event::Stopped { reason: "reattach_idle".to_owned() }
}

/// Whether a turn was running before the connection was made.
pub open spec fn adopts_turn(mode: ConnectModeV) -> bool {
    mode matches ConnectModeV::Resume { in_flight_turn, .. } && in_flight_turn
}

/// The id that a session has before it is established, where no runner knows
/// better.
pub open spec fn initial_id(mode: ConnectModeV) -> Option<Seq<char>> {
    match mode {
        ConnectModeV::Resume { acp_session_id, .. } => Some(acp_session_id),
        ConnectModeV::Fresh { .. } => None,
    }
}

/// What is done once the agent has answered the handshake.
pub open spec fn init_actions(
    incompatible: Option<IncompatibilityV>,
    facts: AgentFacts,
) -> Seq<StartupActionV> {
    match incompatible {
        Some(reason) => seq![
            StartupActionV::Ready {
                error: Some(
                    AcpErrorV::IncompatibleAgent { detail: reason.detail, message: reason.message },
                ),
            },
        ],
        None => seq![
            StartupActionV::Publish(
                EventV::PromptCapabilities {
                    image: facts.image,
                    audio: facts.audio,
                    embedded_context: facts.embedded_context,
                    load_session: Some(facts.load_session),
                    steering: facts.steering,
                },
            ),
            StartupActionV::Ready { error: None },
        ],
    }
}

/// What is said about a connection that has failed.
pub open spec fn failure_text(error: Seq<char>) -> Seq<char> {
    "ACP connection failed: "@ + error
}

/// What is done about a connection that has failed. Whoever still waits for
/// the handshake is told, and nobody else. Otherwise a limit, or a context
/// that was lost, ends the turn without an error.
pub open spec fn end_actions(
    ready_pending: bool,
    context_reset: bool,
    message: Seq<char>,
    rate_limit: Option<RateLimitInfoV>,
) -> Seq<StartupActionV> {
    if ready_pending {
        seq![
            StartupActionV::Ready {
                error: Some(
                    match rate_limit {
                        Some(info) => AcpErrorV::RateLimited(info),
                        None => AcpErrorV::Spawn(message),
                    },
                ),
            },
        ]
    } else {
        match rate_limit {
            Some(info) => seq![
                StartupActionV::Publish(EventV::RateLimit { info }),
                StartupActionV::Publish(EventV::Stopped { reason: "rate_limited"@ }),
            ],
            None => if context_reset {
                seq![
                    StartupActionV::Publish(EventV::Stopped { reason: "stored_session_rejected"@ }),
                ]
            } else {
                seq![StartupActionV::Publish(EventV::AgentStartupError { message })]
            },
        }
    }
}

/// What is done about a connection that has failed.
pub fn connection_failed(
    ready_pending: bool,
    context_reset: bool,
    message: String,
    rate_limit: Option<RateLimitInfo>,
) -> (r: Vec<StartupAction>)
    ensures
        r.deep_view() == end_actions(
            ready_pending,
            context_reset,
            message@,
            rate_limit.deep_view(),
        ),
{
    if ready_pending {
        let error = match rate_limit {
            Some(info) => AcpError::RateLimited(info),
            None => AcpError::Spawn(message),
        };
        return model::one(StartupAction::Ready { error: Some(error) });
    }
    match rate_limit {
        Some(info) => model::two(
            StartupAction::Publish(Event::RateLimit { info }),
            StartupAction::Publish(Event::Stopped { reason: "rate_limited".to_owned() }),
        ),
        None => {
            if context_reset {
                let reason = "stored_session_rejected".to_owned();
                model::one(StartupAction::Publish(Event::Stopped { reason }))
            } else {
                model::one(StartupAction::Publish(Event::AgentStartupError { message }))
            }
        },
    }
}

/// What is said about a connection that has failed.
pub fn failure_message(error: &str) -> (r: String)
    ensures
        r@ == failure_text(error@),
{
    text::cat("ACP connection failed: ", error)
}

impl ConnectMode {
    /// Whether a turn was running before the connection was made.
    pub fn adopts_turn(&self) -> (r: bool)
        ensures
            r == adopts_turn(self.deep_view()),
    {
        match self {
            ConnectMode::Resume { in_flight_turn, .. } => *in_flight_turn,
            ConnectMode::Fresh { .. } => false,
        }
    }

    /// The id that the session has before it is established, where no runner
    /// knows better.
    pub fn initial_id(&self) -> (r: Option<String>)
        ensures
            r.deep_view() == initial_id(self.deep_view()),
    {
        match self {
            ConnectMode::Resume { acp_session_id, .. } => Some(acp_session_id.clone()),
            ConnectMode::Fresh { .. } => None,
        }
    }
}

impl Shared {
    /// Looks at an adopted turn. Where the result is to stop, the turn's end
    /// is taken, and the caller publishes it.
    pub fn resume_idle_tick(&mut self, grace_ms: i64, now_ms: i64) -> (r: ResumeWatch)
        requires
            i64::MIN <= now_ms - old(self).last_event_at <= i64::MAX,
        ensures
            r == resume_watch(old(self).deep_view(), grace_ms, now_ms),
            final(self).deep_view() == (SharedV {
                turn: if r == ResumeWatch::Stop {
                    control::TurnOwnership {
                        terminal: old(self).turn.terminal.taken(),
                        ..old(self).turn
                    }
                } else {
                    old(self).turn
                },
                ..old(self).deep_view()
            }),
    {
        if self.turn.terminal.claimed() || self.prompt_sent_since_attach
            || self.first_event_after_attach {
            return ResumeWatch::Disarm;
        }
        if now_ms - self.last_event_at >= grace_ms {
            self.turn.terminal.claim();
            return ResumeWatch::Stop;
        }
        ResumeWatch::Keep
    }

    /// Goes on once the agent has answered the handshake. Where the client
    /// cannot work with the agent, that is all that is said, and the
    /// connection ends.
    pub fn on_initialized(
        &mut self,
        incompatible: Option<Incompatibility>,
        facts: &AgentFacts,
        mode: &ConnectMode,
    ) -> (r: Vec<StartupAction>)
        ensures
            r.deep_view() == init_actions(incompatible.deep_view(), *facts),
            final(self).deep_view() == (if incompatible.deep_view() is Some {
                old(self).deep_view()
            } else {
                SharedV {
                    adopted_turn_active: adopts_turn(mode.deep_view()),
                    ..old(self).deep_view()
                }
            }),
    {
        match incompatible {
            Some(reason) => {
                let error = AcpError::IncompatibleAgent {
                    detail: reason.detail,
                    message: reason.message,
                };
                model::one(StartupAction::Ready { error: Some(error) })
            },
            None => {
                self.adopted_turn_active = mode.adopts_turn();
                model::two(
                    StartupAction::Publish(
                        Event::PromptCapabilities {
                            image: facts.image,
                            audio: facts.audio,
                            embedded_context: facts.embedded_context,
                            load_session: Some(facts.load_session),
                            steering: facts.steering,
                        },
                    ),
                    StartupAction::Ready { error: None },
                )
            },
        }
    }
}

/// A session with the given id is committed: its id is settled and announced,
/// and then its updates are applied.
pub open spec fn committed(id: Seq<char>) -> Seq<SessionActionV> {
    seq![
        SessionActionV::FinishTransition { acp_session_id: id },
        SessionActionV::Publish(EventV::AcpSessionAssigned { acp_session_id: id }),
        SessionActionV::ApplyReplay,
    ]
}

/// What is published about a context that was lost.
pub open spec fn context_reset(reason: Seq<char>) -> SessionActionV {
    SessionActionV::Publish(EventV::SessionContextReset { reason })
}

/// A session without modes or options.
pub open spec fn no_channels() -> SessionChannelsV {
    SessionChannelsV {
        available_mode_ids: None,
        mode_config_option_id: None,
        model_config_option_id: None,
        thought_level_config_option_id: None,
    }
}

/// A session that is to be established, before anything is asked.
pub open spec fn to_establish(
    mode: ConnectModeV,
    facts: AgentFacts,
    default_effort: Option<Seq<char>>,
    default_mode: Option<Seq<char>>,
) -> EstablishV {
    let start = EstablishV {
        load_capable: facts.load_session,
        stored: None,
        seed_history_replay: false,
        fork_requested: false,
        context_reset_reason: None,
        acp_session_id: None,
        session_from_storage: false,
        channels: no_channels(),
        default_effort,
        default_mode,
    };
    match mode {
        ConnectModeV::Resume { acp_session_id, .. } => EstablishV {
            stored: Some(acp_session_id),
            session_from_storage: true,
            ..start
        },
        ConnectModeV::Fresh { stored_acp_session_id, seed_history_replay, fork_from } => {
            let fork_requested = fork_from matches Some(parent) && parent.len() > 0;
            EstablishV {
                stored: stored_acp_session_id,
                seed_history_replay,
                fork_requested,
                context_reset_reason: if stored_acp_session_id is Some && !facts.load_session
                    && !fork_requested {
                    Some("session/load unavailable; started a new session with empty context"@)
                } else {
                    None
                },
                ..start
            }
        },
    }
}

/// How a new session is asked for.
pub open spec fn ask_new() -> EstablishStepV {
    EstablishStepV {
        actions: seq![SessionActionV::BeginTransition],
        next: EstablishNextV::Request(EstablishRequestV::New),
    }
}

/// How a session is asked for that is not forked: the stored one is loaded,
/// where there is one and the agent can. What the agent replays of it is held
/// back, unless it is wanted; it is held back before the request is sent, as
/// the replay comes before the answer.
pub open spec fn load_or_new(state: EstablishV, suppressing: bool) -> (bool, EstablishStepV) {
    match state.stored {
        Some(stored) => if state.load_capable {
            (
                suppressing || !state.seed_history_replay,
                EstablishStepV {
                    actions: seq![SessionActionV::FinishTransition { acp_session_id: stored }],
                    next: EstablishNextV::Request(EstablishRequestV::Load { stored }),
                },
            )
        } else {
            (suppressing, ask_new())
        },
        None => (suppressing, ask_new()),
    }
}

/// What is asked for first, and whether a replay is held back. A fork that
/// the agent cannot make is reported, and a session is asked for in another
/// way.
pub open spec fn first_step(
    mode: ConnectModeV,
    facts: AgentFacts,
    state: EstablishV,
    suppressing: bool,
) -> (bool, EstablishStepV) {
    match mode {
        ConnectModeV::Resume { acp_session_id, .. } => (
            suppressing,
            EstablishStepV {
                actions: seq![],
                next: EstablishNextV::Request(EstablishRequestV::Resume { stored: acp_session_id }),
            },
        ),
        ConnectModeV::Fresh { fork_from, .. } => if handshake::forks(fork_from, facts.fork) {
            (
                suppressing,
                EstablishStepV {
                    actions: seq![SessionActionV::BeginTransition],
                    next: EstablishNextV::Request(
                        EstablishRequestV::Fork { parent: fork_from->0 },
                    ),
                },
            )
        } else {
            let (after, step) = load_or_new(state, suppressing);
            if state.fork_requested {
                (
                    after,
                    EstablishStepV {
                        actions: seq![context_reset("fork_unsupported_by_agent"@)] + step.actions,
                        ..step
                    },
                )
            } else {
                (after, step)
            }
        },
    }
}

impl EstablishV {
    /// What is asked for once there is a session: its reasoning effort, where
    /// one is wanted and the session has an option for it.
    pub open spec fn from_effort(self) -> EstablishNextV {
        match command_loop::request_of(
            self.channels.thought_level_config_option_id,
            self.default_effort,
        ) {
            Some(request) => EstablishNextV::Request(EstablishRequestV::SetEffort(request)),
            None => EstablishNextV::Established,
        }
    }

    /// What is asked for once there is a new session: its mode, where one is
    /// wanted and the session has an option for it.
    pub open spec fn from_mode(self) -> EstablishNextV {
        match command_loop::request_of(self.channels.mode_config_option_id, self.default_mode) {
            Some(request) => EstablishNextV::Request(EstablishRequestV::SetMode(request)),
            None => self.from_effort(),
        }
    }

    /// The session once the agent has made it.
    pub open spec fn created(self, created: NewSessionV) -> EstablishV {
        EstablishV {
            acp_session_id: Some(created.session_id),
            channels: config_options::channels_of(created.modes, created.config_options),
            ..self
        }
    }
}

/// A connection that fails.
pub open spec fn failed_step() -> EstablishStepV {
    EstablishStepV { actions: seq![], next: EstablishNextV::Failed }
}

/// What is done once it is known which session is resumed; nothing stands for
/// a failure.
pub open spec fn resume_reply(state: EstablishV, id: Option<Seq<char>>) -> (
    EstablishV,
    EstablishStepV,
) {
    match id {
        Some(id) => {
            let after = EstablishV { acp_session_id: Some(id), ..state };
            (after, EstablishStepV { actions: committed(id), next: after.from_effort() })
        },
        None => (state, failed_step()),
    }
}

/// What is done once the request to fork is answered. There is no other way
/// to get a fork, so a failure is one of the connection; it is announced, so
/// that the fork is not tried again.
pub open spec fn fork_reply(state: EstablishV, reply: SessionReplyV) -> (
    EstablishV,
    EstablishStepV,
) {
    match reply {
        SessionReplyV::Created(created) => {
            let after = state.created(created);
            (
                after,
                EstablishStepV {
                    actions: committed(created.session_id) + command_loop::announced(
                        created.modes,
                        created.config_options,
                    ),
                    next: after.from_effort(),
                },
            )
        },
        SessionReplyV::Failed { text } => (
            state,
            EstablishStepV {
                actions: seq![context_reset("fork_failed: "@ + text)],
                next: EstablishNextV::Failed,
            },
        ),
    }
}

/// What is done once the request to load is answered, and whether a replay is
/// still held back. A session whose replay is wanted has no other way; any
/// other is replaced by a new one.
pub open spec fn load_reply(state: EstablishV, suppressing: bool, reply: LoadReplyV) -> (
    EstablishV,
    bool,
    EstablishStepV,
) {
    let stored = state.stored->0;
    match reply {
        LoadReplyV::Loaded { modes, config_options } => {
            let after = EstablishV {
                acp_session_id: Some(stored),
                session_from_storage: true,
                channels: config_options::channels_of(modes, config_options),
                ..state
            };
            let assigned = SessionActionV::Publish(
                EventV::AcpSessionAssigned { acp_session_id: stored },
            );
            (
                after,
                suppressing,
                EstablishStepV {
                    actions: seq![assigned] + command_loop::announced(None, config_options),
                    next: after.from_effort(),
                },
            )
        },
        LoadReplyV::Failed { text } => if state.seed_history_replay {
            (state, suppressing, failed_step())
        } else {
            (
                EstablishV {
                    context_reset_reason: if state.fork_requested {
                        state.context_reset_reason
                    } else {
                        Some("session/load failed: "@ + text)
                    },
                    ..state
                },
                false,
                EstablishStepV {
                    actions: seq![SessionActionV::AbandonTransition] + ask_new().actions,
                    next: ask_new().next,
                },
            )
        },
    }
}

/// What is done once the request for a new session is answered. A context
/// that was lost is announced only once there is a session to take its place.
pub open spec fn new_reply(state: EstablishV, reply: SessionReplyV) -> (
    EstablishV,
    EstablishStepV,
) {
    match reply {
        SessionReplyV::Created(created) => {
            let after = state.created(created);
            let lost = match state.context_reset_reason {
                Some(reason) => seq![context_reset(reason)],
                None => seq![],
            };
            (
                after,
                EstablishStepV {
                    actions: lost + committed(created.session_id) + command_loop::announced(
                        created.modes,
                        created.config_options,
                    ),
                    next: after.from_mode(),
                },
            )
        },
        SessionReplyV::Failed { text } => (state, failed_step()),
    }
}

/// What is published once the request to set an option is answered. A refusal
/// does not keep the session from being established.
pub open spec fn option_reply(reply: OptionReplyV) -> Seq<SessionActionV> {
    match reply {
        OptionReplyV::Accepted(options) => command_loop::announced(None, Some(options)),
        _ => seq![],
    }
}

fn commit(id: &String) -> (r: Vec<SessionAction>)
    ensures
        r.deep_view() == committed(id@),
{
    let mut r = model::two(
        SessionAction::FinishTransition { acp_session_id: id.clone() },
        SessionAction::Publish(Event::AcpSessionAssigned { acp_session_id: id.clone() }),
    );
    model::push(&mut r, SessionAction::ApplyReplay);
    proof {
        assert(r.deep_view() =~= committed(id@));
    }
    r
}

fn publish_reset(reason: String) -> (r: SessionAction)
    ensures
        r.deep_view() == context_reset(reason@),
{
    SessionAction::Publish(Event::SessionContextReset { reason })
}

fn request_new() -> (r: EstablishStep)
    ensures
        r.deep_view() == ask_new(),
{
    EstablishStep {
        actions: model::one(SessionAction::BeginTransition),
        next: EstablishNext::Request(EstablishRequest::New),
    }
}

fn request_option(config_id: &Option<String>, value: &Option<String>) -> (r: Option<OptionRequest>)
    ensures
        r.deep_view() == command_loop::request_of(config_id.deep_view(), value.deep_view()),
{
    match (config_id, value) {
        (Some(config_id), Some(value)) => Some(
            OptionRequest { config_id: config_id.clone(), value: value.clone() },
        ),
        _ => None,
    }
}

fn without_channels() -> (r: SessionChannels)
    ensures
        r.deep_view() == no_channels(),
{
    SessionChannels {
        available_mode_ids: None,
        mode_config_option_id: None,
        model_config_option_id: None,
        thought_level_config_option_id: None,
    }
}

fn prepare(
    mode: &ConnectMode,
    facts: &AgentFacts,
    default_effort: Option<String>,
    default_mode: Option<String>,
) -> (r: Establish)
    ensures
        r.deep_view() == to_establish(
            mode.deep_view(),
            *facts,
            default_effort.deep_view(),
            default_mode.deep_view(),
        ),
{
    let mut state = Establish {
        load_capable: facts.load_session,
        stored: None,
        seed_history_replay: false,
        fork_requested: false,
        context_reset_reason: None,
        acp_session_id: None,
        session_from_storage: false,
        channels: without_channels(),
        default_effort,
        default_mode,
    };
    match mode {
        ConnectMode::Resume { acp_session_id, .. } => {
            state.stored = Some(acp_session_id.clone());
            state.session_from_storage = true;
        },
        ConnectMode::Fresh { stored_acp_session_id, seed_history_replay, fork_from } => {
            let fork_requested = match fork_from {
                Some(parent) => !text::is_empty(parent.as_str()),
                None => false,
            };
            state.stored = stored_acp_session_id.duplicate();
            state.seed_history_replay = *seed_history_replay;
            state.fork_requested = fork_requested;
            if stored_acp_session_id.is_some() && !facts.load_session && !fork_requested {
                state.context_reset_reason = Some(
                    "session/load unavailable; started a new session with empty context".to_owned(),
                );
            }
        },
    }
    state
}

impl Establish {
    fn load_or_new(&self, shared: &mut Shared) -> (r: EstablishStep)
        ensures
            ({
                let (suppressing, step) = load_or_new(
                    self.deep_view(),
                    old(shared).deep_view().suppress_history_replay,
                );
                &&& final(shared).deep_view() == (SharedV {
                    suppress_history_replay: suppressing,
                    ..old(shared).deep_view()
                })
                &&& r.deep_view() == step
            }),
    {
        match &self.stored {
            Some(stored) => {
                if !self.load_capable {
                    return request_new();
                }
                if !self.seed_history_replay {
                    shared.suppress_history_replay = true;
                }
                EstablishStep {
                    actions: model::one(
                        SessionAction::FinishTransition { acp_session_id: stored.clone() },
                    ),
                    next: EstablishNext::Request(EstablishRequest::Load { stored: stored.clone() }),
                }
            },
            None => request_new(),
        }
    }

    /// Starts to establish a session.
    pub fn start(
        mode: &ConnectMode,
        facts: &AgentFacts,
        default_effort: Option<String>,
        default_mode: Option<String>,
        shared: &mut Shared,
    ) -> (r: (Self, EstablishStep))
        ensures
            r.0.deep_view() == to_establish(
                mode.deep_view(),
                *facts,
                default_effort.deep_view(),
                default_mode.deep_view(),
            ),
            ({
                let (suppressing, step) = first_step(
                    mode.deep_view(),
                    *facts,
                    r.0.deep_view(),
                    old(shared).deep_view().suppress_history_replay,
                );
                &&& final(shared).deep_view() == (SharedV {
                    suppress_history_replay: suppressing,
                    ..old(shared).deep_view()
                })
                &&& r.1.deep_view() == step
            }),
    {
        let state = prepare(mode, facts, default_effort, default_mode);
        let step = match mode {
            ConnectMode::Resume { acp_session_id, .. } => EstablishStep {
                actions: model::empty(),
                next: EstablishNext::Request(
                    EstablishRequest::Resume { stored: acp_session_id.clone() },
                ),
            },
            ConnectMode::Fresh { fork_from, .. } => {
                let parent = match fork_from {
                    Some(parent) => Some(parent.as_str()),
                    None => None,
                };
                if should_fork(parent, facts.fork) {
                    let parent = match parent {
                        Some(parent) => parent.to_owned(),
                        None => String::new(),
                    };
                    EstablishStep {
                        actions: model::one(SessionAction::BeginTransition),
                        next: EstablishNext::Request(EstablishRequest::Fork { parent }),
                    }
                } else {
                    let step = state.load_or_new(shared);
                    if state.fork_requested {
                        let mut actions = model::one(
                            publish_reset("fork_unsupported_by_agent".to_owned()),
                        );
                        model::extend(&mut actions, step.actions);
                        EstablishStep { actions, next: step.next }
                    } else {
                        step
                    }
                }
            },
        };
        (state, step)
    }

    fn effort_next(&self) -> (r: EstablishNext)
        ensures
            r.deep_view() == self.deep_view().from_effort(),
    {
        match request_option(&self.channels.thought_level_config_option_id, &self.default_effort) {
            Some(request) => EstablishNext::Request(EstablishRequest::SetEffort(request)),
            None => EstablishNext::Established,
        }
    }

    fn mode_next(&self) -> (r: EstablishNext)
        ensures
            r.deep_view() == self.deep_view().from_mode(),
    {
        match request_option(&self.channels.mode_config_option_id, &self.default_mode) {
            Some(request) => EstablishNext::Request(EstablishRequest::SetMode(request)),
            None => self.effort_next(),
        }
    }

    fn take(&mut self, created: NewSession) -> (r: Vec<SessionAction>)
        ensures
            final(self).deep_view() == old(self).deep_view().created(created.deep_view()),
            r.deep_view() == committed(created.deep_view().session_id) + command_loop::announced(
                created.deep_view().modes,
                created.deep_view().config_options,
            ),
    {
        let mut actions = commit(&created.session_id);
        let more = announce(&created.modes, &created.config_options);
        model::extend(&mut actions, more);
        self.channels = SessionChannels::new(&created.modes, &created.config_options);
        self.acp_session_id = Some(created.session_id);
        actions
    }

    /// Goes on once it is known which session is resumed; nothing stands for
    /// a failure.
    pub fn on_resume_reply(&mut self, id: Option<String>) -> (r: EstablishStep)
        ensures
            (final(self).deep_view(), r.deep_view()) == resume_reply(
                old(self).deep_view(),
                id.deep_view(),
            ),
    {
        match id {
            Some(id) => {
                let actions = commit(&id);
                self.acp_session_id = Some(id);
                EstablishStep { actions, next: self.effort_next() }
            },
            None => EstablishStep { actions: model::empty(), next: EstablishNext::Failed },
        }
    }

    /// Goes on once the request to fork is answered.
    pub fn on_fork_reply(&mut self, reply: SessionReply) -> (r: EstablishStep)
        ensures
            (final(self).deep_view(), r.deep_view()) == fork_reply(
                old(self).deep_view(),
                reply.deep_view(),
            ),
    {
        match reply {
            SessionReply::Created(created) => {
                let actions = self.take(created);
                EstablishStep { actions, next: self.effort_next() }
            },
            SessionReply::Failed { text } => EstablishStep {
                actions: model::one(publish_reset(text::cat("fork_failed: ", text.as_str()))),
                next: EstablishNext::Failed,
            },
        }
    }

    /// Goes on once the request to load is answered.
    pub fn on_load_reply(&mut self, shared: &mut Shared, reply: LoadReply) -> (r: EstablishStep)
        requires
            old(self).deep_view().stored is Some,
        ensures
            ({
                let (after, suppressing, step) = load_reply(
                    old(self).deep_view(),
                    old(shared).deep_view().suppress_history_replay,
                    reply.deep_view(),
                );
                &&& final(self).deep_view() == after
                &&& final(shared).deep_view() == (SharedV {
                    suppress_history_replay: suppressing,
                    ..old(shared).deep_view()
                })
                &&& r.deep_view() == step
            }),
    {
        match reply {
            LoadReply::Loaded { modes, config_options } => {
                let stored = match &self.stored {
                    Some(stored) => stored.clone(),
                    None => String::new(),
                };
                let mut actions = model::one(
                    SessionAction::Publish(
                        Event::AcpSessionAssigned { acp_session_id: stored.clone() },
                    ),
                );
                let more = announce(&None, &config_options);
                model::extend(&mut actions, more);
                self.session_from_storage = true;
                self.channels = SessionChannels::new(&modes, &config_options);
                self.acp_session_id = Some(stored);
                EstablishStep { actions, next: self.effort_next() }
            },
            LoadReply::Failed { text } => {
                if self.seed_history_replay {
                    return EstablishStep { actions: model::empty(), next: EstablishNext::Failed };
                }
                shared.suppress_history_replay = false;
                if !self.fork_requested {
                    self.context_reset_reason = Some(
                        text::cat("session/load failed: ", text.as_str()),
                    );
                }
                let mut actions = model::one(SessionAction::AbandonTransition);
                let step = request_new();
                model::extend(&mut actions, step.actions);
                EstablishStep { actions, next: step.next }
            },
        }
    }

    /// Goes on once the request for a new session is answered.
    pub fn on_new_reply(&mut self, reply: SessionReply) -> (r: EstablishStep)
        ensures
            (final(self).deep_view(), r.deep_view()) == new_reply(
                old(self).deep_view(),
                reply.deep_view(),
            ),
    {
        match reply {
            SessionReply::Created(created) => {
                let ghost made = created.deep_view();
                let mut actions: Vec<SessionAction> = match &self.context_reset_reason {
                    Some(reason) => model::one(publish_reset(reason.clone())),
                    None => model::empty(),
                };
                let ghost lost = actions.deep_view();
                let more = self.take(created);
                model::extend(&mut actions, more);
                proof {
                    assert(actions.deep_view() =~= lost + committed(made.session_id)
                        + command_loop::announced(made.modes, made.config_options));
                }
                EstablishStep { actions, next: self.mode_next() }
            },
            SessionReply::Failed { text } => EstablishStep {
                actions: model::empty(),
                next: EstablishNext::Failed,
            },
        }
    }

    /// Goes on once the request to set the mode is answered.
    pub fn on_mode_reply(&self, reply: OptionReply) -> (r: EstablishStep)
        ensures
            r.deep_view() == (EstablishStepV {
                actions: option_reply(reply.deep_view()),
                next: self.deep_view().from_effort(),
            }),
    {
        EstablishStep { actions: option_actions(reply), next: self.effort_next() }
    }

    /// Goes on once the request to set the reasoning effort is answered.
    pub fn on_effort_reply(&self, reply: OptionReply) -> (r: EstablishStep)
        ensures
            r.deep_view() == (EstablishStepV {
                actions: option_reply(reply.deep_view()),
                next: EstablishNextV::Established,
            }),
    {
        EstablishStep { actions: option_actions(reply), next: EstablishNext::Established }
    }

    /// The session that was established.
    pub fn into_session(
        self,
        steering_capable: bool,
        grok_shell: bool,
        default_model: Option<String>,
    ) -> (r: Option<Session>)
        ensures
            r.deep_view() == (match self.deep_view().acp_session_id {
                Some(acp_session_id) => Some(
                    SessionV {
                        acp_session_id,
                        session_from_storage: self.session_from_storage,
                        channels: self.deep_view().channels,
                        steering_capable,
                        grok_shell,
                        default_effort: self.deep_view().default_effort,
                        default_mode: self.deep_view().default_mode,
                        default_model: default_model.deep_view(),
                        pending_prompts: seq![],
                    },
                ),
                None => None,
            }),
    {
        match self.acp_session_id {
            Some(acp_session_id) => Some(
                Session {
                    acp_session_id,
                    session_from_storage: self.session_from_storage,
                    channels: self.channels,
                    steering_capable,
                    grok_shell,
                    default_effort: self.default_effort,
                    default_mode: self.default_mode,
                    default_model,
                    pending_prompts: model::empty(),
                },
            ),
            None => None,
        }
    }
}

fn option_actions(reply: OptionReply) -> (r: Vec<SessionAction>)
    ensures
        r.deep_view() == option_reply(reply.deep_view()),
{
    match reply {
        OptionReply::Accepted(options) => announce(&None, &Some(options)),
        _ => model::empty(),
    }
}

/// What a resumed session asks of the agent: nothing. Its id is announced,
/// and it is established.
pub proof fn law_resuming_leaves_the_agent_alone(
    mode: ConnectModeV,
    facts: AgentFacts,
    default_effort: Option<Seq<char>>,
    default_mode: Option<Seq<char>>,
    suppressing: bool,
    id: Seq<char>,
)
    requires
        mode is Resume,
    ensures
        ({
            let state = to_establish(mode, facts, default_effort, default_mode);
            let (held, step) = first_step(mode, facts, state, suppressing);
            let (after, done) = resume_reply(state, Some(id));
            &&& held == suppressing
            &&& step.actions.len() == 0
            &&& step.next matches EstablishNextV::Request(request) && request is Resume
            &&& done.actions == committed(id)
            &&& done.next is Established
            &&& after.session_from_storage
        }),
{
}

/// A fork that was asked for and that the agent can make never turns into an
/// empty session: where it fails, the connection fails, and the failure is
/// announced, so that it is not tried again.
pub proof fn law_a_fork_is_a_fork(
    mode: ConnectModeV,
    facts: AgentFacts,
    state: EstablishV,
    suppressing: bool,
    text: Seq<char>,
)
    requires
        mode matches ConnectModeV::Fresh { fork_from, .. } && handshake::forks(
            fork_from,
            facts.fork,
        ),
    ensures
        first_step(mode, facts, state, suppressing).1.next matches EstablishNextV::Request(
            EstablishRequestV::Fork { parent },
        ) && mode->fork_from == Some(parent),
        fork_reply(state, SessionReplyV::Failed { text }).1 == (EstablishStepV {
            actions: seq![context_reset("fork_failed: "@ + text)],
            next: EstablishNextV::Failed,
        }),
{
}

/// A session whose replay is wanted is loaded or not had at all: no new
/// session takes its place, and its id is not announced.
pub proof fn law_an_import_is_not_replaced(state: EstablishV, suppressing: bool, text: Seq<char>)
    requires
        state.seed_history_replay,
    ensures
        load_reply(state, suppressing, LoadReplyV::Failed { text }).2 == failed_step(),
{
}

/// The replay of a stored session is held back even before the session is
/// asked for, unless the session is imported, whose replay is wanted. Where the
/// load fails and a new session takes its place, nothing is held back any more.
pub proof fn law_only_known_transcripts_are_held_back(
    state: EstablishV,
    suppressing: bool,
    text: Seq<char>,
)
    requires
        state.load_capable,
        state.stored is Some,
        !suppressing,
    ensures
        load_or_new(state, suppressing).0 == !state.seed_history_replay,
        load_or_new(state, suppressing).1.next matches EstablishNextV::Request(
            EstablishRequestV::Load { stored },
        ) && state.stored == Some(stored),
        !state.seed_history_replay ==> !load_reply(
            state,
            true,
            LoadReplyV::Failed { text },
        ).1,
{
}

/// Where a stored session could not be had and a new one takes its place, the
/// user is told, before the new session is announced; unless a fork was asked
/// for, of which the user was told already.
pub proof fn law_lost_context_is_announced(
    mode: ConnectModeV,
    facts: AgentFacts,
    default_effort: Option<Seq<char>>,
    default_mode: Option<Seq<char>>,
    suppressing: bool,
    text: Seq<char>,
    created: NewSessionV,
)
    requires
        mode matches ConnectModeV::Fresh { stored_acp_session_id, seed_history_replay, .. }
            && stored_acp_session_id is Some && !seed_history_replay,
    ensures
        ({
            let start = to_establish(mode, facts, default_effort, default_mode);
            let state = if facts.load_session {
                load_reply(start, suppressing, LoadReplyV::Failed { text }).0
            } else {
                start
            };
            let actions = new_reply(state, SessionReplyV::Created(created)).1.actions;
            let assigned = SessionActionV::Publish(
                EventV::AcpSessionAssigned { acp_session_id: created.session_id },
            );
            if start.fork_requested {
                actions[1] == assigned
            } else {
                &&& actions[0] == context_reset(
                    if facts.load_session {
                        "session/load failed: "@ + text
                    } else {
                        "session/load unavailable; started a new session with empty context"@
                    },
                )
                &&& actions[2] == assigned
            }
        }),
{
}

/// A fork that the agent cannot make is reported first, and then the session
/// is had in another way.
pub proof fn law_an_impossible_fork_is_reported(
    mode: ConnectModeV,
    facts: AgentFacts,
    default_effort: Option<Seq<char>>,
    default_mode: Option<Seq<char>>,
    suppressing: bool,
)
    requires
        mode matches ConnectModeV::Fresh { fork_from, .. } && fork_from matches Some(parent)
            && parent.len() > 0,
        !facts.fork,
    ensures
        ({
            let state = to_establish(mode, facts, default_effort, default_mode);
            let (_, step) = first_step(mode, facts, state, suppressing);
            &&& step.actions[0] == context_reset("fork_unsupported_by_agent"@)
            &&& step.next == load_or_new(state, suppressing).1.next
        }),
{
}

/// The reasoning effort that a session carries is set whichever way the
/// session was established, as long as the session has an option for it.
pub proof fn law_effort_outlives_a_restart(
    state: EstablishV,
    created: NewSessionV,
    suppressing: bool,
    effort: Seq<char>,
    config_id: Seq<char>,
)
    requires
        state.default_effort == Some(effort),
        config_options::channels_of(
            created.modes,
            created.config_options,
        ).thought_level_config_option_id == Some(config_id),
    ensures
        ({
            let asked = EstablishNextV::Request(
                EstablishRequestV::SetEffort(OptionRequestV { config_id, value: effort }),
            );
            let loaded = LoadReplyV::Loaded {
                modes: created.modes,
                config_options: created.config_options,
            };
            let made = new_reply(state, SessionReplyV::Created(created)).0;
            &&& fork_reply(state, SessionReplyV::Created(created)).1.next == asked
            &&& load_reply(state, suppressing, loaded).2.next == asked
            &&& made.from_effort() == asked
        }),
{
}

/// A session that was stored is told apart from one that the agent has just
/// made.
pub proof fn law_stored_sessions_are_remembered(
    mode: ConnectModeV,
    facts: AgentFacts,
    default_effort: Option<Seq<char>>,
    default_mode: Option<Seq<char>>,
    suppressing: bool,
    modes: Option<SessionModesV>,
    config_options: Option<Seq<ConfigOptionV>>,
    created: NewSessionV,
)
    requires
        mode is Fresh,
    ensures
        ({
            let state = to_establish(mode, facts, default_effort, default_mode);
            &&& load_reply(
                state,
                suppressing,
                LoadReplyV::Loaded { modes, config_options },
            ).0.session_from_storage
            &&& !new_reply(state, SessionReplyV::Created(created)).0.session_from_storage
            &&& !fork_reply(state, SessionReplyV::Created(created)).0.session_from_storage
        }),
{
}

/// An adopted turn of which there is any news is not ended for its silence,
/// and neither is one whose end was taken, or over which a prompt was sent.
pub proof fn law_only_silent_adopted_turns_are_ended(
    state: SharedV,
    grace_ms: i64,
    now_ms: i64,
)
    ensures
        resume_watch(state, grace_ms, now_ms) == ResumeWatch::Stop ==> {
            &&& !state.turn.terminal.is_claimed()
            &&& !state.prompt_sent_since_attach
            &&& !state.first_event_after_attach
            &&& now_ms - state.last_event_at >= grace_ms
        },
{
}

/// The ways in which the end of an adopted turn comes about.
pub enum EndingV {
    /// The watch over the turn looks at it.
    Watched { grace_ms: i64, now_ms: i64 },
    /// The turn has gone silent.
    Silent,
    /// The runner reports an end.
    Reported {
        prompt_req_id: i64,
        outcome: PromptOutcomeV,
        rate_limit: Option<RateLimitInfoV>,
    },
    /// The owner cancels or stops the turn.
    Requested,
}

/// What the end of an adopted turn changes.
#[verifier::ext_equal]
pub struct EndStateV {
    pub channel: ControlStateV,
    pub shared: SharedV,
}

/// What comes of one of the ways in which the end of an adopted turn comes
/// about, and whether it publishes that end by itself. A silent turn is no
/// adopted one any more once it was cleared away.
pub open spec fn ended_by(state: EndStateV, ending: EndingV) -> (EndStateV, bool) {
    match ending {
        EndingV::Watched { grace_ms, now_ms } => {
            let stops = resume_watch(state.shared, grace_ms, now_ms) == ResumeWatch::Stop;
            (
                EndStateV {
                    shared: SharedV {
                        turn: if stops {
                            control::TurnOwnership {
                                terminal: state.shared.turn.terminal.taken(),
                                ..state.shared.turn
                            }
                        } else {
                            state.shared.turn
                        },
                        ..state.shared
                    },
                    ..state
                },
                stops,
            )
        },
        EndingV::Silent => if state.shared.adopted_turn_active {
            let (shared, stop) = command_loop::idle_fired(state.shared);
            (EndStateV { shared, ..state }, stop is Some)
        } else {
            (state, false)
        },
        EndingV::Reported { prompt_req_id, outcome, rate_limit } => {
            let step = control::completion_step(
                state.channel,
                state.shared.turn,
                prompt_req_id,
                outcome,
                rate_limit,
            );
            (
                EndStateV {
                    channel: step.state,
                    shared: SharedV { turn: step.turn, ..state.shared },
                },
                exists|i: int| 0 <= i < step.actions.len() && (#[trigger] step.actions[i]) is Publish,
            )
        },
        EndingV::Requested => (
            EndStateV { shared: command_loop::stood_down(state.shared), ..state },
            false,
        ),
    }
}

/// What comes of the first `n` of them.
pub open spec fn end_state_at(start: EndStateV, endings: Seq<EndingV>, n: nat) -> EndStateV
    decreases n,
{
    if n == 0 {
        start
    } else {
        ended_by(end_state_at(start, endings, (n - 1) as nat), endings[n - 1]).0
    }
}

proof fn lemma_taken_ends_stay_taken(start: EndStateV, endings: Seq<EndingV>, m: nat, n: nat)
    requires
        m <= n,
        end_state_at(start, endings, m).shared.turn.terminal.is_claimed(),
    ensures
        end_state_at(start, endings, n).shared.turn.terminal.is_claimed(),
    decreases n - m,
{
    if m < n {
        lemma_taken_ends_stay_taken(start, endings, m, (n - 1) as nat);
    }
}

/// The end of an adopted turn is published once. The watch over the turn, the
/// look for silent turns and the runner's report may come in any order and any
/// number of times: after one of them has published the end, or after the
/// owner has cancelled or stopped the turn, none of them publishes it.
pub proof fn law_one_path_ends_an_adopted_turn(
    start: EndStateV,
    endings: Seq<EndingV>,
    i: int,
    j: int,
)
    requires
        0 <= i < j < endings.len(),
        endings[i] is Requested || ended_by(
            end_state_at(start, endings, i as nat),
            endings[i],
        ).1,
    ensures
        !ended_by(end_state_at(start, endings, j as nat), endings[j]).1,
{
    let after = ended_by(end_state_at(start, endings, i as nat), endings[i]).0;
    assert(end_state_at(start, endings, (i + 1) as nat) == after);
    assert(after.shared.turn.terminal.is_claimed());
    lemma_taken_ends_stay_taken(start, endings, (i + 1) as nat, j as nat);
}

/// An agent that the client cannot work with is reported to whoever waits for
/// the handshake, and nothing is published about it.
pub proof fn law_incompatible_agents_are_reported_once(
    reason: IncompatibilityV,
    facts: AgentFacts,
)
    ensures
        init_actions(Some(reason), facts).len() == 1,
        init_actions(Some(reason), facts)[0] is Ready,
{
}

/// A connection that fails before the handshake is over tells only whoever
/// waits for the handshake; one that fails later publishes something. A limit
/// is always told as a limit.
pub proof fn law_every_failure_is_told(
    context_reset: bool,
    message: Seq<char>,
    rate_limit: Option<RateLimitInfoV>,
)
    ensures
        end_actions(true, context_reset, message, rate_limit).len() == 1,
        end_actions(true, context_reset, message, rate_limit)[0] is Ready,
        end_actions(false, context_reset, message, rate_limit).len() > 0,
        end_actions(false, context_reset, message, rate_limit).last() is Publish,
        rate_limit matches Some(info) ==> {
            &&& end_actions(true, context_reset, message, rate_limit)[0] == (
            StartupActionV::Ready { error: Some(AcpErrorV::RateLimited(info)) })
            &&& end_actions(false, context_reset, message, rate_limit)[0]
                == StartupActionV::Publish(EventV::RateLimit { info })
        },
{
}

/// Whether the actions that establish a session announce it: its id is settled
/// before it is published, its updates are applied only then, and after them
/// comes what the agent's answer offers, up to the last of its config options.
pub open spec fn announces_session(actions: Seq<SessionActionV>, created: NewSessionV) -> bool {
    &&& actions.len() == 3 + (if created.modes is Some {
        1int
    } else {
        0
    }) + (if created.config_options is Some {
        1int
    } else {
        0
    })
    &&& actions[0] == SessionActionV::FinishTransition { acp_session_id: created.session_id }
    &&& actions[1] == SessionActionV::Publish(
        EventV::AcpSessionAssigned { acp_session_id: created.session_id },
    )
    &&& actions[2] is ApplyReplay
    &&& created.modes matches Some(own) ==> {
        &&& actions[3] matches SessionActionV::Publish(
            EventV::ModesAvailable { current_mode_id, modes },
        )
        &&& current_mode_id == own.current_mode_id
        &&& modes == own.available_modes
    }
    &&& created.config_options matches Some(list) ==> {
        &&& actions.last() matches SessionActionV::Publish(
            EventV::ConfigOptionsUpdated { options: shown },
        )
        &&& config_options::shows_options(shown, list)
    }
}

/// A session that the agent makes, as a new one or as a fork, is announced under
/// the agent's id with the modes and config options of the agent's answer, and
/// goes on under that id with these channels. Only a context that was lost is
/// told of before, and only where a new session takes its place.
pub proof fn law_a_made_session_is_announced(state: EstablishV, created: NewSessionV)
    ensures
        ({
            let (made, step) = new_reply(state, SessionReplyV::Created(created));
            let (forked, fork_step) = fork_reply(state, SessionReplyV::Created(created));
            let lost = if state.context_reset_reason is Some {
                1int
            } else {
                0
            };
            &&& announces_session(step.actions.skip(lost), created)
            &&& state.context_reset_reason matches Some(reason) ==> step.actions[0]
                == SessionActionV::Publish(EventV::SessionContextReset { reason })
            &&& announces_session(fork_step.actions, created)
            &&& made.acp_session_id == Some(created.session_id)
            &&& made.channels == config_options::channels_of(created.modes, created.config_options)
            &&& forked == made
            &&& made == (EstablishV {
                acp_session_id: made.acp_session_id,
                channels: made.channels,
                ..state
            })
        }),
{
    command_loop::law_offers_are_announced(created.modes, created.config_options);
    let told = committed(created.session_id) + command_loop::announced(
        created.modes,
        created.config_options,
    );
    let actions = new_reply(state, SessionReplyV::Created(created)).1.actions;
    if state.context_reset_reason is Some {
        assert(actions.skip(1) =~= told);
    } else {
        assert(actions.skip(0) =~= told);
    }
}

/// A stored session that the agent loads goes on under its own id, which is
/// announced first; what it offers is announced last, as in the agent's answer.
pub proof fn law_a_loaded_session_is_announced(
    state: EstablishV,
    suppressing: bool,
    modes: Option<SessionModesV>,
    config_options: Option<Seq<ConfigOptionV>>,
)
    requires
        state.stored is Some,
    ensures
        ({
            let reply = LoadReplyV::Loaded { modes, config_options };
            let (after, held, step) = load_reply(state, suppressing, reply);
            &&& held == suppressing
            &&& after.acp_session_id == state.stored
            &&& after.channels == config_options::channels_of(modes, config_options)
            &&& step.actions[0] == SessionActionV::Publish(
                EventV::AcpSessionAssigned { acp_session_id: state.stored->0 },
            )
            &&& step.actions.len() == if config_options is Some {
                2int
            } else {
                1
            }
            &&& config_options matches Some(list) ==> {
                &&& step.actions.last() matches SessionActionV::Publish(
                    EventV::ConfigOptionsUpdated { options: shown },
                )
                &&& config_options::shows_options(shown, list)
            }
        }),
{
    command_loop::law_offers_are_announced(None, config_options);
}

/// A resumed session goes on under the id that it has, and is announced under
/// it; where there is none, the connection fails.
pub proof fn law_a_resumed_session_keeps_its_id(state: EstablishV, id: Option<Seq<char>>)
    ensures
        ({
            let (after, step) = resume_reply(state, id);
            match id {
                Some(id) => {
                    &&& after == (EstablishV { acp_session_id: Some(id), ..state })
                    &&& step.actions.len() == 3
                    &&& step.actions[0] == SessionActionV::FinishTransition { acp_session_id: id }
                    &&& step.actions[1] == SessionActionV::Publish(
                        EventV::AcpSessionAssigned { acp_session_id: id },
                    )
                    &&& step.actions[2] is ApplyReplay
                    &&& step.next !is Failed
                },
                None => after == state && step.actions.len() == 0 && step.next is Failed,
            }
        }),
{
}

/// No session is taken for established where the agent did not make one: a new
/// session that is refused fails the connection, silently.
pub proof fn law_a_refused_session_fails(state: EstablishV, text: Seq<char>)
    ensures
        ({
            let (after, step) = new_reply(state, SessionReplyV::Failed { text });
            after == state && step.actions.len() == 0 && step.next is Failed
        }),
{
}

/// A stored session that cannot be loaded is given up before a new one is asked
/// for, and what was held back of its replay is held back no longer.
pub proof fn law_a_failed_load_asks_for_a_new_session(
    state: EstablishV,
    suppressing: bool,
    text: Seq<char>,
)
    requires
        !state.seed_history_replay,
    ensures
        ({
            let (after, held, step) = load_reply(
                state,
                suppressing,
                LoadReplyV::Failed { text },
            );
            &&& !held
            &&& step.actions.len() == 2
            &&& step.actions[0] is AbandonTransition
            &&& step.actions[1] is BeginTransition
            &&& step.next == EstablishNextV::Request(EstablishRequestV::New)
            &&& after == (EstablishV {
                context_reset_reason: after.context_reset_reason,
                ..state
            })
            &&& after.context_reset_reason == if state.fork_requested {
                state.context_reset_reason
            } else {
                Some("session/load failed: "@ + text)
            }
        }),
{
}

/// A new session gets the mode that is wanted, then the reasoning effort; each
/// through the session's own option for it and with the value that is wanted.
/// What is not wanted, or has no option, is passed over, and then the session is
/// established. A fork, a loaded or a resumed session keeps its mode.
pub proof fn law_wanted_settings_are_asked_for(state: EstablishV)
    ensures
        match state.from_mode() {
            EstablishNextV::Request(EstablishRequestV::SetMode(request)) => {
                &&& state.channels.mode_config_option_id == Some(request.config_id)
                &&& state.default_mode == Some(request.value)
            },
            other => {
                &&& state.channels.mode_config_option_id is None || state.default_mode is None
                &&& other == state.from_effort()
            },
        },
        match state.from_effort() {
            EstablishNextV::Request(EstablishRequestV::SetEffort(request)) => {
                &&& state.channels.thought_level_config_option_id == Some(request.config_id)
                &&& state.default_effort == Some(request.value)
            },
            EstablishNextV::Established => {
                ||| state.channels.thought_level_config_option_id is None
                ||| state.default_effort is None
            },
            _ => false,
        },
{
}

/// What follows the agent's answer: a new session's mode, and any other session's
/// reasoning effort.
pub proof fn law_answers_lead_to_the_settings(
    state: EstablishV,
    created: NewSessionV,
    suppressing: bool,
    modes: Option<SessionModesV>,
    config_options: Option<Seq<ConfigOptionV>>,
    id: Seq<char>,
)
    ensures
        ({
            let (made, step) = new_reply(state, SessionReplyV::Created(created));
            let (forked, fork_step) = fork_reply(state, SessionReplyV::Created(created));
            let (loaded, _, load_step) = load_reply(
                state,
                suppressing,
                LoadReplyV::Loaded { modes, config_options },
            );
            let (resumed, resume_step) = resume_reply(state, Some(id));
            &&& step.next == made.from_mode()
            &&& fork_step.next == forked.from_effort()
            &&& load_step.next == loaded.from_effort()
            &&& resume_step.next == resumed.from_effort()
        }),
{
}

/// The list of options that the agent answers a setting with is announced; a
/// refusal, or no answer in time, is not.
pub proof fn law_accepted_settings_are_announced(reply: OptionReplyV)
    ensures
        match reply {
            OptionReplyV::Accepted(list) => {
                &&& option_reply(reply).len() == 1
                &&& option_reply(reply)[0] matches SessionActionV::Publish(
                    EventV::ConfigOptionsUpdated { options: shown },
                )
                &&& config_options::shows_options(shown, list)
            },
            _ => option_reply(reply).len() == 0,
        },
{
    if let OptionReplyV::Accepted(list) = reply {
        command_loop::law_offers_are_announced(None, Some(list));
    }
}

/// What is asked of the agent first follows from the way the session is to be
/// had: a resumed session is resumed, a fork that the agent can make is forked
/// from its parent, a stored session is loaded where the agent can, and in every
/// other case a new session is asked for.
pub proof fn law_the_first_request_is_the_wanted_one(
    mode: ConnectModeV,
    facts: AgentFacts,
    default_effort: Option<Seq<char>>,
    default_mode: Option<Seq<char>>,
    suppressing: bool,
)
    ensures
        ({
            let state = to_establish(mode, facts, default_effort, default_mode);
            let (held, step) = first_step(mode, facts, state, suppressing);
            &&& step.next matches EstablishNextV::Request(request)
            &&& match mode {
                ConnectModeV::Resume { acp_session_id, .. } => {
                    &&& request == EstablishRequestV::Resume { stored: acp_session_id }
                    &&& held == suppressing
                },
                ConnectModeV::Fresh { stored_acp_session_id, seed_history_replay, fork_from } => {
                    let forks = fork_from is Some && fork_from->0.len() > 0;
                    if forks && facts.fork {
                        &&& request == EstablishRequestV::Fork { parent: fork_from->0 }
                        &&& held == suppressing
                    } else if stored_acp_session_id is Some && facts.load_session {
                        &&& request == EstablishRequestV::Load { stored: stored_acp_session_id->0 }
                        &&& held == (suppressing || !seed_history_replay)
                        &&& step.actions.last() == SessionActionV::FinishTransition {
                            acp_session_id: stored_acp_session_id->0,
                        }
                    } else {
                        &&& request is New
                        &&& held == suppressing
                        &&& step.actions.last() is BeginTransition
                    }
                },
            }
        }),
{
}

/// A session that is to be established has nothing yet but what it is wanted to
/// be: no id, no channels, and the settings that were asked for.
pub proof fn law_a_session_starts_with_what_is_wanted(
    mode: ConnectModeV,
    facts: AgentFacts,
    default_effort: Option<Seq<char>>,
    default_mode: Option<Seq<char>>,
)
    ensures
        ({
            let state = to_establish(mode, facts, default_effort, default_mode);
            &&& state.acp_session_id is None
            &&& state.channels == config_options::channels_of(None, None)
            &&& state.default_effort == default_effort
            &&& state.default_mode == default_mode
            &&& state.load_capable == facts.load_session
            &&& state.session_from_storage == (mode is Resume)
            &&& match mode {
                ConnectModeV::Resume { acp_session_id, .. } => state.stored == Some(acp_session_id)
                    && state.context_reset_reason is None,
                ConnectModeV::Fresh { stored_acp_session_id, seed_history_replay, fork_from } => {
                    &&& state.stored == stored_acp_session_id
                    &&& state.seed_history_replay == seed_history_replay
                    &&& state.fork_requested <==> fork_from is Some && fork_from->0.len() > 0
                    &&& state.context_reset_reason is Some <==> stored_acp_session_id is Some
                        && !facts.load_session && !state.fork_requested
                },
            }
        }),
{
}

/// A turn that was running goes on being watched until it is known how it ends:
/// the watch is given up exactly where the end is taken, a prompt was sent or the
/// agent was heard of, and the turn is ended exactly where it then stays silent
/// for as long as is granted.
pub proof fn law_the_watch_ends_for_its_reasons(state: SharedV, grace_ms: i64, now_ms: i64)
    ensures
        ({
            let over = state.turn.terminal.is_claimed() || state.prompt_sent_since_attach
                || state.first_event_after_attach;
            let silent = now_ms - state.last_event_at >= grace_ms;
            match resume_watch(state, grace_ms, now_ms) {
                ResumeWatch::Disarm => over,
                ResumeWatch::Stop => !over && silent,
                ResumeWatch::Keep => !over && !silent,
            }
        }),
{
}

/// Ten seconds of silence are granted. A debug build grants what it is told to,
/// but never less than a tenth of a second; other builds cannot be told.
pub proof fn law_ten_seconds_are_granted(debug: bool, raw: Option<Seq<char>>, ms: u64)
    ensures
        idle_grace(debug, None) == 10000,
        idle_grace(false, raw) == 10000,
        ms >= 100 ==> idle_grace(true, Some(text::decimal(ms as nat))) == ms,
        ms < 100 ==> idle_grace(true, Some(text::decimal(ms as nat))) == 100,
        raw is Some && text::u64_of(raw->0) is None ==> idle_grace(debug, raw) == 10000,
        idle_grace(debug, raw) >= 100,
{
    text::law_written_numbers_are_read_back(ms);
}

/// A turn is adopted only with a session that is resumed while it runs; only such
/// a session has an id from the start.
pub proof fn law_only_resumed_sessions_adopt(mode: ConnectModeV)
    ensures
        match mode {
            ConnectModeV::Resume { acp_session_id, in_flight_turn } => adopts_turn(mode)
                == in_flight_turn && initial_id(mode) == Some(acp_session_id),
            ConnectModeV::Fresh { .. } => !adopts_turn(mode) && initial_id(mode) is None,
        },
{
}

/// An agent that the client can work with is announced with just what it can do,
/// before the wait for the handshake ends well. One that it cannot work with ends
/// the wait with the reason, in its own words.
pub proof fn law_capabilities_are_told_as_they_are(
    incompatible: Option<IncompatibilityV>,
    facts: AgentFacts,
)
    ensures
        ({
            let actions = init_actions(incompatible, facts);
            match incompatible {
                None => {
                    &&& actions.len() == 2
                    &&& actions[0] matches StartupActionV::Publish(
                        EventV::PromptCapabilities {
                            image,
                            audio,
                            embedded_context,
                            load_session,
                            steering,
                        },
                    )
                    &&& image == facts.image
                    &&& audio == facts.audio
                    &&& embedded_context == facts.embedded_context
                    &&& load_session == Some(facts.load_session)
                    &&& steering == facts.steering
                    &&& actions[1] == StartupActionV::Ready { error: None }
                },
                Some(reason) => {
                    &&& actions.len() == 1
                    &&& actions[0] matches StartupActionV::Ready { error: Some(error) }
                    &&& error matches AcpErrorV::IncompatibleAgent { detail, message }
                    &&& detail == reason.detail
                    &&& message == reason.message
                },
            }
        }),
{
}

/// A failure is told in the words that it came in: to whoever waits for the
/// handshake, and later as an error of the agent, unless a limit or a lost
/// context, which ends the turn instead, explains it.
pub proof fn law_failures_are_told_in_their_words(
    context_reset: bool,
    message: Seq<char>,
    info: RateLimitInfoV,
    error: Seq<char>,
)
    ensures
        end_actions(true, context_reset, message, None) == seq![
            StartupActionV::Ready { error: Some(AcpErrorV::Spawn(message)) },
        ],
        end_actions(false, false, message, None) == seq![
            StartupActionV::Publish(EventV::AgentStartupError { message }),
        ],
        end_actions(false, true, message, None) == seq![
            StartupActionV::Publish(EventV::Stopped { reason: "stored_session_rejected"@ }),
        ],
        end_actions(false, context_reset, message, Some(info)).len() == 2,
        end_actions(false, context_reset, message, Some(info))[1] == StartupActionV::Publish(
            EventV::Stopped { reason: "rate_limited"@ },
        ),
        error.is_suffix_of(failure_text(error)),
        text::begins_with(failure_text(error), "ACP connection failed: "@),
{
    let told = failure_text(error);
    assert(told.subrange(told.len() - error.len(), told.len() as int) =~= error);
    text::law_parts_are_found("ACP connection failed: "@, error, Seq::empty());
}

}
