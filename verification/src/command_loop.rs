//! A session between its turns: requests of the owner, turns that the agent
//! runs by itself, and the clearing of the conversation.

use crate::config_options;
use crate::config_options::{
    config_option_failure_event, config_options_event, modes_available_event,
    thought_level_config_id, ConfigOptionDispatchPurpose, SessionChannels,
};
use crate::event::{Event, EventV};
use crate::model;
use crate::model::Duplicate;
use crate::notifications::{BetweenPromptV, Shared, SharedV};
use crate::session;
use crate::session::{
    publish_stopped, reject_busy, CancelCause, ClientCmd, ClientCmdV, ResetSessionOutcome,
    ResetSessionOutcomeV, Session, SessionAction, SessionActionV, SessionV,
};
use crate::text;
use crate::wire::{
    ConfigCategoryV, ConfigOption, ConfigOptionV, ContentBlock, ContentBlockV, SessionModes,
    SessionModesV,
};
use vstd::prelude::*;

verus! {

/// What a session does next.
#[derive(Debug, PartialEq, Eq)]
pub enum IdleNext {
    /// It waits for the next request.
    Wait,
    RunPrompt(Vec<ContentBlock>),
    /// The conversation is cleared. The text is the command that asked for it.
    Reset(String),
    Exit,
}

/// The model of [`IdleNext`].
#[verifier::ext_equal]
pub enum IdleNextV {
    Wait,
    RunPrompt(Seq<ContentBlockV>),
    Reset(Seq<char>),
    Exit,
}

impl DeepView for IdleNext {
    type V = IdleNextV;

    open spec fn deep_view(&self) -> IdleNextV {
        match self {
            IdleNext::Wait => IdleNextV::Wait,
            IdleNext::RunPrompt(value) => IdleNextV::RunPrompt(value.deep_view()),
            IdleNext::Reset(value) => IdleNextV::Reset(value.deep_view()),
            IdleNext::Exit => IdleNextV::Exit,
        }
    }
}

impl Duplicate for IdleNext {
    fn duplicate(&self) -> (r: Self) {
        match self {
            IdleNext::Wait => IdleNext::Wait,
            IdleNext::RunPrompt(value) => IdleNext::RunPrompt(value.duplicate()),
            IdleNext::Reset(value) => IdleNext::Reset(value.duplicate()),
            IdleNext::Exit => IdleNext::Exit,
        }
    }
}

/// What is done about a request between turns.
#[derive(Debug, PartialEq, Eq)]
pub struct IdleStep {
    pub actions: Vec<SessionAction>,
    pub next: IdleNext,
}

/// The model of [`IdleStep`].
#[verifier::ext_equal]
pub struct IdleStepV {
    pub actions: Seq<SessionActionV>,
    pub next: IdleNextV,
}

impl DeepView for IdleStep {
    type V = IdleStepV;

    open spec fn deep_view(&self) -> IdleStepV {
        IdleStepV {
            actions: self.actions.deep_view(),
            next: self.next.deep_view(),
        }
    }
}

impl Duplicate for IdleStep {
    fn duplicate(&self) -> (r: Self) {
        IdleStep {
            actions: self.actions.duplicate(),
            next: self.next.duplicate(),
        }
    }
}

/// What decides whether a turn that the agent runs by itself has gone silent.
#[derive(Debug, Clone, Copy, PartialEq, Eq, Structural)]
pub struct IdleProbe {
    pub active: bool,
    pub last_lifecycle_at: i64,
    pub wake_at: Option<i64>,
    pub cost_seen: bool,
    pub busy: bool,
    pub off_protocol: bool,
}

impl DeepView for IdleProbe {
    type V = IdleProbe;

    open spec fn deep_view(&self) -> IdleProbe {
        *self
    }
}

impl Duplicate for IdleProbe {
    fn duplicate(&self) -> (r: Self) {
        *self
    }
}

/// A turn that the agent ran by itself and that is over.
#[derive(Debug, Clone, Copy, PartialEq, Eq, Structural)]
pub struct IdleStop {
    /// Whether the turn was running before the connection was made.
    pub adopted: bool,
    pub cost_seen: bool,
}

impl DeepView for IdleStop {
    type V = IdleStop;

    open spec fn deep_view(&self) -> IdleStop {
        *self
    }
}

impl Duplicate for IdleStop {
    fn duplicate(&self) -> (r: Self) {
        *self
    }
}

/// A session as the agent has made it.
#[derive(Debug, PartialEq, Eq)]
pub struct NewSession {
    pub session_id: String,
    pub modes: Option<SessionModes>,
    pub config_options: Option<Vec<ConfigOption>>,
}

/// The model of [`NewSession`].
#[verifier::ext_equal]
pub struct NewSessionV {
    pub session_id: Seq<char>,
    pub modes: Option<SessionModesV>,
    pub config_options: Option<Seq<ConfigOptionV>>,
}

impl DeepView for NewSession {
    type V = NewSessionV;

    open spec fn deep_view(&self) -> NewSessionV {
        NewSessionV {
            session_id: self.session_id.deep_view(),
            modes: self.modes.deep_view(),
            config_options: self.config_options.deep_view(),
        }
    }
}

impl Duplicate for NewSession {
    fn duplicate(&self) -> (r: Self) {
        NewSession {
            session_id: self.session_id.duplicate(),
            modes: self.modes.duplicate(),
            config_options: self.config_options.duplicate(),
        }
    }
}

/// How the agent has answered the request for a new session.
#[derive(Debug, PartialEq, Eq)]
pub enum ResetReply {
    Created(NewSession),
    Refused { text: String },
    TimedOut,
}

/// The model of [`ResetReply`].
#[verifier::ext_equal]
pub enum ResetReplyV {
    Created(NewSessionV),
    Refused { text: Seq<char> },
    TimedOut,
}

impl DeepView for ResetReply {
    type V = ResetReplyV;

    open spec fn deep_view(&self) -> ResetReplyV {
        match self {
            ResetReply::Created(value) => ResetReplyV::Created(value.deep_view()),
            ResetReply::Refused { text } => ResetReplyV::Refused { text: text.deep_view() },
            ResetReply::TimedOut => ResetReplyV::TimedOut,
        }
    }
}

impl Duplicate for ResetReply {
    fn duplicate(&self) -> (r: Self) {
        match self {
            ResetReply::Created(value) => ResetReply::Created(value.duplicate()),
            ResetReply::Refused { text } => ResetReply::Refused { text: text.duplicate() },
            ResetReply::TimedOut => ResetReply::TimedOut,
        }
    }
}

/// How the agent has answered the request to set an option.
#[derive(Debug, PartialEq, Eq)]
pub enum OptionReply {
    Accepted(Vec<ConfigOption>),
    Refused { text: String },
    TimedOut,
}

/// The model of [`OptionReply`].
#[verifier::ext_equal]
pub enum OptionReplyV {
    Accepted(Seq<ConfigOptionV>),
    Refused { text: Seq<char> },
    TimedOut,
}

impl DeepView for OptionReply {
    type V = OptionReplyV;

    open spec fn deep_view(&self) -> OptionReplyV {
        match self {
            OptionReply::Accepted(value) => OptionReplyV::Accepted(value.deep_view()),
            OptionReply::Refused { text } => OptionReplyV::Refused { text: text.deep_view() },
            OptionReply::TimedOut => OptionReplyV::TimedOut,
        }
    }
}

impl Duplicate for OptionReply {
    fn duplicate(&self) -> (r: Self) {
        match self {
            OptionReply::Accepted(value) => OptionReply::Accepted(value.duplicate()),
            OptionReply::Refused { text } => OptionReply::Refused { text: text.duplicate() },
            OptionReply::TimedOut => OptionReply::TimedOut,
        }
    }
}

/// An option, and the value that is asked for it.
#[derive(Debug, PartialEq, Eq)]
pub struct OptionRequest {
    pub config_id: String,
    pub value: String,
}

/// The model of [`OptionRequest`].
#[verifier::ext_equal]
pub struct OptionRequestV {
    pub config_id: Seq<char>,
    pub value: Seq<char>,
}

impl DeepView for OptionRequest {
    type V = OptionRequestV;

    open spec fn deep_view(&self) -> OptionRequestV {
        OptionRequestV {
            config_id: self.config_id.deep_view(),
            value: self.value.deep_view(),
        }
    }
}

impl Duplicate for OptionRequest {
    fn duplicate(&self) -> (r: Self) {
        OptionRequest {
            config_id: self.config_id.duplicate(),
            value: self.value.duplicate(),
        }
    }
}

/// What is being set again in a new session.
#[derive(Debug, Clone, Copy, PartialEq, Eq, Structural)]
pub enum ReapplyStage {
    Model,
    Effort,
    Mode,
}

impl DeepView for ReapplyStage {
    type V = ReapplyStage;

    open spec fn deep_view(&self) -> ReapplyStage {
        *self
    }
}

impl Duplicate for ReapplyStage {
    fn duplicate(&self) -> (r: Self) {
        *self
    }
}

/// The settings that a new session gets.
#[derive(Debug, PartialEq, Eq)]
pub struct Reapply {
    pub model: Option<OptionRequest>,
    pub effort_id: Option<String>,
    pub effort: Option<String>,
    pub mode: Option<OptionRequest>,
}

/// The model of [`Reapply`].
#[verifier::ext_equal]
pub struct ReapplyV {
    pub model: Option<OptionRequestV>,
    pub effort_id: Option<Seq<char>>,
    pub effort: Option<Seq<char>>,
    pub mode: Option<OptionRequestV>,
}

impl DeepView for Reapply {
    type V = ReapplyV;

    open spec fn deep_view(&self) -> ReapplyV {
        ReapplyV {
            model: self.model.deep_view(),
            effort_id: self.effort_id.deep_view(),
            effort: self.effort.deep_view(),
            mode: self.mode.deep_view(),
        }
    }
}

impl Duplicate for Reapply {
    fn duplicate(&self) -> (r: Self) {
        Reapply {
            model: self.model.duplicate(),
            effort_id: self.effort_id.duplicate(),
            effort: self.effort.duplicate(),
            mode: self.mode.duplicate(),
        }
    }
}

/// How the settings of a new session go on: with a request, or not at all.
#[derive(Debug, PartialEq, Eq)]
pub struct ReapplyStep {
    pub actions: Vec<SessionAction>,
    pub next: Option<(ReapplyStage, OptionRequest)>,
}

/// The model of [`ReapplyStep`].
#[verifier::ext_equal]
pub struct ReapplyStepV {
    pub actions: Seq<SessionActionV>,
    pub next: Option<(ReapplyStage, OptionRequestV)>,
}

impl DeepView for ReapplyStep {
    type V = ReapplyStepV;

    open spec fn deep_view(&self) -> ReapplyStepV {
        ReapplyStepV {
            actions: self.actions.deep_view(),
            next: self.next.deep_view(),
        }
    }
}

impl Duplicate for ReapplyStep {
    fn duplicate(&self) -> (r: Self) {
        ReapplyStep {
            actions: self.actions.duplicate(),
            next: self.next.duplicate(),
        }
    }
}

/// The state of a connection once the end of whatever was running is taken by
/// the caller.
pub open spec fn stood_down(state: SharedV) -> SharedV {
    SharedV {
        turn: crate::control::TurnOwnership {
            terminal: state.turn.terminal.taken(),
            ..state.turn
        },
        adopted_turn_active: false,
        between_prompt: BetweenPromptV { active: false, ..state.between_prompt },
        ..state
    }
}

/// What is done about a request between turns.
pub open spec fn idle_step(session: SessionV, shared: SharedV, cmd: Option<ClientCmdV>) -> (
    SessionV,
    SharedV,
    IdleStepV,
) {
    let wait = |action: SessionActionV| IdleStepV { actions: seq![action], next: IdleNextV::Wait };
    match cmd {
        Some(ClientCmdV::Prompt(blocks)) => (
            session,
            shared,
            IdleStepV { actions: seq![], next: IdleNextV::RunPrompt(blocks) },
        ),
        Some(ClientCmdV::Cancel) => (
            session,
            stood_down(shared),
            IdleStepV {
                actions: seq![
                    SessionActionV::SendCancel { cause: CancelCause::User },
                    SessionActionV::Publish(EventV::Stopped { reason: "cancelled"@ }),
                ],
                next: IdleNextV::Wait,
            },
        ),
        Some(ClientCmdV::ForceStop) => (
            session,
            stood_down(shared),
            wait(SessionActionV::SendCancel { cause: CancelCause::ForceStop }),
        ),
        Some(ClientCmdV::SetMode(mode_id)) => (
            session,
            shared,
            wait(
                SessionActionV::SetMode(config_options::mode_request(mode_id, session.channels)),
            ),
        ),
        Some(ClientCmdV::DeleteSession { acp_session_id }) => (
            session,
            shared,
            wait(SessionActionV::DeleteSession { acp_session_id }),
        ),
        Some(ClientCmdV::SetConfigOption { config_id, value }) => (
            session::with_option(session, config_id, value),
            shared,
            wait(SessionActionV::SetConfigOption { config_id, value }),
        ),
        Some(ClientCmdV::ResumeBackgroundTailing) => (
            session,
            shared,
            wait(SessionActionV::ResumeBackgroundTailing),
        ),
        Some(ClientCmdV::ResetSession { text }) => (
            session,
            shared,
            IdleStepV { actions: seq![], next: IdleNextV::Reset(text) },
        ),
        Some(ClientCmdV::Shutdown) | None => (
            session,
            shared,
            IdleStepV { actions: seq![], next: IdleNextV::Exit },
        ),
    }
}

/// What decides whether a turn that the agent runs by itself has gone silent.
pub open spec fn idle_probe(state: BetweenPromptV) -> IdleProbe {
    IdleProbe {
        active: state.active,
        last_lifecycle_at: state.last_lifecycle_at,
        wake_at: if state.wake_at == 0 {
            None
        } else {
            Some(state.wake_at)
        },
        cost_seen: state.cost_seen,
        busy: state.busy(),
        off_protocol: state.off_protocol,
    }
}

/// The state of a connection once a silent turn is over, and the turn whose
/// end is to be published. The end of an adopted turn may have been taken
/// already.
pub open spec fn idle_fired(state: SharedV) -> (SharedV, Option<IdleStop>) {
    let adopted = state.adopted_turn_active;
    (
        SharedV {
            adopted_turn_active: false,
            between_prompt: state.between_prompt.cleared(),
            turn: crate::control::TurnOwnership {
                terminal: if adopted {
                    state.turn.terminal.taken()
                } else {
                    state.turn.terminal
                },
                ..state.turn
            },
            ..state
        },
        if adopted && state.turn.terminal.is_claimed() {
            None
        } else {
            Some(IdleStop { adopted, cost_seen: state.between_prompt.cost_seen })
        },
    )
}

/// What is done about a request to clear the conversation. It is refused
/// while the agent's callbacks keep the session's id from changing, and while
/// work of the old conversation is going on, whose events would be taken for
/// those of the new one.
pub open spec fn reset_start(shared: SharedV, text: Seq<char>, fence_held: bool) -> Seq<
    SessionActionV,
> {
    if !fence_held {
        seq![
            SessionActionV::AnswerReset(
                ResetSessionOutcomeV::Failed {
                    message: "reset deadline expired while agent callbacks were in flight"@,
                },
            ),
        ]
    } else if shared.between_prompt.busy() {
        seq![
            SessionActionV::Publish(session::busy_event(text)),
            SessionActionV::AnswerReset(
                ResetSessionOutcomeV::Failed {
                    message:
                        "agent work is still in flight; wait for it to finish before clearing the conversation"@,
                },
            ),
        ]
    } else {
        seq![SessionActionV::BeginTransition, SessionActionV::RequestNewSession]
    }
}

/// What is done about a request to clear the conversation that has failed.
/// The old session is kept, and what it has sent meanwhile is applied to it.
pub open spec fn reset_failed(id: Seq<char>, message: Seq<char>) -> Seq<SessionActionV> {
    seq![
        SessionActionV::FinishTransition { acp_session_id: id },
        SessionActionV::ApplyReplay,
        SessionActionV::Publish(EventV::PromptRuntimeError { message }),
        SessionActionV::Publish(EventV::Stopped { reason: "session_reset_failed"@ }),
        SessionActionV::AnswerReset(ResetSessionOutcomeV::Failed { message }),
    ]
}

/// The events that announce what a new session offers.
pub open spec fn announced(
    modes: Option<SessionModesV>,
    options: Option<Seq<ConfigOptionV>>,
) -> Seq<SessionActionV> {
    let first = match modes {
        Some(modes) => seq![SessionActionV::Publish(config_options::modes_event(modes))],
        None => seq![],
    };
    match config_options::options_event(options) {
        Some(event) => first.push(SessionActionV::Publish(event)),
        None => first,
    }
}

/// What is done once the agent has made a new session for a conversation that
/// was cleared.
pub open spec fn reset_done(created: NewSessionV) -> Seq<SessionActionV> {
    seq![
        SessionActionV::FinishTransition { acp_session_id: created.session_id },
        SessionActionV::Publish(EventV::SessionCleared),
        SessionActionV::Publish(
            EventV::SessionContextReset {
                reason: "conversation cleared; the agent started a fresh session"@,
            },
        ),
        SessionActionV::Publish(
            EventV::AcpSessionAssigned { acp_session_id: created.session_id },
        ),
        SessionActionV::ApplyReplay,
    ] + announced(created.modes, created.config_options)
}

/// What is wrong with an answer to the request for a new session, where
/// something is.
pub open spec fn reset_error(session: SessionV, reply: ResetReplyV) -> Option<Seq<char>> {
    match reply {
        ResetReplyV::Created(created) => if created.session_id != session.acp_session_id {
            None
        } else {
            Some(
                "the worker replayed the existing session instead of creating a fresh one; restart the structured view worker to clear context"@,
            )
        },
        ResetReplyV::Refused { text } => Some("session/new failed: "@ + text),
        ResetReplyV::TimedOut => Some(
            "agent did not answer session/new before the reset deadline"@,
        ),
    }
}

/// The session once the request for a new one is answered, and what is done
/// about the answer.
pub open spec fn reset_reply(session: SessionV, reply: ResetReplyV) -> (
    SessionV,
    Seq<SessionActionV>,
) {
    match reset_error(session, reply) {
        Some(message) => (session, reset_failed(session.acp_session_id, message)),
        None => {
            let created = reply->Created_0;
            (
                SessionV {
                    acp_session_id: created.session_id,
                    session_from_storage: false,
                    channels: config_options::channels_of(created.modes, created.config_options),
                    ..session
                },
                reset_done(created),
            )
        },
    }
}

/// What is done once the settings of a new session are in place.
pub open spec fn reset_finished(id: Seq<char>) -> Seq<SessionActionV> {
    seq![
        SessionActionV::Publish(EventV::Stopped { reason: "session_reset"@ }),
        SessionActionV::AnswerReset(ResetSessionOutcomeV::Reset { new_acp_session_id: id }),
    ]
}

/// A request to set an option, where the option and the value are known.
pub open spec fn request_of(
    config_id: Option<Seq<char>>,
    value: Option<Seq<char>>,
) -> Option<OptionRequestV> {
    match (config_id, value) {
        (Some(config_id), Some(value)) => Some(OptionRequestV { config_id, value }),
        _ => None,
    }
}

/// The settings that a new session gets. The model is set unless it is the
/// session's own.
pub open spec fn reapply_of(
    session: SessionV,
    options: Option<Seq<ConfigOptionV>>,
    model_is_current: bool,
) -> ReapplyV {
    ReapplyV {
        model: if model_is_current {
            None
        } else {
            request_of(
                config_options::opt_select_id(options, ConfigCategoryV::Model),
                session.default_model,
            )
        },
        effort_id: config_options::opt_select_id(options, ConfigCategoryV::ThoughtLevel),
        effort: session.default_effort,
        mode: request_of(
            config_options::opt_select_id(options, ConfigCategoryV::Mode),
            session.default_mode,
        ),
    }
}

impl ReapplyV {
    /// What is asked for once the reasoning effort is dealt with.
    pub open spec fn from_mode(self) -> Option<(ReapplyStage, OptionRequestV)> {
        match self.mode {
            Some(request) => Some((ReapplyStage::Mode, request)),
            None => None,
        }
    }

    /// What is asked for once the model is dealt with.
    pub open spec fn from_effort(self) -> Option<(ReapplyStage, OptionRequestV)> {
        match request_of(self.effort_id, self.effort) {
            Some(request) => Some((ReapplyStage::Effort, request)),
            None => self.from_mode(),
        }
    }

    /// What is asked for first.
    pub open spec fn from_model(self) -> Option<(ReapplyStage, OptionRequestV)> {
        match self.model {
            Some(request) => Some((ReapplyStage::Model, request)),
            None => self.from_effort(),
        }
    }
}

/// The settings once a request is answered, and how they go on. A model
/// brings options of its own, so the option for the reasoning effort is
/// looked up again. Once the time is over, the rest is left as it is.
pub open spec fn reapply_reply(
    state: ReapplyV,
    stage: ReapplyStage,
    reply: OptionReplyV,
) -> (ReapplyV, ReapplyStepV) {
    match reply {
        OptionReplyV::TimedOut => (state, ReapplyStepV { actions: seq![], next: None }),
        OptionReplyV::Accepted(options) => {
            let shown = model::with_some(
                seq![],
                match config_options::options_event(Some(options)) {
                    Some(event) => Some(SessionActionV::Publish(event)),
                    None => None,
                },
            );
            match stage {
                ReapplyStage::Model => {
                    let after = ReapplyV {
                        effort_id: config_options::opt_select_id(
                            Some(options),
                            ConfigCategoryV::ThoughtLevel,
                        ),
                        ..state
                    };
                    (after, ReapplyStepV { actions: shown, next: after.from_effort() })
                },
                ReapplyStage::Effort => (
                    state,
                    ReapplyStepV { actions: shown, next: state.from_mode() },
                ),
                ReapplyStage::Mode => (state, ReapplyStepV { actions: shown, next: None }),
            }
        },
        OptionReplyV::Refused { text } => match stage {
            ReapplyStage::Model => (
                state,
                ReapplyStepV {
                    actions: match state.model {
                        Some(request) => seq![
                            SessionActionV::Publish(
                                config_options::failure_event(
                                    request.config_id,
                                    request.value,
                                    text,
                                    ConfigOptionDispatchPurpose::Generic,
                                ),
                            ),
                        ],
                        None => seq![],
                    },
                    next: state.from_effort(),
                },
            ),
            ReapplyStage::Effort => (
                state,
                ReapplyStepV { actions: seq![], next: state.from_mode() },
            ),
            ReapplyStage::Mode => (state, ReapplyStepV { actions: seq![], next: None }),
        },
    }
}

impl Shared {
    /// The caller takes the end of whatever is running, so that nothing else
    /// publishes it again.
    pub fn stand_down_idle_completion(&mut self)
        ensures
            final(self).deep_view() == stood_down(old(self).deep_view()),
    {
        self.turn.terminal.claim();
        self.adopted_turn_active = false;
        self.between_prompt.deactivate();
    }

    /// What decides whether a turn that the agent runs by itself has gone
    /// silent.
    pub fn idle_probe(&self) -> (r: IdleProbe)
        ensures
            r == idle_probe(self.deep_view().between_prompt),
    {
        IdleProbe {
            active: self.between_prompt.active,
            last_lifecycle_at: self.between_prompt.last_lifecycle_at,
            wake_at: self.between_prompt.wake_time(),
            cost_seen: self.between_prompt.cost_seen,
            busy: self.between_prompt.is_busy(),
            off_protocol: self.between_prompt.off_protocol,
        }
    }

    /// Looks at a turn that the agent runs by itself. `fire` says whether it
    /// has gone silent; then it is over, and the result says what is to be
    /// published about it.
    pub fn between_prompt_idle_tick(&mut self, fire: bool) -> (r: Option<IdleStop>)
        ensures
            fire ==> (final(self).deep_view(), r) == idle_fired(old(self).deep_view()),
            !fire ==> r is None && final(self).deep_view() == old(self).deep_view(),
    {
        if !fire {
            return None;
        }
        let cost_seen = self.between_prompt.cost_seen;
        let adopted = self.adopted_turn_active;
        self.adopted_turn_active = false;
        self.between_prompt.clear();
        if adopted {
            if !self.turn.terminal.claim() {
                return None;
            }
        }
        Some(IdleStop { adopted, cost_seen })
    }

    /// Starts to clear the conversation, where nothing speaks against it.
    /// `fence_held` says whether the session's id can be kept from changing
    /// under the agent's callbacks, and `text` is the command that asked for
    /// it.
    pub fn reset_session(&self, text: String, fence_held: bool) -> (r: Vec<SessionAction>)
        ensures
            r.deep_view() == reset_start(self.deep_view(), text@, fence_held),
    {
        if !fence_held {
            let message = "reset deadline expired while agent callbacks were in flight".to_owned();
            return model::one(SessionAction::AnswerReset(ResetSessionOutcome::Failed { message }));
        }
        if self.between_prompt.is_busy() {
            let message =
                "agent work is still in flight; wait for it to finish before clearing the conversation".to_owned();
            return model::two(
                reject_busy(text),
                SessionAction::AnswerReset(ResetSessionOutcome::Failed { message }),
            );
        }
        model::two(SessionAction::BeginTransition, SessionAction::RequestNewSession)
    }
}

fn failed_reset(id: String, message: String) -> (r: Vec<SessionAction>)
    ensures
        r.deep_view() == reset_failed(id@, message@),
{
    let mut r = model::two(
        SessionAction::FinishTransition { acp_session_id: id },
        SessionAction::ApplyReplay,
    );
    model::push(
        &mut r,
        SessionAction::Publish(Event::PromptRuntimeError { message: message.clone() }),
    );
    model::push(&mut r, publish_stopped("session_reset_failed"));
    model::push(&mut r, SessionAction::AnswerReset(ResetSessionOutcome::Failed { message }));
    proof {
        assert(r.deep_view() =~= reset_failed(id@, message@));
    }
    r
}

/// The events that announce what a new session offers.
pub fn announce(modes: &Option<SessionModes>, options: &Option<Vec<ConfigOption>>) -> (r: Vec<
    SessionAction,
>)
    ensures
        r.deep_view() == announced(modes.deep_view(), options.deep_view()),
{
    let mut r: Vec<SessionAction> = match modes {
        Some(modes) => model::one(SessionAction::Publish(modes_available_event(modes))),
        None => model::empty(),
    };
    if let Some(event) = config_options_event(options) {
        model::push(&mut r, SessionAction::Publish(event));
    }
    r
}

fn done_reset(created: &NewSession) -> (r: Vec<SessionAction>)
    ensures
        r.deep_view() == reset_done(created.deep_view()),
{
    let mut r = model::two(
        SessionAction::FinishTransition { acp_session_id: created.session_id.clone() },
        SessionAction::Publish(Event::SessionCleared),
    );
    let reason = "conversation cleared; the agent started a fresh session".to_owned();
    model::push(&mut r, SessionAction::Publish(Event::SessionContextReset { reason }));
    model::push(
        &mut r,
        SessionAction::Publish(
            Event::AcpSessionAssigned { acp_session_id: created.session_id.clone() },
        ),
    );
    model::push(&mut r, SessionAction::ApplyReplay);
    let more = announce(&created.modes, &created.config_options);
    model::extend(&mut r, more);
    proof {
        assert(r.deep_view() =~= reset_done(created.deep_view()));
    }
    r
}

fn option_request(config_id: Option<String>, value: Option<String>) -> (r: Option<OptionRequest>)
    ensures
        r.deep_view() == request_of(config_id.deep_view(), value.deep_view()),
{
    match (config_id, value) {
        (Some(config_id), Some(value)) => Some(OptionRequest { config_id, value }),
        _ => None,
    }
}

impl Session {
    /// Goes on with a request of the owner between turns.
    pub fn on_idle_command(&mut self, shared: &mut Shared, cmd: Option<ClientCmd>) -> (r: IdleStep)
        ensures
            (final(self).deep_view(), final(shared).deep_view(), r.deep_view()) == idle_step(
                old(self).deep_view(),
                old(shared).deep_view(),
                cmd.deep_view(),
            ),
    {
        match cmd {
            Some(ClientCmd::Prompt(blocks)) => IdleStep {
                actions: model::empty(),
                next: IdleNext::RunPrompt(blocks),
            },
            Some(ClientCmd::Cancel) => {
                shared.stand_down_idle_completion();
                IdleStep {
                    actions: model::two(
                        SessionAction::SendCancel { cause: CancelCause::User },
                        publish_stopped("cancelled"),
                    ),
                    next: IdleNext::Wait,
                }
            },
            Some(ClientCmd::ForceStop) => {
                shared.stand_down_idle_completion();
                IdleStep {
                    actions: model::one(
                        SessionAction::SendCancel { cause: CancelCause::ForceStop },
                    ),
                    next: IdleNext::Wait,
                }
            },
            Some(ClientCmd::SetMode(mode_id)) => IdleStep {
                actions: model::one(self.dispatch_mode(mode_id)),
                next: IdleNext::Wait,
            },
            Some(ClientCmd::DeleteSession { acp_session_id }) => IdleStep {
                actions: model::one(SessionAction::DeleteSession { acp_session_id }),
                next: IdleNext::Wait,
            },
            Some(ClientCmd::SetConfigOption { config_id, value }) => IdleStep {
                actions: model::one(self.dispatch_config_option(config_id, value)),
                next: IdleNext::Wait,
            },
            Some(ClientCmd::ResumeBackgroundTailing) => IdleStep {
                actions: model::one(SessionAction::ResumeBackgroundTailing),
                next: IdleNext::Wait,
            },
            Some(ClientCmd::ResetSession { text }) => IdleStep {
                actions: model::empty(),
                next: IdleNext::Reset(text),
            },
            Some(ClientCmd::Shutdown) | None => IdleStep {
                actions: model::empty(),
                next: IdleNext::Exit,
            },
        }
    }

    /// Goes on with clearing the conversation, once the request for a new
    /// session is answered. Says whether there is a new session.
    pub fn on_reset_reply(&mut self, reply: ResetReply) -> (r: (bool, Vec<SessionAction>))
        ensures
            (final(self).deep_view(), r.1.deep_view()) == reset_reply(
                old(self).deep_view(),
                reply.deep_view(),
            ),
            r.0 == (reset_error(old(self).deep_view(), reply.deep_view()) is None),
    {
        match reply {
            ResetReply::Created(created) => {
                if text::same(created.session_id.as_str(), self.acp_session_id.as_str()) {
                    let message =
                        "the worker replayed the existing session instead of creating a fresh one; restart the structured view worker to clear context".to_owned();
                    return (false, failed_reset(self.acp_session_id.clone(), message));
                }
                let actions = done_reset(&created);
                self.session_from_storage = false;
                self.channels = SessionChannels::new(&created.modes, &created.config_options);
                self.acp_session_id = created.session_id;
                (true, actions)
            },
            ResetReply::Refused { text } => {
                let message = text::cat("session/new failed: ", text.as_str());
                (false, failed_reset(self.acp_session_id.clone(), message))
            },
            ResetReply::TimedOut => {
                let message =
                    "agent did not answer session/new before the reset deadline".to_owned();
                (false, failed_reset(self.acp_session_id.clone(), message))
            },
        }
    }

    /// Starts to set the session's settings again in a new session.
    /// `model_is_current` says whether the new session has the model already.
    pub fn reapply_defaults(
        &self,
        options: &Option<Vec<ConfigOption>>,
        model_is_current: bool,
    ) -> (r: (Reapply, Option<(ReapplyStage, OptionRequest)>))
        ensures
            r.0.deep_view() == reapply_of(
                self.deep_view(),
                options.deep_view(),
                model_is_current,
            ),
            r.1.deep_view() == r.0.deep_view().from_model(),
    {
        let channels = SessionChannels::new(&None, options);
        let model = if model_is_current {
            None
        } else {
            option_request(channels.model_config_option_id, self.default_model.duplicate())
        };
        let state = Reapply {
            model,
            effort_id: channels.thought_level_config_option_id,
            effort: self.default_effort.duplicate(),
            mode: option_request(channels.mode_config_option_id, self.default_mode.duplicate()),
        };
        let next = match &state.model {
            Some(request) => Some((ReapplyStage::Model, request.duplicate())),
            None => state.next_effort(),
        };
        (state, next)
    }

    /// Ends the clearing of the conversation.
    pub fn finish_reset(&self) -> (r: Vec<SessionAction>)
        ensures
            r.deep_view() == reset_finished(self.deep_view().acp_session_id),
    {
        let new_acp_session_id = self.acp_session_id.clone();
        model::two(
            publish_stopped("session_reset"),
            SessionAction::AnswerReset(ResetSessionOutcome::Reset { new_acp_session_id }),
        )
    }
}

impl Reapply {
    fn next_mode(&self) -> (r: Option<(ReapplyStage, OptionRequest)>)
        ensures
            r.deep_view() == self.deep_view().from_mode(),
    {
        match &self.mode {
            Some(request) => Some((ReapplyStage::Mode, request.duplicate())),
            None => None,
        }
    }

    fn next_effort(&self) -> (r: Option<(ReapplyStage, OptionRequest)>)
        ensures
            r.deep_view() == self.deep_view().from_effort(),
    {
        match option_request(self.effort_id.duplicate(), self.effort.duplicate()) {
            Some(request) => Some((ReapplyStage::Effort, request)),
            None => self.next_mode(),
        }
    }

    /// Goes on with the settings of a new session, once the request of a
    /// stage is answered.
    pub fn on_option_reply(&mut self, stage: ReapplyStage, reply: OptionReply) -> (r: ReapplyStep)
        ensures
            (final(self).deep_view(), r.deep_view()) == reapply_reply(
                old(self).deep_view(),
                stage,
                reply.deep_view(),
            ),
    {
        match reply {
            OptionReply::TimedOut => ReapplyStep { actions: model::empty(), next: None },
            OptionReply::Accepted(options) => {
                let effort_id = thought_level_config_id(&options);
                let options = Some(options);
                let mut actions: Vec<SessionAction> = model::empty();
                if let Some(event) = config_options_event(&options) {
                    model::push(&mut actions, SessionAction::Publish(event));
                }
                let next = match stage {
                    ReapplyStage::Model => {
                        self.effort_id = effort_id;
                        self.next_effort()
                    },
                    ReapplyStage::Effort => self.next_mode(),
                    ReapplyStage::Mode => None,
                };
                ReapplyStep { actions, next }
            },
            OptionReply::Refused { text } => match stage {
                ReapplyStage::Model => {
                    let actions = match &self.model {
                        Some(request) => model::one(
                            SessionAction::Publish(
                                config_option_failure_event(
                                    request.config_id.clone(),
                                    request.value.clone(),
                                    text,
                                    ConfigOptionDispatchPurpose::Generic,
                                ),
                            ),
                        ),
                        None => model::empty(),
                    };
                    ReapplyStep { actions, next: self.next_effort() }
                },
                ReapplyStage::Effort => ReapplyStep {
                    actions: model::empty(),
                    next: self.next_mode(),
                },
                ReapplyStage::Mode => ReapplyStep { actions: model::empty(), next: None },
            },
        }
    }
}

/// A conversation is cleared as a whole or not at all: without a new session
/// everything stays as it was, and the request is answered with the reason.
pub proof fn law_a_failed_reset_changes_nothing(session: SessionV, reply: ResetReplyV)
    ensures
        reset_error(session, reply) matches Some(message) ==> {
            let (after, actions) = reset_reply(session, reply);
            &&& after == session
            &&& actions.last() == SessionActionV::AnswerReset(
                ResetSessionOutcomeV::Failed { message },
            )
        },
{
}

/// A new session is the agent's own, with the agent's own modes and options:
/// what the old one offered is forgotten, and the settings that are set again
/// stay as they are.
pub proof fn law_a_reset_starts_afresh(session: SessionV, created: NewSessionV)
    requires
        created.session_id != session.acp_session_id,
    ensures
        ({
            let (after, actions) = reset_reply(session, ResetReplyV::Created(created));
            &&& after.acp_session_id == created.session_id
            &&& !after.session_from_storage
            &&& after.channels == config_options::channels_of(
                created.modes,
                created.config_options,
            )
            &&& after.default_model == session.default_model
            &&& after.default_effort == session.default_effort
            &&& after.default_mode == session.default_mode
            &&& after.pending_prompts == session.pending_prompts
        }),
{
}

/// Updates of the new conversation are applied only after the old transcript
/// was cleared and the new id was announced.
pub proof fn law_a_reset_is_announced_before_its_updates(created: NewSessionV)
    ensures
        reset_done(created)[1] == SessionActionV::Publish(EventV::SessionCleared),
        reset_done(created)[3] == SessionActionV::Publish(
            EventV::AcpSessionAssigned { acp_session_id: created.session_id },
        ),
        reset_done(created)[4] == SessionActionV::ApplyReplay,
        forall|i: int|
            0 <= i < reset_done(created).len() && i != 4 ==> #[trigger] reset_done(created)[i]
                !is ApplyReplay,
{
    let all = reset_done(created);
    assert forall|i: int| 0 <= i < all.len() && i != 4 implies #[trigger] all[i] !is ApplyReplay by {
        if i >= 5 {
            let more = announced(created.modes, created.config_options);
            assert(all[i] == more[i - 5]);
        }
    }
}

/// No new session is asked for while work of the old conversation is going
/// on.
pub proof fn law_busy_sessions_are_not_reset(shared: SharedV, text: Seq<char>, fence_held: bool)
    requires
        shared.between_prompt.busy(),
    ensures
        !reset_start(shared, text, fence_held).contains(SessionActionV::RequestNewSession),
{
}

/// How far the settings of a new session have come.
pub open spec fn rank(stage: ReapplyStage) -> int {
    match stage {
        ReapplyStage::Model => 0,
        ReapplyStage::Effort => 1,
        ReapplyStage::Mode => 2,
    }
}

/// The settings of a new session go from the model to the reasoning effort to
/// the mode, each once at most.
pub proof fn law_settings_come_in_order(state: ReapplyV, stage: ReapplyStage, reply: OptionReplyV)
    ensures
        reapply_reply(state, stage, reply).1.next matches Some(next) ==> rank(next.0) > rank(stage),
{
}

/// Once the time for clearing a conversation is over, nothing more is set.
pub proof fn law_the_deadline_ends_the_settings(state: ReapplyV, stage: ReapplyStage)
    ensures
        reapply_reply(state, stage, OptionReplyV::TimedOut).1 == (ReapplyStepV {
            actions: seq![],
            next: None,
        }),
{
}

/// The reasoning effort is set through an option of the model that was taken,
/// not of the one before it.
pub proof fn law_effort_follows_the_model(state: ReapplyV, options: Seq<ConfigOptionV>)
    ensures
        reapply_reply(state, ReapplyStage::Model, OptionReplyV::Accepted(options)).1.next matches Some(
            (ReapplyStage::Effort, request),
        ) ==> Some(request.config_id) == config_options::opt_select_id(
            Some(options),
            ConfigCategoryV::ThoughtLevel,
        ),
{
}

/// The end of an adopted turn is published once: after one path has taken it,
/// a silent turn is cleared away without a word, and after a silent turn has
/// ended, its end is taken.
pub proof fn law_an_adopted_turn_ends_once(state: SharedV)
    requires
        state.adopted_turn_active,
    ensures
        state.turn.terminal.is_claimed() ==> idle_fired(state).1 is None,
        idle_fired(state).0.turn.terminal.is_claimed(),
        idle_fired(state).0.between_prompt == state.between_prompt.cleared(),
{
}

/// A request to cancel or to stop that comes between turns takes the end of
/// whatever was running, so that nothing is watched for it any more.
pub proof fn law_idle_requests_stand_the_rest_down(session: SessionV, shared: SharedV)
    ensures
        ({
            let (_, cancelled, step) = idle_step(session, shared, Some(ClientCmdV::Cancel));
            let (_, stopped, _) = idle_step(session, shared, Some(ClientCmdV::ForceStop));
            &&& cancelled == stopped
            &&& cancelled.turn.terminal.is_claimed()
            &&& !cancelled.adopted_turn_active
            &&& !cancelled.between_prompt.active
            &&& step.actions.last() == SessionActionV::Publish(
                EventV::Stopped { reason: "cancelled"@ },
            )
        }),
{
}

/// A silent turn leaves nothing behind that could touch the next one.
pub proof fn law_a_silent_turn_leaves_nothing(state: SharedV)
    ensures
        ({
            let after = idle_fired(state).0;
            &&& !after.between_prompt.active
            &&& !after.between_prompt.cost_seen
            &&& after.between_prompt.wake_at == 0
            &&& !after.between_prompt.off_protocol
            &&& !after.between_prompt.busy()
            &&& !after.adopted_turn_active
        }),
{
}

/// What an established session offers is announced as it is: its modes, where
/// the agent's answer has any, and last, where the answer has a list of config
/// options, exactly the select options of that list with their choices.
pub proof fn law_offers_are_announced(
    modes: Option<SessionModesV>,
    options: Option<Seq<ConfigOptionV>>,
)
    ensures
        ({
            let told = announced(modes, options);
            &&& told.len() == (if modes is Some {
                1int
            } else {
                0
            }) + (if options is Some {
                1int
            } else {
                0
            })
            &&& modes matches Some(own) ==> {
                &&& told[0] matches SessionActionV::Publish(
                    EventV::ModesAvailable { current_mode_id, modes },
                )
                &&& current_mode_id == own.current_mode_id
                &&& modes == own.available_modes
            }
            &&& options matches Some(list) ==> {
                &&& told.last() matches SessionActionV::Publish(
                    EventV::ConfigOptionsUpdated { options: shown },
                )
                &&& config_options::shows_options(shown, list)
            }
        }),
{
    config_options::law_a_list_replaces_what_is_shown(options);
}

/// A session whose answer has a select option is announced with that option:
/// the list that is announced is not empty, and the option is found in it under
/// its id, with its current value.
pub proof fn law_an_offered_option_is_announced(
    modes: Option<SessionModesV>,
    options: Seq<ConfigOptionV>,
    i: int,
)
    requires
        0 <= i < options.len(),
        options[i].kind is Select,
    ensures
        announced(modes, Some(options)).last() matches SessionActionV::Publish(
            EventV::ConfigOptionsUpdated { options: shown },
        ) && config_options::is_shown(shown, options[i]) && shown.len() > 0,
{
    config_options::law_an_offer_is_never_shown_empty(options, i);
}

/// Each request of the owner between turns leads to what it asks for, under the
/// ids and values that it names, and to nothing else.
pub proof fn law_idle_requests_do_what_they_ask(
    session: SessionV,
    shared: SharedV,
    cmd: Option<ClientCmdV>,
)
    ensures
        ({
            let (after, state, step) = idle_step(session, shared, cmd);
            &&& match cmd {
                Some(ClientCmdV::Prompt(blocks)) => step.next == IdleNextV::RunPrompt(blocks)
                    && step.actions.len() == 0,
                Some(ClientCmdV::ResetSession { text }) => step.next == IdleNextV::Reset(text)
                    && step.actions.len() == 0,
                Some(ClientCmdV::Shutdown) | None => step.next is Exit && step.actions.len() == 0,
                Some(ClientCmdV::Cancel) => {
                    &&& step.next is Wait
                    &&& step.actions.len() == 2
                    &&& step.actions[0] == SessionActionV::SendCancel { cause: CancelCause::User }
                },
                Some(other) => {
                    &&& step.next is Wait
                    &&& step.actions.len() == 1
                    &&& match other {
                        ClientCmdV::ForceStop => step.actions[0] == SessionActionV::SendCancel {
                            cause: CancelCause::ForceStop,
                        },
                        ClientCmdV::SetMode(mode_id) => step.actions[0]
                            == SessionActionV::SetMode(
                            config_options::mode_request(mode_id, session.channels),
                        ),
                        ClientCmdV::DeleteSession { acp_session_id } => step.actions[0]
                            == SessionActionV::DeleteSession { acp_session_id },
                        ClientCmdV::SetConfigOption { config_id, value } => step.actions[0]
                            == SessionActionV::SetConfigOption { config_id, value },
                        ClientCmdV::ResumeBackgroundTailing => step.actions[0]
                            is ResumeBackgroundTailing,
                        _ => false,
                    }
                },
            }
            &&& !(cmd is Some && cmd->0 is SetConfigOption) ==> after == session
            &&& !(cmd == Some(ClientCmdV::Cancel) || cmd == Some(ClientCmdV::ForceStop)) ==> state
                == shared
        }),
{
}

/// A model that is picked is kept for the sessions to come; any other option is
/// not taken for the model, and nothing else of a session changes.
pub proof fn law_a_picked_model_is_kept(
    session: SessionV,
    shared: SharedV,
    config_id: Seq<char>,
    value: Seq<char>,
)
    ensures
        ({
            let cmd = Some(ClientCmdV::SetConfigOption { config_id, value });
            let after = idle_step(session, shared, cmd).0;
            &&& after.default_model == if session.channels.model_config_option_id == Some(
                config_id,
            ) {
                Some(value)
            } else {
                session.default_model
            }
            &&& after == (SessionV { default_model: after.default_model, ..session })
        }),
{
}

/// Whoever takes over the end of what was running between turns changes nothing
/// but who ends it: no tool call, sub-agent or limit is forgotten.
pub proof fn law_standing_down_forgets_nothing(state: SharedV)
    ensures
        ({
            let after = stood_down(state);
            &&& after.turn.prompt_in_flight == state.turn.prompt_in_flight
            &&& after.turn.terminal.epoch == state.turn.terminal.epoch
            &&& after.between_prompt.tools == state.between_prompt.tools
            &&& after.between_prompt.bg_agents == state.between_prompt.bg_agents
            &&& after.rate_limit_rejections == state.rate_limit_rejections
            &&& after.open_block == state.open_block
            &&& after.prompt_epoch == state.prompt_epoch
            &&& after.suppress_history_replay == state.suppress_history_replay
        }),
{
}

/// A silent turn that nobody has ended is told of, with whose turn it was and
/// whether its costs were seen; only an adopted one can have been ended before.
pub proof fn law_a_silent_turn_is_told_of(state: SharedV)
    ensures
        idle_fired(state).1 is None <==> state.adopted_turn_active
            && state.turn.terminal.is_claimed(),
        idle_fired(state).1 matches Some(stop) ==> stop.adopted == state.adopted_turn_active
            && stop.cost_seen == state.between_prompt.cost_seen,
        idle_fired(state).0.turn.prompt_in_flight == state.turn.prompt_in_flight,
        idle_fired(state).0.rate_limit_rejections == state.rate_limit_rejections,
{
}

/// A request to clear the conversation is answered: it is refused with the
/// reason, or a new session is asked for, and never both. It is refused exactly
/// where the agent's callbacks hold on to the session, or its work goes on.
pub proof fn law_a_reset_is_refused_or_asked_for(
    shared: SharedV,
    text: Seq<char>,
    fence_held: bool,
)
    ensures
        ({
            let actions = reset_start(shared, text, fence_held);
            if fence_held && !shared.between_prompt.busy() {
                &&& actions.len() == 2
                &&& actions[0] is BeginTransition
                &&& actions[1] is RequestNewSession
            } else {
                &&& !actions.contains(SessionActionV::RequestNewSession)
                &&& actions.last() matches SessionActionV::AnswerReset(
                    ResetSessionOutcomeV::Failed { message },
                )
                &&& (fence_held ==> actions.len() == 2 && actions[0] == SessionActionV::Publish(
                    EventV::PromptRejected { reason: "agent_busy"@, text },
                ))
                &&& (!fence_held ==> actions.len() == 1)
                &&& message == if fence_held {
                    "agent work is still in flight; wait for it to finish before clearing the conversation"@
                } else {
                    "reset deadline expired while agent callbacks were in flight"@
                }
            }
        }),
{
}

/// A conversation is cleared exactly where the agent answers with a session
/// that is not the old one. Otherwise the old session goes on, the failure is
/// told of and the turn is ended; a refusal is told in the agent's own words.
pub proof fn law_only_a_new_session_clears(session: SessionV, reply: ResetReplyV)
    ensures
        ({
            let (after, actions) = reset_reply(session, reply);
            let cleared = reply matches ResetReplyV::Created(created) && created.session_id
                != session.acp_session_id;
            &&& actions.contains(SessionActionV::Publish(EventV::SessionCleared)) <==> cleared
            &&& reset_error(session, reply) is None <==> cleared
            &&& !cleared ==> {
                &&& after == session
                &&& actions.len() == 5
                &&& actions[0] == SessionActionV::FinishTransition {
                    acp_session_id: session.acp_session_id,
                }
                &&& actions[1] is ApplyReplay
                &&& actions[2] matches SessionActionV::Publish(
                    EventV::PromptRuntimeError { message },
                )
                &&& actions[3] == SessionActionV::Publish(
                    EventV::Stopped { reason: "session_reset_failed"@ },
                )
                &&& actions[4] == SessionActionV::AnswerReset(
                    ResetSessionOutcomeV::Failed { message },
                )
                &&& message == match reply {
                    ResetReplyV::Refused { text } => "session/new failed: "@ + text,
                    ResetReplyV::TimedOut =>
                        "agent did not answer session/new before the reset deadline"@,
                    ResetReplyV::Created(_) =>
                        "the worker replayed the existing session instead of creating a fresh one; restart the structured view worker to clear context"@,
                }
            }
            &&& cleared ==> actions[0] == SessionActionV::FinishTransition {
                acp_session_id: after.acp_session_id,
            }
        }),
{
    let (after, actions) = reset_reply(session, reply);
    if reset_error(session, reply) is None {
        assert(actions[1] == SessionActionV::Publish(EventV::SessionCleared));
    }
}

/// A cleared conversation is announced with what the new session offers.
pub proof fn law_a_cleared_session_is_announced(created: NewSessionV)
    ensures
        ({
            let actions = reset_done(created);
            &&& actions.skip(5) == announced(created.modes, created.config_options)
            &&& actions[0] == SessionActionV::FinishTransition {
                acp_session_id: created.session_id,
            }
            &&& actions[2] == SessionActionV::Publish(
                EventV::SessionContextReset {
                    reason: "conversation cleared; the agent started a fresh session"@,
                },
            )
            &&& created.config_options matches Some(list) ==> {
                &&& actions.last() matches SessionActionV::Publish(
                    EventV::ConfigOptionsUpdated { options: shown },
                )
                &&& config_options::shows_options(shown, list)
            }
        }),
{
    law_offers_are_announced(created.modes, created.config_options);
    let more = announced(created.modes, created.config_options);
    assert(reset_done(created).skip(5) =~= more);
}

/// A cleared conversation ends with the turn ended and the request answered
/// with the new session's id.
pub proof fn law_a_reset_is_answered_with_the_new_id(id: Seq<char>)
    ensures
        reset_finished(id).len() == 2,
        reset_finished(id)[0] == SessionActionV::Publish(
            EventV::Stopped { reason: "session_reset"@ },
        ),
        reset_finished(id)[1] == SessionActionV::AnswerReset(
            ResetSessionOutcomeV::Reset { new_acp_session_id: id },
        ),
{
}

/// The settings of the old conversation are asked for again, each through the
/// new session's option of its own category and with the value that was kept;
/// what was not set, or has no option, is not asked for. Neither is a model that
/// the session has already.
pub proof fn law_settings_are_asked_for_again(
    session: SessionV,
    options: Option<Seq<ConfigOptionV>>,
    model_is_current: bool,
)
    ensures
        ({
            let again = reapply_of(session, options, model_is_current);
            let channels = config_options::channels_of(None, options);
            &&& again.model is Some <==> !model_is_current && session.default_model is Some
                && channels.model_config_option_id is Some
            &&& again.model matches Some(request) ==> Some(request.config_id)
                == channels.model_config_option_id && Some(request.value) == session.default_model
            &&& again.mode is Some <==> session.default_mode is Some
                && channels.mode_config_option_id is Some
            &&& again.mode matches Some(request) ==> Some(request.config_id)
                == channels.mode_config_option_id && Some(request.value) == session.default_mode
            &&& again.effort == session.default_effort
            &&& again.effort_id == channels.thought_level_config_option_id
        }),
{
}

/// No setting is passed over: what is asked for first is the model where one is
/// to be set, else the reasoning effort where one is to be set and has an
/// option, else the mode; each request is the one that was prepared.
pub proof fn law_no_setting_is_passed_over(state: ReapplyV)
    ensures
        match state.from_model() {
            Some((ReapplyStage::Model, request)) => state.model == Some(request),
            Some((ReapplyStage::Effort, request)) => state.model is None && state.effort_id
                == Some(request.config_id) && state.effort == Some(request.value),
            Some((ReapplyStage::Mode, request)) => state.model is None && (state.effort_id is None
                || state.effort is None) && state.mode == Some(request),
            None => state.model is None && (state.effort_id is None || state.effort is None)
                && state.mode is None,
        },
{
}

/// A setting that the agent accepts is shown with the list that it answers
/// with. A model that it refuses is told of, with its reason; a refused effort
/// or mode is not. After either answer the next setting is asked for.
pub proof fn law_answers_to_settings_are_told(
    state: ReapplyV,
    stage: ReapplyStage,
    reply: OptionReplyV,
)
    ensures
        ({
            let (after, step) = reapply_reply(state, stage, reply);
            &&& match reply {
                OptionReplyV::Accepted(list) => {
                    &&& step.actions.len() == 1
                    &&& step.actions[0] matches SessionActionV::Publish(
                        EventV::ConfigOptionsUpdated { options: shown },
                    )
                    &&& config_options::shows_options(shown, list)
                },
                OptionReplyV::Refused { text } => match (stage, state.model) {
                    (ReapplyStage::Model, Some(request)) => step.actions == seq![
                        SessionActionV::Publish(
                            EventV::ConfigOptionSwitchFailed {
                                config_id: request.config_id,
                                value: request.value,
                                reason: text,
                            },
                        ),
                    ],
                    _ => step.actions.len() == 0,
                },
                OptionReplyV::TimedOut => step.actions.len() == 0,
            }
            &&& reply !is TimedOut ==> match stage {
                ReapplyStage::Model => step.next == (ReapplyV { model: None, ..after }).from_model(),
                ReapplyStage::Effort => match step.next {
                    Some((ReapplyStage::Mode, request)) => state.mode == Some(request),
                    Some(_) => false,
                    None => state.mode is None,
                },
                ReapplyStage::Mode => step.next is None,
            }
            &&& after.model == state.model && after.effort == state.effort && after.mode
                == state.mode
            &&& !(reply is Accepted && stage is Model) ==> after == state
        }),
{
    if let OptionReplyV::Accepted(list) = reply {
        config_options::law_what_is_offered_is_shown(list);
    }
}

/// What decides over a silent turn is what is known of it.
pub proof fn law_a_probe_tells_what_is_known(state: BetweenPromptV)
    ensures
        ({
            let probe = idle_probe(state);
            &&& probe.active == state.active
            &&& probe.last_lifecycle_at == state.last_lifecycle_at
            &&& probe.cost_seen == state.cost_seen
            &&& probe.busy == state.busy()
            &&& probe.off_protocol == state.off_protocol
            &&& probe.wake_at is None <==> state.wake_at == 0
            &&& probe.wake_at matches Some(at) ==> at == state.wake_at
        }),
{
}

}
