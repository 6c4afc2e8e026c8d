//! One turn: what happens to it while its prompt is running, and how it ends.

use crate::control::StopReason;
use crate::event::{Event, EventV, RateLimitInfo, RateLimitInfoV};
use crate::json::{Json, JsonV};
use crate::lifecycle::{
    LifecycleEnvelope, LifecycleEnvelopeV, LifecycleSignal, LifecycleSignalV, OffProtocolWorkKind,
};
use crate::model;
use crate::model::Duplicate;
use crate::notifications::{Shared, SharedV};
use crate::session;
use crate::session::{
    publish_stopped, reject_busy, CancelCause, ClientCmd, ClientCmdV, ResetSessionOutcome,
    ResetSessionOutcomeV, Session, SessionAction, SessionActionV, SessionV,
    CANCEL_ESCALATION_GRACE_MS,
};
use crate::steer;
use crate::steer::{first_text_block, GrokSteerRequest, SteerOutcome, SteerRequest};
use crate::text;
use crate::time::Timestamp;
use crate::wire::{ContentBlock, ContentBlockV};
use vstd::prelude::*;

verus! {

/// How a turn goes on after a step.
#[derive(Debug, Clone, Copy, PartialEq, Eq, Structural)]
pub enum Flow {
    Continue,
    /// The turn ends.
    Break,
    /// The turn ends, and the failure that the step was about is passed on.
    Fail,
}

impl DeepView for Flow {
    type V = Flow;

    open spec fn deep_view(&self) -> Flow {
        *self
    }
}

impl Duplicate for Flow {
    fn duplicate(&self) -> (r: Self) {
        *self
    }
}

/// What is known about the end of a turn.
#[derive(Debug, Clone, Copy, PartialEq, Eq, Structural)]
pub struct TurnFlags {
    pub shutdown: bool,
    pub rate_limited: bool,
    pub force_stopped: bool,
    pub prompt_orphaned: bool,
    pub agent_unresponsive: bool,
    /// Whether the agent has ended the turn because it was cancelled.
    pub prompt_cancelled: bool,
    /// Whether the turn was cancelled because it had gone silent.
    pub orphan_cancel_sent: bool,
    /// Whether the turn has to end within a given time.
    pub cancelling: bool,
}

impl DeepView for TurnFlags {
    type V = TurnFlags;

    open spec fn deep_view(&self) -> TurnFlags {
        *self
    }
}

impl Duplicate for TurnFlags {
    fn duplicate(&self) -> (r: Self) {
        *self
    }
}

/// What the watchdog of a turn knows.
#[derive(Debug, Clone, Copy, PartialEq, Eq, Structural)]
pub struct WatchdogProbe {
    /// Whether the turn has been silent for too long.
    pub fire: bool,
    pub cost_seen: bool,
    pub off_protocol: Option<OffProtocolWorkKind>,
    pub saw_progress: bool,
}

impl DeepView for WatchdogProbe {
    type V = WatchdogProbe;

    open spec fn deep_view(&self) -> WatchdogProbe {
        *self
    }
}

impl Duplicate for WatchdogProbe {
    fn duplicate(&self) -> (r: Self) {
        *self
    }
}

/// What decides about the reason that is given for the end of a turn.
#[derive(Debug, Clone, Copy, PartialEq, Eq, Structural)]
pub struct StopFlags {
    pub rate_limited: bool,
    pub force_stopped: bool,
    pub prompt_orphaned: bool,
    pub agent_unresponsive: bool,
    pub shutdown: bool,
    pub prompt_cancelled: bool,
    pub finished_after_orphan_cancel: bool,
}

impl DeepView for StopFlags {
    type V = StopFlags;

    open spec fn deep_view(&self) -> StopFlags {
        *self
    }
}

impl Duplicate for StopFlags {
    fn duplicate(&self) -> (r: Self) {
        *self
    }
}

/// What a turn can go on with.
#[derive(Debug, Clone, Copy, PartialEq, Eq, Structural)]
pub struct ReadyArms {
    pub prompt: bool,
    pub command: bool,
    pub cancel_grace: bool,
    pub signal: bool,
    pub orphan_check: bool,
    pub steer: bool,
}

impl DeepView for ReadyArms {
    type V = ReadyArms;

    open spec fn deep_view(&self) -> ReadyArms {
        *self
    }
}

impl Duplicate for ReadyArms {
    fn duplicate(&self) -> (r: Self) {
        *self
    }
}

/// What a turn goes on with.
#[derive(Debug, Clone, Copy, PartialEq, Eq, Structural)]
pub enum Arm {
    Prompt,
    Command,
    CancelGrace,
    Signal,
    OrphanCheck,
    Steer,
}

impl DeepView for Arm {
    type V = Arm;

    open spec fn deep_view(&self) -> Arm {
        *self
    }
}

impl Duplicate for Arm {
    fn duplicate(&self) -> (r: Self) {
        *self
    }
}

/// How the prompt of a turn was answered.
#[derive(Debug, PartialEq, Eq)]
pub enum PromptReply {
    Ended(StopReason),
    /// With an error: its text, the limit that it tells of, and whether it
    /// says that the session is not known.
    Failed {
        text: String,
        rate_limit: Option<RateLimitInfo>,
        unsupported_session: bool,
    },
}

/// The model of [`PromptReply`].
#[verifier::ext_equal]
pub enum PromptReplyV {
    Ended(StopReason),
    Failed {
        text: Seq<char>,
        rate_limit: Option<RateLimitInfoV>,
        unsupported_session: bool,
    },
}

impl DeepView for PromptReply {
    type V = PromptReplyV;

    open spec fn deep_view(&self) -> PromptReplyV {
        match self {
            PromptReply::Ended(value) => PromptReplyV::Ended(value.deep_view()),
            PromptReply::Failed { text, rate_limit, unsupported_session } => {
                PromptReplyV::Failed {
                    text: text.deep_view(),
                    rate_limit: rate_limit.deep_view(),
                    unsupported_session: unsupported_session.deep_view(),
                }
            },
        }
    }
}

impl Duplicate for PromptReply {
    fn duplicate(&self) -> (r: Self) {
        match self {
            PromptReply::Ended(value) => PromptReply::Ended(value.duplicate()),
            PromptReply::Failed { text, rate_limit, unsupported_session } => {
                PromptReply::Failed {
                    text: text.duplicate(),
                    rate_limit: rate_limit.duplicate(),
                    unsupported_session: unsupported_session.duplicate(),
                }
            },
        }
    }
}

/// What happens to a turn.
#[derive(Debug, PartialEq, Eq)]
pub enum TurnInput {
    PromptReply(PromptReply),
    /// The owner asks for something, or is gone. With it comes the kind of
    /// work that the turn has left behind.
    Command { cmd: Option<ClientCmd>, off_protocol: Option<OffProtocolWorkKind> },
    /// The agent was told to cancel the turn, or could not be.
    CancelSent { cause: CancelCause, sent: bool, now: Timestamp },
    /// The time in which the turn had to end is over.
    CancelGrace,
    Signal(Option<LifecycleEnvelope>),
    OrphanCheck(WatchdogProbe),
    /// A message that was handed to the turn is answered; nothing stands for
    /// an error.
    SteerReply(Option<Json>),
}

/// The model of [`TurnInput`].
#[verifier::ext_equal]
pub enum TurnInputV {
    PromptReply(PromptReplyV),
    Command {
        cmd: Option<ClientCmdV>,
        off_protocol: Option<OffProtocolWorkKind>,
    },
    CancelSent { cause: CancelCause, sent: bool, now: Timestamp },
    CancelGrace,
    Signal(Option<LifecycleEnvelopeV>),
    OrphanCheck(WatchdogProbe),
    SteerReply(Option<JsonV>),
}

impl DeepView for TurnInput {
    type V = TurnInputV;

    open spec fn deep_view(&self) -> TurnInputV {
        match self {
            TurnInput::PromptReply(value) => TurnInputV::PromptReply(value.deep_view()),
            TurnInput::Command { cmd, off_protocol } => {
                TurnInputV::Command {
                    cmd: cmd.deep_view(),
                    off_protocol: off_protocol.deep_view(),
                }
            },
            TurnInput::CancelSent { cause, sent, now } => {
                TurnInputV::CancelSent {
                    cause: cause.deep_view(),
                    sent: sent.deep_view(),
                    now: now.deep_view(),
                }
            },
            TurnInput::CancelGrace => TurnInputV::CancelGrace,
            TurnInput::Signal(value) => TurnInputV::Signal(value.deep_view()),
            TurnInput::OrphanCheck(value) => TurnInputV::OrphanCheck(value.deep_view()),
            TurnInput::SteerReply(value) => TurnInputV::SteerReply(value.deep_view()),
        }
    }
}

impl Duplicate for TurnInput {
    fn duplicate(&self) -> (r: Self) {
        match self {
            TurnInput::PromptReply(value) => TurnInput::PromptReply(value.duplicate()),
            TurnInput::Command { cmd, off_protocol } => {
                TurnInput::Command {
                    cmd: cmd.duplicate(),
                    off_protocol: off_protocol.duplicate(),
                }
            },
            TurnInput::CancelSent { cause, sent, now } => {
                TurnInput::CancelSent {
                    cause: cause.duplicate(),
                    sent: sent.duplicate(),
                    now: now.duplicate(),
                }
            },
            TurnInput::CancelGrace => TurnInput::CancelGrace,
            TurnInput::Signal(value) => TurnInput::Signal(value.duplicate()),
            TurnInput::OrphanCheck(value) => TurnInput::OrphanCheck(value.duplicate()),
            TurnInput::SteerReply(value) => TurnInput::SteerReply(value.duplicate()),
        }
    }
}

/// What is done about what has happened to a turn.
#[derive(Debug, PartialEq, Eq)]
pub struct TurnStep {
    pub actions: Vec<SessionAction>,
    pub flow: Flow,
}

/// The model of [`TurnStep`].
#[verifier::ext_equal]
pub struct TurnStepV {
    pub actions: Seq<SessionActionV>,
    pub flow: Flow,
}

impl DeepView for TurnStep {
    type V = TurnStepV;

    open spec fn deep_view(&self) -> TurnStepV {
        TurnStepV {
            actions: self.actions.deep_view(),
            flow: self.flow.deep_view(),
        }
    }
}

impl Duplicate for TurnStep {
    fn duplicate(&self) -> (r: Self) {
        TurnStep {
            actions: self.actions.duplicate(),
            flow: self.flow.duplicate(),
        }
    }
}

/// A turn.
#[derive(Debug, PartialEq, Eq)]
pub struct Turn {
    /// The number of its prompt.
    pub epoch: u64,
    pub flags: TurnFlags,
    /// The message that was handed to the turn and is not answered yet. There
    /// is one at most, so that messages cannot overtake each other.
    pub steering: Option<Vec<ContentBlock>>,
    /// The messages behind it.
    pub steer_backlog: Vec<Vec<ContentBlock>>,
}

/// The model of [`Turn`].
#[verifier::ext_equal]
pub struct TurnV {
    pub epoch: u64,
    pub flags: TurnFlags,
    pub steering: Option<Seq<ContentBlockV>>,
    pub steer_backlog: Seq<Seq<ContentBlockV>>,
}

impl DeepView for Turn {
    type V = TurnV;

    open spec fn deep_view(&self) -> TurnV {
        TurnV {
            epoch: self.epoch.deep_view(),
            flags: self.flags.deep_view(),
            steering: self.steering.deep_view(),
            steer_backlog: self.steer_backlog.deep_view(),
        }
    }
}

impl Duplicate for Turn {
    fn duplicate(&self) -> (r: Self) {
        Turn {
            epoch: self.epoch.duplicate(),
            flags: self.flags.duplicate(),
            steering: self.steering.duplicate(),
            steer_backlog: self.steer_backlog.duplicate(),
        }
    }
}

/// No flag is set.
pub open spec fn no_flags() -> TurnFlags {
    TurnFlags {
        shutdown: false,
        rate_limited: false,
        force_stopped: false,
        prompt_orphaned: false,
        agent_unresponsive: false,
        prompt_cancelled: false,
        orphan_cancel_sent: false,
        cancelling: false,
    }
}

impl TurnV {
    /// A message waits only behind another.
    pub open spec fn wf(self) -> bool {
        self.steer_backlog.len() > 0 ==> self.steering is Some
    }

    /// The messages that were handed to the turn and are not answered yet.
    pub open spec fn unanswered(self) -> Seq<Seq<ContentBlockV>> {
        match self.steering {
            Some(blocks) => seq![blocks] + self.steer_backlog,
            None => self.steer_backlog,
        }
    }
}

/// A step with nothing to do.
pub open spec fn quiet(flow: Flow) -> TurnStepV {
    TurnStepV { actions: seq![], flow }
}

/// The state of a connection once a prompt takes it over. The prompt has the
/// next end; whatever was running before has none any more.
pub open spec fn prompt_started(state: SharedV) -> SharedV {
    SharedV {
        open_block: None,
        suppress_history_replay: false,
        prompt_sent_since_attach: true,
        adopted_turn_active: false,
        turn: crate::control::TurnOwnership {
            prompt_in_flight: true,
            terminal: state.turn.terminal.begun(),
        },
        between_prompt: state.between_prompt.for_prompt(),
        prompt_epoch: (state.prompt_epoch + 1) as u64,
        ..state
    }
}

/// The state of a connection once its prompt has ended.
pub open spec fn prompt_finished(state: SharedV) -> SharedV {
    SharedV {
        open_block: None,
        turn: crate::control::TurnOwnership {
            prompt_in_flight: false,
            terminal: state.turn.terminal.taken(),
        },
        ..state
    }
}

/// What is done once the prompt is answered, whether it is now said that the
/// context is lost, and what is known about the turn's end.
pub open spec fn reply_step(
    context_reset: bool,
    session: SessionV,
    flags: TurnFlags,
    reply: PromptReplyV,
) -> (bool, TurnFlags, TurnStepV) {
    match reply {
        PromptReplyV::Ended(reason) => (
            context_reset,
            TurnFlags { prompt_cancelled: reason == StopReason::Cancelled, ..flags },
            quiet(Flow::Break),
        ),
        PromptReplyV::Failed { text, rate_limit, unsupported_session } => match rate_limit {
            Some(info) => (
                context_reset,
                TurnFlags { rate_limited: true, shutdown: true, ..flags },
                TurnStepV {
                    actions: seq![SessionActionV::Publish(EventV::RateLimit { info })],
                    flow: Flow::Break,
                },
            ),
            None => if session.session_from_storage && unsupported_session {
                (
                    true,
                    flags,
                    TurnStepV {
                        actions: seq![
                            SessionActionV::Publish(
                                EventV::SessionContextReset {
                                    reason: "resumed session no longer available: "@ + text,
                                },
                            ),
                        ],
                        flow: Flow::Fail,
                    },
                )
            } else {
                (context_reset, flags, quiet(Flow::Fail))
            },
        },
    }
}

/// How a message is handed to the running turn.
pub open spec fn steer_action(session: SessionV, blocks: Seq<ContentBlockV>) -> SessionActionV {
    SessionActionV::Steer {
        method: if session.grok_shell {
            "__session/steering"@
        } else {
            "_session/steering"@
        },
        params: steer::steer_json(session.acp_session_id, blocks, steer::opt_in()),
    }
}

/// The turn once a message is handed to it, or put behind one that is not
/// answered yet, and what is done about it.
pub open spec fn steered(session: SessionV, turn: TurnV, blocks: Seq<ContentBlockV>) -> (
    TurnV,
    Seq<SessionActionV>,
) {
    if turn.steering is Some {
        (TurnV { steer_backlog: turn.steer_backlog.push(blocks), ..turn }, seq![])
    } else {
        (TurnV { steering: Some(blocks), ..turn }, seq![steer_action(session, blocks)])
    }
}

/// What is done about a message that comes while the turn is running. One
/// that comes while the turn is being cancelled shows that the agent is
/// stuck. A turn that compacts the context would swallow a message, so it
/// gets none.
pub open spec fn follow_up_step(
    session: SessionV,
    turn: TurnV,
    blocks: Seq<ContentBlockV>,
    off_protocol: Option<OffProtocolWorkKind>,
) -> (TurnV, TurnStepV) {
    let rejection = SessionActionV::Publish(session::busy_event(steer::first_text(blocks)));
    if turn.flags.cancelling {
        (
            TurnV {
                flags: TurnFlags { agent_unresponsive: true, shutdown: true, ..turn.flags },
                ..turn
            },
            TurnStepV { actions: seq![rejection], flow: Flow::Break },
        )
    } else if session.steering_capable && off_protocol != Some(OffProtocolWorkKind::Compaction) {
        let (after, actions) = steered(session, turn, blocks);
        (after, TurnStepV { actions, flow: Flow::Continue })
    } else {
        (turn, TurnStepV { actions: seq![rejection], flow: Flow::Continue })
    }
}

/// What is done about a request of the owner while a turn is running.
pub open spec fn command_step(
    session: SessionV,
    turn: TurnV,
    cmd: Option<ClientCmdV>,
    off_protocol: Option<OffProtocolWorkKind>,
) -> (SessionV, TurnV, TurnStepV) {
    match cmd {
        Some(ClientCmdV::Cancel) => (
            session,
            turn,
            TurnStepV {
                actions: seq![SessionActionV::SendCancel { cause: CancelCause::User }],
                flow: Flow::Continue,
            },
        ),
        Some(ClientCmdV::ForceStop) => (
            session,
            TurnV {
                flags: TurnFlags { force_stopped: true, shutdown: true, ..turn.flags },
                ..turn
            },
            TurnStepV {
                actions: seq![SessionActionV::SendCancel { cause: CancelCause::ForceStop }],
                flow: Flow::Break,
            },
        ),
        Some(ClientCmdV::SetConfigOption { config_id, value }) => (
            session::with_option(session, config_id, value),
            turn,
            TurnStepV {
                actions: seq![SessionActionV::SetConfigOption { config_id, value }],
                flow: Flow::Continue,
            },
        ),
        Some(ClientCmdV::SetMode(mode_id)) => (
            session,
            turn,
            TurnStepV {
                actions: seq![
                    SessionActionV::SetMode(
                        crate::config_options::mode_request(mode_id, session.channels),
                    ),
                ],
                flow: Flow::Continue,
            },
        ),
        Some(ClientCmdV::DeleteSession { acp_session_id }) => (
            session,
            turn,
            TurnStepV {
                actions: seq![SessionActionV::DeleteSession { acp_session_id }],
                flow: Flow::Continue,
            },
        ),
        Some(ClientCmdV::ResumeBackgroundTailing) => (
            session,
            turn,
            TurnStepV {
                actions: seq![SessionActionV::ResumeBackgroundTailing],
                flow: Flow::Continue,
            },
        ),
        Some(ClientCmdV::Prompt(blocks)) => {
            let (after, step) = follow_up_step(session, turn, blocks, off_protocol);
            (session, after, step)
        },
        Some(ClientCmdV::ResetSession { text }) => (
            session,
            turn,
            TurnStepV {
                actions: seq![
                    SessionActionV::Publish(session::busy_event(text)),
                    SessionActionV::AnswerReset(
                        ResetSessionOutcomeV::Failed {
                            message:
                                "a turn is in flight; stop it before clearing the conversation"@,
                        },
                    ),
                ],
                flow: Flow::Continue,
            },
        ),
        Some(ClientCmdV::Shutdown) | None => (
            session,
            TurnV { flags: TurnFlags { shutdown: true, ..turn.flags }, ..turn },
            quiet(Flow::Break),
        ),
    }
}

/// What is done once the agent was told to cancel the turn, or could not be.
/// Only the first time is the user told of it, and only then does the time
/// begin in which the turn has to end. An agent that cannot be told is gone:
/// the turn ends, and the connection with it.
pub open spec fn cancel_sent_step(
    flags: TurnFlags,
    cause: CancelCause,
    sent: bool,
    now: Timestamp,
) -> (TurnFlags, TurnStepV) {
    let arm = SessionActionV::ArmCancelGrace { millis: CANCEL_ESCALATION_GRACE_MS };
    match cause {
        CancelCause::User => if !sent {
            (TurnFlags { shutdown: true, ..flags }, quiet(Flow::Break))
        } else if flags.cancelling {
            (flags, quiet(Flow::Continue))
        } else {
            (
                TurnFlags { cancelling: true, ..flags },
                TurnStepV {
                    actions: seq![
                        arm,
                        SessionActionV::Publish(
                            EventV::CancelRequested {
                                escalates_at: now.later(CANCEL_ESCALATION_GRACE_MS as int),
                            },
                        ),
                    ],
                    flow: Flow::Continue,
                },
            )
        },
        CancelCause::ForceStop => (flags, quiet(Flow::Break)),
        CancelCause::Orphan => if !sent {
            (TurnFlags { shutdown: true, ..flags }, quiet(Flow::Break))
        } else {
            (
                TurnFlags { orphan_cancel_sent: true, cancelling: true, ..flags },
                TurnStepV {
                    actions: if flags.cancelling {
                        seq![SessionActionV::RearmOrphanCheck]
                    } else {
                        seq![arm, SessionActionV::RearmOrphanCheck]
                    },
                    flow: Flow::Continue,
                },
            )
        },
    }
}

/// Whether a turn is over as far as its watchdog can tell: its costs were
/// reported, and it has left no work behind.
pub open spec fn wrapped_up(probe: WatchdogProbe) -> bool {
    probe.cost_seen && probe.off_protocol is None
}

/// What is done when a turn is looked at. A silent turn that is over ends as
/// if it had been answered; any other silent turn is cancelled.
pub open spec fn orphan_step(flags: TurnFlags, probe: WatchdogProbe) -> (TurnFlags, TurnStepV) {
    if probe.fire && wrapped_up(probe) {
        (
            flags,
            TurnStepV { actions: seq![SessionActionV::ReleaseLocalPrompt], flow: Flow::Break },
        )
    } else if probe.fire {
        (
            TurnFlags { prompt_orphaned: true, ..flags },
            TurnStepV {
                actions: seq![SessionActionV::SendCancel { cause: CancelCause::Orphan }],
                flow: Flow::Continue,
            },
        )
    } else {
        (
            flags,
            TurnStepV { actions: seq![SessionActionV::RearmOrphanCheck], flow: Flow::Continue },
        )
    }
}

/// What is done about a signal. One that belongs to another prompt is
/// ignored.
pub open spec fn signal_step(epoch: u64, envelope: Option<LifecycleEnvelopeV>) -> TurnStepV {
    match envelope {
        Some(envelope) => if envelope.epoch == epoch {
            TurnStepV {
                actions: seq![SessionActionV::ApplySignal(envelope.signal)],
                flow: Flow::Continue,
            }
        } else {
            quiet(Flow::Continue)
        },
        None => quiet(Flow::Continue),
    }
}

/// The session and the turn once the message that was handed to the turn is
/// answered, and what is done about the answer itself.
pub open spec fn answered(session: SessionV, turn: TurnV, reply: Option<JsonV>) -> (
    SessionV,
    TurnV,
    Seq<SessionActionV>,
) {
    let blocks = turn.steering->0;
    let free = TurnV { steering: None, ..turn };
    match reply {
        Some(value) => match steer::outcome_of(value) {
            SteerOutcome::Injected => (
                session,
                free,
                seq![SessionActionV::ApplySignal(LifecycleSignalV::Progress)],
            ),
            SteerOutcome::PromptRequired => (
                SessionV {
                    pending_prompts: session.pending_prompts.push(blocks) + turn.steer_backlog,
                    ..session
                },
                TurnV { steer_backlog: seq![], ..free },
                seq![],
            ),
            _ => (session, free, seq![]),
        },
        None => (
            session,
            free,
            seq![SessionActionV::Publish(session::busy_event(steer::first_text(blocks)))],
        ),
    }
}

/// What is done once the message that was handed to the turn is answered. The
/// next message follows.
pub open spec fn steer_reply_step(session: SessionV, turn: TurnV, reply: Option<JsonV>) -> (
    SessionV,
    TurnV,
    TurnStepV,
) {
    let (session, free, actions) = answered(session, turn, reply);
    if free.steer_backlog.len() > 0 {
        let (after, more) = steered(
            session,
            TurnV { steer_backlog: free.steer_backlog.drop_first(), ..free },
            free.steer_backlog.first(),
        );
        (session, after, TurnStepV { actions: actions + more, flow: Flow::Continue })
    } else {
        (session, free, TurnStepV { actions, flow: Flow::Continue })
    }
}

/// What a turn changes.
#[verifier::ext_equal]
pub struct TurnStateV {
    /// Whether it was said that the session's context is lost.
    pub context_reset: bool,
    pub session: SessionV,
    pub turn: TurnV,
}

/// What is done about what has happened to a turn.
pub open spec fn turn_step(state: TurnStateV, input: TurnInputV) -> (TurnStateV, TurnStepV) {
    let with_flags = |flags: TurnFlags|
        TurnStateV { turn: TurnV { flags, ..state.turn }, ..state };
    match input {
        TurnInputV::PromptReply(reply) => {
            let (context_reset, flags, step) = reply_step(
                state.context_reset,
                state.session,
                state.turn.flags,
                reply,
            );
            (TurnStateV { context_reset, ..with_flags(flags) }, step)
        },
        TurnInputV::Command { cmd, off_protocol } => {
            let (session, turn, step) = command_step(state.session, state.turn, cmd, off_protocol);
            (TurnStateV { session, turn, ..state }, step)
        },
        TurnInputV::CancelSent { cause, sent, now } => {
            let (flags, step) = cancel_sent_step(state.turn.flags, cause, sent, now);
            (with_flags(flags), step)
        },
        TurnInputV::CancelGrace => (
            with_flags(
                TurnFlags { agent_unresponsive: true, shutdown: true, ..state.turn.flags },
            ),
            quiet(Flow::Break),
        ),
        TurnInputV::Signal(envelope) => (state, signal_step(state.turn.epoch, envelope)),
        TurnInputV::OrphanCheck(probe) => {
            let (flags, step) = orphan_step(state.turn.flags, probe);
            (with_flags(flags), step)
        },
        TurnInputV::SteerReply(reply) => {
            let (session, turn, step) = steer_reply_step(state.session, state.turn, reply);
            (TurnStateV { session, turn, ..state }, step)
        },
    }
}

/// What a turn goes on with. The answer to the prompt comes first, then the
/// owner's requests and the time in which the turn has to end, and only then
/// the signals, of which a busy agent always has one ready.
pub open spec fn picked(
    flags: TurnFlags,
    steering: bool,
    ready: ReadyArms,
    prompt_observed: bool,
    orphan_check_enabled: bool,
) -> Option<Arm> {
    if ready.prompt && prompt_observed {
        Some(Arm::Prompt)
    } else if ready.command {
        Some(Arm::Command)
    } else if ready.cancel_grace && flags.cancelling {
        Some(Arm::CancelGrace)
    } else if ready.signal {
        Some(Arm::Signal)
    } else if ready.orphan_check && orphan_check_enabled && !flags.orphan_cancel_sent {
        Some(Arm::OrphanCheck)
    } else if ready.steer && steering {
        Some(Arm::Steer)
    } else {
        None
    }
}

/// What decides about the reason that is given for the end of a turn.
pub open spec fn stop_flags(flags: TurnFlags, probe: WatchdogProbe) -> StopFlags {
    StopFlags {
        rate_limited: flags.rate_limited,
        force_stopped: flags.force_stopped,
        prompt_orphaned: flags.prompt_orphaned,
        agent_unresponsive: flags.agent_unresponsive,
        shutdown: flags.shutdown,
        prompt_cancelled: flags.prompt_cancelled,
        finished_after_orphan_cancel: flags.orphan_cancel_sent && wrapped_up(probe),
    }
}

/// Whether a turn that ended without a word may have ended with an error that
/// only the agent's own files tell of.
pub open spec fn hides_error(agent_key: Seq<char>, probe: WatchdogProbe) -> bool {
    agent_key == "opencode"@ && wrapped_up(probe) && !probe.saw_progress
}

/// Whether the agent's own files are to be searched for an error at the end of
/// a turn.
pub fn may_hide_error(agent_key: &str, probe: &WatchdogProbe) -> (r: bool)
    ensures
        r == hides_error(agent_key@, *probe),
{
    text::same(agent_key, "opencode") && probe.cost_seen && probe.off_protocol.is_none()
        && !probe.saw_progress
}

/// What is done at the end of a turn.
pub open spec fn finish_actions(
    agent_key: Seq<char>,
    probe: WatchdogProbe,
    runtime_error: Option<Seq<char>>,
    reason: Seq<char>,
) -> Seq<SessionActionV> {
    let stopped = SessionActionV::Publish(EventV::Stopped { reason });
    match runtime_error {
        Some(message) => if hides_error(agent_key, probe) {
            seq![SessionActionV::Publish(EventV::PromptRuntimeError { message }), stopped]
        } else {
            seq![stopped]
        },
        None => seq![stopped],
    }
}

/// Whether the answer to the next prompt is to be ignored, so that the turn
/// goes silent. Only debug builds can be told so. `raw` is what the
/// environment says about it.
pub fn simulate_orphan(debug: bool, raw: Option<&str>) -> (r: bool)
    ensures
        r == (debug && raw is Some && raw->0@ == "1"@),
{
    match raw {
        Some(raw) => debug && text::same(raw, "1"),
        None => false,
    }
}

fn no_actions(flow: Flow) -> (r: TurnStep)
    ensures
        r.deep_view() == quiet(flow),
{
    TurnStep { actions: model::empty(), flow }
}

fn one_action(action: SessionAction, flow: Flow) -> (r: TurnStep)
    ensures
        r.deep_view() == (TurnStepV { actions: seq![action.deep_view()], flow }),
{
    TurnStep { actions: model::one(action), flow }
}

impl Shared {
    /// A prompt takes the connection over.
    pub fn start_prompt(&mut self, blocks: Vec<ContentBlock>) -> (r: (Turn, Vec<SessionAction>))
        requires
            old(self).prompt_epoch < u64::MAX,
        ensures
            final(self).deep_view() == prompt_started(old(self).deep_view()),
            r.0.deep_view() == (TurnV {
                epoch: final(self).deep_view().prompt_epoch,
                flags: no_flags(),
                steering: None,
                steer_backlog: seq![],
            }),
            r.0.deep_view().wf(),
            r.1.deep_view() == seq![
                SessionActionV::SupersedeAdoptedTurn,
                SessionActionV::DropQueuedSignals,
                SessionActionV::SendPrompt { blocks: blocks.deep_view() },
            ],
    {
        self.message_dedup.reset();
        self.suppress_history_replay = false;
        self.prompt_sent_since_attach = true;
        self.adopted_turn_active = false;
        self.turn.prompt_in_flight = true;
        self.turn.terminal.begin_turn();
        self.between_prompt.reset_for_prompt();
        self.prompt_epoch = self.prompt_epoch + 1;
        let turn = Turn {
            epoch: self.prompt_epoch,
            flags: TurnFlags {
                shutdown: false,
                rate_limited: false,
                force_stopped: false,
                prompt_orphaned: false,
                agent_unresponsive: false,
                prompt_cancelled: false,
                orphan_cancel_sent: false,
                cancelling: false,
            },
            steering: None,
            steer_backlog: model::empty(),
        };
        let ghost sent = blocks.deep_view();
        let mut actions = model::two(
            SessionAction::SupersedeAdoptedTurn,
            SessionAction::DropQueuedSignals,
        );
        model::push(&mut actions, SessionAction::SendPrompt { blocks });
        proof {
            assert(actions.deep_view() =~= seq![
                SessionActionV::SupersedeAdoptedTurn,
                SessionActionV::DropQueuedSignals,
                SessionActionV::SendPrompt { blocks: sent },
            ]);
        }
        (turn, actions)
    }
}

impl Turn {
    /// Picks what the turn goes on with. `prompt_observed` says whether the
    /// answer to the prompt is looked at, and `orphan_check_enabled` whether
    /// silent turns are looked for.
    pub fn next_arm(
        &self,
        ready: ReadyArms,
        prompt_observed: bool,
        orphan_check_enabled: bool,
    ) -> (r: Option<Arm>)
        ensures
            r == picked(
                self.flags,
                self.deep_view().steering is Some,
                ready,
                prompt_observed,
                orphan_check_enabled,
            ),
    {
        if ready.prompt && prompt_observed {
            Some(Arm::Prompt)
        } else if ready.command {
            Some(Arm::Command)
        } else if ready.cancel_grace && self.flags.cancelling {
            Some(Arm::CancelGrace)
        } else if ready.signal {
            Some(Arm::Signal)
        } else if ready.orphan_check && orphan_check_enabled && !self.flags.orphan_cancel_sent {
            Some(Arm::OrphanCheck)
        } else if ready.steer && self.steering.is_some() {
            Some(Arm::Steer)
        } else {
            None
        }
    }

    fn on_prompt_result(
        &mut self,
        session: &Session,
        context_reset_emitted: &mut bool,
        reply: PromptReply,
    ) -> (r: TurnStep)
        ensures
            ({
                let (context_reset, flags, step) = reply_step(
                    *old(context_reset_emitted),
                    session.deep_view(),
                    old(self).flags,
                    reply.deep_view(),
                );
                &&& *final(context_reset_emitted) == context_reset
                &&& final(self).deep_view() == (TurnV { flags, ..old(self).deep_view() })
                &&& r.deep_view() == step
            }),
    {
        match reply {
            PromptReply::Ended(reason) => {
                self.flags.prompt_cancelled = match reason {
                    StopReason::Cancelled => true,
                    _ => false,
                };
                no_actions(Flow::Break)
            },
            PromptReply::Failed { text, rate_limit, unsupported_session } => match rate_limit {
                Some(info) => {
                    self.flags.rate_limited = true;
                    self.flags.shutdown = true;
                    one_action(SessionAction::Publish(Event::RateLimit { info }), Flow::Break)
                },
                None => {
                    if session.session_from_storage && unsupported_session {
                        *context_reset_emitted = true;
                        let reason = text::cat(
                            "resumed session no longer available: ",
                            text.as_str(),
                        );
                        one_action(
                            SessionAction::Publish(Event::SessionContextReset { reason }),
                            Flow::Fail,
                        )
                    } else {
                        no_actions(Flow::Fail)
                    }
                },
            },
        }
    }

    /// Hands a message to the turn, or puts it behind one that is not
    /// answered yet.
    fn steer_or_backlog(&mut self, session: &Session, blocks: Vec<ContentBlock>) -> (r: Vec<
        SessionAction,
    >)
        ensures
            (final(self).deep_view(), r.deep_view()) == steered(
                session.deep_view(),
                old(self).deep_view(),
                blocks.deep_view(),
            ),
    {
        if self.steering.is_some() {
            model::push(&mut self.steer_backlog, blocks);
            return model::empty();
        }
        let copy = blocks.duplicate();
        let id = session.acp_session_id.clone();
        let action = if session.grok_shell {
            SessionAction::Steer {
                method: GrokSteerRequest::method().to_owned(),
                params: GrokSteerRequest::new(id, copy).to_json(),
            }
        } else {
            SessionAction::Steer {
                method: SteerRequest::method().to_owned(),
                params: SteerRequest::new(id, copy).to_json(),
            }
        };
        self.steering = Some(blocks);
        model::one(action)
    }

    fn on_follow_up(
        &mut self,
        session: &Session,
        blocks: Vec<ContentBlock>,
        off_protocol: Option<OffProtocolWorkKind>,
    ) -> (r: TurnStep)
        ensures
            (final(self).deep_view(), r.deep_view()) == follow_up_step(
                session.deep_view(),
                old(self).deep_view(),
                blocks.deep_view(),
                off_protocol,
            ),
    {
        if self.flags.cancelling {
            self.flags.agent_unresponsive = true;
            self.flags.shutdown = true;
            return one_action(reject_busy(first_text_block(&blocks)), Flow::Break);
        }
        let compacting = match off_protocol {
            Some(OffProtocolWorkKind::Compaction) => true,
            _ => false,
        };
        if session.steering_capable && !compacting {
            let actions = self.steer_or_backlog(session, blocks);
            TurnStep { actions, flow: Flow::Continue }
        } else {
            one_action(reject_busy(first_text_block(&blocks)), Flow::Continue)
        }
    }

    fn on_command(
        &mut self,
        session: &mut Session,
        cmd: Option<ClientCmd>,
        off_protocol: Option<OffProtocolWorkKind>,
    ) -> (r: TurnStep)
        ensures
            (final(session).deep_view(), final(self).deep_view(), r.deep_view()) == command_step(
                old(session).deep_view(),
                old(self).deep_view(),
                cmd.deep_view(),
                off_protocol,
            ),
    {
        match cmd {
            Some(ClientCmd::Cancel) => one_action(
                SessionAction::SendCancel { cause: CancelCause::User },
                Flow::Continue,
            ),
            Some(ClientCmd::ForceStop) => {
                self.flags.force_stopped = true;
                self.flags.shutdown = true;
                one_action(
                    SessionAction::SendCancel { cause: CancelCause::ForceStop },
                    Flow::Break,
                )
            },
            Some(ClientCmd::SetConfigOption { config_id, value }) => one_action(
                session.dispatch_config_option(config_id, value),
                Flow::Continue,
            ),
            Some(ClientCmd::SetMode(mode_id)) => one_action(
                session.dispatch_mode(mode_id),
                Flow::Continue,
            ),
            Some(ClientCmd::DeleteSession { acp_session_id }) => one_action(
                SessionAction::DeleteSession { acp_session_id },
                Flow::Continue,
            ),
            Some(ClientCmd::ResumeBackgroundTailing) => one_action(
                SessionAction::ResumeBackgroundTailing,
                Flow::Continue,
            ),
            Some(ClientCmd::Prompt(blocks)) => self.on_follow_up(&*session, blocks, off_protocol),
            Some(ClientCmd::ResetSession { text }) => {
                let message =
                    "a turn is in flight; stop it before clearing the conversation".to_owned();
                TurnStep {
                    actions: model::two(
                        reject_busy(text),
                        SessionAction::AnswerReset(ResetSessionOutcome::Failed { message }),
                    ),
                    flow: Flow::Continue,
                }
            },
            Some(ClientCmd::Shutdown) | None => {
                self.flags.shutdown = true;
                no_actions(Flow::Break)
            },
        }
    }

    fn on_cancel_sent(&mut self, cause: CancelCause, sent: bool, now: Timestamp) -> (r: TurnStep)
        requires
            now.valid(),
            now.reaches(CANCEL_ESCALATION_GRACE_MS as int),
        ensures
            ({
                let (flags, step) = cancel_sent_step(old(self).flags, cause, sent, now);
                &&& final(self).deep_view() == (TurnV { flags, ..old(self).deep_view() })
                &&& r.deep_view() == step
            }),
    {
        let arm = SessionAction::ArmCancelGrace { millis: CANCEL_ESCALATION_GRACE_MS };
        match cause {
            CancelCause::User => {
                if !sent {
                    self.flags.shutdown = true;
                    return no_actions(Flow::Break);
                }
                if self.flags.cancelling {
                    return no_actions(Flow::Continue);
                }
                self.flags.cancelling = true;
                let escalates_at = now.plus_millis(CANCEL_ESCALATION_GRACE_MS as i64);
                TurnStep {
                    actions: model::two(
                        arm,
                        SessionAction::Publish(Event::CancelRequested { escalates_at }),
                    ),
                    flow: Flow::Continue,
                }
            },
            CancelCause::ForceStop => no_actions(Flow::Break),
            CancelCause::Orphan => {
                if !sent {
                    self.flags.shutdown = true;
                    return no_actions(Flow::Break);
                }
                self.flags.orphan_cancel_sent = true;
                if self.flags.cancelling {
                    return one_action(SessionAction::RearmOrphanCheck, Flow::Continue);
                }
                self.flags.cancelling = true;
                TurnStep {
                    actions: model::two(arm, SessionAction::RearmOrphanCheck),
                    flow: Flow::Continue,
                }
            },
        }
    }

    fn on_orphan_check(&mut self, probe: WatchdogProbe) -> (r: TurnStep)
        ensures
            ({
                let (flags, step) = orphan_step(old(self).flags, probe);
                &&& final(self).deep_view() == (TurnV { flags, ..old(self).deep_view() })
                &&& r.deep_view() == step
            }),
    {
        if probe.fire && probe.cost_seen && probe.off_protocol.is_none() {
            return one_action(SessionAction::ReleaseLocalPrompt, Flow::Break);
        }
        if probe.fire {
            self.flags.prompt_orphaned = true;
            return one_action(
                SessionAction::SendCancel { cause: CancelCause::Orphan },
                Flow::Continue,
            );
        }
        one_action(SessionAction::RearmOrphanCheck, Flow::Continue)
    }

    fn take_answer(
        &mut self,
        session: &mut Session,
        blocks: Vec<ContentBlock>,
        reply: Option<Json>,
    ) -> (r: Vec<SessionAction>)
        requires
            old(self).deep_view().steering is None,
        ensures
            (final(session).deep_view(), final(self).deep_view(), r.deep_view()) == answered(
                old(session).deep_view(),
                (TurnV { steering: Some(blocks.deep_view()), ..old(self).deep_view() }),
                reply.deep_view(),
            ),
    {
        match reply {
            Some(value) => match SteerOutcome::from_response(&value) {
                SteerOutcome::Injected => model::one(
                    SessionAction::ApplySignal(LifecycleSignal::Progress),
                ),
                SteerOutcome::PromptRequired => {
                    model::push(&mut session.pending_prompts, blocks);
                    let mut parked: Vec<Vec<ContentBlock>> = model::empty();
                    std::mem::swap(&mut parked, &mut self.steer_backlog);
                    model::extend(&mut session.pending_prompts, parked);
                    model::empty()
                },
                _ => model::empty(),
            },
            None => model::one(reject_busy(first_text_block(&blocks))),
        }
    }

    fn on_steer_result(&mut self, session: &mut Session, reply: Option<Json>) -> (r: TurnStep)
        requires
            old(self).deep_view().steering is Some,
        ensures
            (final(session).deep_view(), final(self).deep_view(), r.deep_view())
                == steer_reply_step(
                old(session).deep_view(),
                old(self).deep_view(),
                reply.deep_view(),
            ),
    {
        let mut steering: Option<Vec<ContentBlock>> = None;
        std::mem::swap(&mut steering, &mut self.steering);
        let ghost free = self.deep_view();
        match steering {
            Some(blocks) => {
                proof {
                    assert((TurnV { steering: Some(blocks.deep_view()), ..free })
                        == old(self).deep_view());
                }
                let mut actions = self.take_answer(session, blocks, reply);
                if let Some(next) = model::pop_first(&mut self.steer_backlog) {
                    let more = self.steer_or_backlog(&*session, next);
                    model::extend(&mut actions, more);
                }
                TurnStep { actions, flow: Flow::Continue }
            },
            None => no_actions(Flow::Continue),
        }
    }

    /// Goes on with what has happened to the turn.
    pub fn on_input(
        &mut self,
        session: &mut Session,
        shared: &mut Shared,
        input: TurnInput,
    ) -> (r: TurnStep)
        requires
            input.deep_view() is SteerReply ==> old(self).deep_view().steering is Some,
            input.deep_view() matches TurnInputV::CancelSent { now, .. } ==> now.valid()
                && now.reaches(CANCEL_ESCALATION_GRACE_MS as int),
        ensures
            ({
                let (after, step) = turn_step(
                    TurnStateV {
                        context_reset: old(shared).deep_view().context_reset_emitted,
                        session: old(session).deep_view(),
                        turn: old(self).deep_view(),
                    },
                    input.deep_view(),
                );
                &&& final(self).deep_view() == after.turn
                &&& final(session).deep_view() == after.session
                &&& final(shared).deep_view() == (SharedV {
                    context_reset_emitted: after.context_reset,
                    ..old(shared).deep_view()
                })
                &&& r.deep_view() == step
            }),
    {
        match input {
            TurnInput::PromptReply(reply) => {
                let mut context_reset = shared.context_reset_emitted;
                let step = self.on_prompt_result(&*session, &mut context_reset, reply);
                shared.context_reset_emitted = context_reset;
                step
            },
            TurnInput::Command { cmd, off_protocol } => self.on_command(
                session,
                cmd,
                off_protocol,
            ),
            TurnInput::CancelSent { cause, sent, now } => self.on_cancel_sent(cause, sent, now),
            TurnInput::CancelGrace => {
                self.flags.agent_unresponsive = true;
                self.flags.shutdown = true;
                no_actions(Flow::Break)
            },
            TurnInput::Signal(envelope) => match envelope {
                Some(envelope) => {
                    if envelope.epoch == self.epoch {
                        one_action(SessionAction::ApplySignal(envelope.signal), Flow::Continue)
                    } else {
                        no_actions(Flow::Continue)
                    }
                },
                None => no_actions(Flow::Continue),
            },
            TurnInput::OrphanCheck(probe) => self.on_orphan_check(probe),
            TurnInput::SteerReply(reply) => self.on_steer_result(session, reply),
        }
    }

    /// What decides about the reason that is given for the end of the turn.
    pub fn stop_flags(&self, probe: &WatchdogProbe) -> (r: StopFlags)
        ensures
            r == stop_flags(self.flags, *probe),
    {
        StopFlags {
            rate_limited: self.flags.rate_limited,
            force_stopped: self.flags.force_stopped,
            prompt_orphaned: self.flags.prompt_orphaned,
            agent_unresponsive: self.flags.agent_unresponsive,
            shutdown: self.flags.shutdown,
            prompt_cancelled: self.flags.prompt_cancelled,
            finished_after_orphan_cancel: self.flags.orphan_cancel_sent && probe.cost_seen
                && probe.off_protocol.is_none(),
        }
    }

    /// Ends the turn: its end is published, and nothing else publishes it
    /// again. `runtime_error` is an error that was found in the agent's own
    /// files. Says whether the connection is to be closed.
    pub fn finish_turn(
        self,
        shared: &mut Shared,
        agent_key: &str,
        probe: &WatchdogProbe,
        runtime_error: Option<String>,
        reason: &str,
    ) -> (r: (bool, Vec<SessionAction>))
        ensures
            final(shared).deep_view() == prompt_finished(old(shared).deep_view()),
            r.0 == self.flags.shutdown,
            r.1.deep_view() == finish_actions(
                agent_key@,
                *probe,
                runtime_error.deep_view(),
                reason@,
            ),
    {
        let mut actions: Vec<SessionAction> = model::empty();
        let hides = may_hide_error(agent_key, probe);
        let ghost error = runtime_error.deep_view();
        if hides {
            if let Some(message) = runtime_error {
                model::push(
                    &mut actions,
                    SessionAction::Publish(Event::PromptRuntimeError { message }),
                );
            }
        }
        shared.turn.terminal.claim();
        model::push(&mut actions, publish_stopped(reason));
        shared.message_dedup.reset();
        shared.turn.prompt_in_flight = false;
        proof {
            assert(actions.deep_view() =~= finish_actions(agent_key@, *probe, error, reason@));
        }
        (self.flags.shutdown, actions)
    }
}

/// A request of the owner is never kept waiting by signals, however many are
/// queued, and neither is the time in which a cancelled turn has to end.
pub proof fn law_signals_never_hold_up_the_owner(
    flags: TurnFlags,
    steering: bool,
    ready: ReadyArms,
    prompt_observed: bool,
    orphan_check_enabled: bool,
)
    requires
        ready.command || (ready.cancel_grace && flags.cancelling),
    ensures
        picked(flags, steering, ready, prompt_observed, orphan_check_enabled) == (if ready.prompt
            && prompt_observed {
            Some(Arm::Prompt)
        } else if ready.command {
            Some(Arm::Command)
        } else {
            Some(Arm::CancelGrace)
        }),
{
}

/// Whatever is ready and allowed, the turn goes on with something.
pub proof fn law_a_ready_turn_goes_on(
    flags: TurnFlags,
    steering: bool,
    ready: ReadyArms,
    orphan_check_enabled: bool,
)
    requires
        ready.prompt || ready.command || ready.signal || (ready.steer && steering),
    ensures
        picked(flags, steering, ready, true, orphan_check_enabled) is Some,
{
}

/// The state of a turn after the first `n` of the things that happen to it.
pub open spec fn state_at(start: TurnStateV, inputs: Seq<TurnInputV>, n: nat) -> TurnStateV
    decreases n,
{
    if n == 0 {
        start
    } else {
        turn_step(state_at(start, inputs, (n - 1) as nat), inputs[n - 1]).0
    }
}

/// What is done about the thing with the index `i` that happens to a turn.
pub open spec fn step_at(start: TurnStateV, inputs: Seq<TurnInputV>, i: int) -> TurnStepV {
    turn_step(state_at(start, inputs, i as nat), inputs[i]).1
}

/// Whether an action tells the user that the turn is being cancelled.
pub open spec fn announces_cancel(action: SessionActionV) -> bool {
    action matches SessionActionV::Publish(event) && event is CancelRequested
}

/// Whether an action publishes the end of a turn.
pub open spec fn publishes_end(action: SessionActionV) -> bool {
    action matches SessionActionV::Publish(event) && event is Stopped
}

/// Whether a step tells the user that the turn is being cancelled.
pub open spec fn step_announces(step: TurnStepV) -> bool {
    exists|i: int| 0 <= i < step.actions.len() && announces_cancel(#[trigger] step.actions[i])
}

proof fn lemma_announcing_needs_calm(state: TurnStateV, input: TurnInputV)
    requires
        step_announces(turn_step(state, input).1),
    ensures
        !state.turn.flags.cancelling,
        turn_step(state, input).0.turn.flags.cancelling,
{
    let actions = turn_step(state, input).1.actions;
    let i = choose|i: int| 0 <= i < actions.len() && announces_cancel(#[trigger] actions[i]);
    assert(announces_cancel(actions[i]));
    match input {
        TurnInputV::SteerReply(reply) => {
            let (session, free, first) = answered(state.session, state.turn, reply);
            if i < first.len() {
                assert(actions[i] == first[i]);
            }
        },
        _ => {},
    }
}

proof fn lemma_cancelling_stays(start: TurnStateV, inputs: Seq<TurnInputV>, m: nat, n: nat)
    requires
        m <= n,
        state_at(start, inputs, m).turn.flags.cancelling,
    ensures
        state_at(start, inputs, n).turn.flags.cancelling,
    decreases n - m,
{
    if m < n {
        lemma_cancelling_stays(start, inputs, m, (n - 1) as nat);
    }
}

/// The user is told once at most that a turn is being cancelled, whatever
/// happens to it and however often the user asks.
pub proof fn law_cancel_is_announced_once(
    start: TurnStateV,
    inputs: Seq<TurnInputV>,
    i: int,
    j: int,
)
    requires
        0 <= i < j < inputs.len(),
        step_announces(step_at(start, inputs, i)),
    ensures
        !step_announces(step_at(start, inputs, j)),
{
    lemma_announcing_needs_calm(state_at(start, inputs, i as nat), inputs[i]);
    assert(state_at(start, inputs, (i + 1) as nat) == turn_step(
        state_at(start, inputs, i as nat),
        inputs[i],
    ).0);
    lemma_cancelling_stays(start, inputs, (i + 1) as nat, j as nat);
    if step_announces(step_at(start, inputs, j)) {
        lemma_announcing_needs_calm(state_at(start, inputs, j as nat), inputs[j]);
    }
}

/// A turn publishes its end once: no step of it does, and at the end it is
/// the last thing that is done, and done once.
pub proof fn law_a_turn_ends_once(
    state: TurnStateV,
    input: TurnInputV,
    agent_key: Seq<char>,
    probe: WatchdogProbe,
    runtime_error: Option<Seq<char>>,
    reason: Seq<char>,
)
    ensures
        forall|i: int|
            0 <= i < turn_step(state, input).1.actions.len() ==> !publishes_end(
                #[trigger] turn_step(state, input).1.actions[i],
            ),
        ({
            let actions = finish_actions(agent_key, probe, runtime_error, reason);
            &&& actions.len() > 0
            &&& actions.last() == SessionActionV::Publish(EventV::Stopped { reason })
            &&& forall|i: int|
                0 <= i < actions.len() - 1 ==> !publishes_end(#[trigger] actions[i])
        }),
{
    let actions = turn_step(state, input).1.actions;
    assert forall|i: int| 0 <= i < actions.len() implies !publishes_end(#[trigger] actions[i]) by {
        match input {
            TurnInputV::SteerReply(reply) => {
                let (session, free, first) = answered(state.session, state.turn, reply);
                if i < first.len() {
                    assert(actions[i] == first[i]);
                }
            },
            _ => {},
        }
    }
}

/// A turn fails, and so goes without its `Stopped`, exactly where the agent
/// answers the prompt with an error that is no limit: that error is passed on.
/// Whatever else stops a turn takes it to its end.
pub proof fn law_only_a_failed_reply_is_passed_on(state: TurnStateV, input: TurnInputV)
    ensures
        turn_step(state, input).1.flow == Flow::Fail <==> (input matches TurnInputV::PromptReply(
            PromptReplyV::Failed { rate_limit, .. },
        ) && rate_limit is None),
{
}

/// Once a turn has ended, its end is taken, so that an end which a runner
/// reports later is dropped; the next prompt has an end of its own again.
pub proof fn law_the_end_is_owned_by_its_turn(state: SharedV)
    requires
        state.turn.terminal.claimed_for <= state.turn.terminal.epoch < u64::MAX,
    ensures
        !prompt_started(state).turn.terminal.is_claimed(),
        prompt_finished(prompt_started(state)).turn.terminal.is_claimed(),
        !prompt_started(prompt_finished(state)).turn.terminal.is_claimed(),
{
}

/// A prompt ends what was held back of a replay, and takes over from whatever
/// turn was running; the sub-agents that are followed stay followed.
pub proof fn law_a_prompt_takes_over(state: SharedV)
    ensures
        !prompt_started(state).suppress_history_replay,
        !prompt_started(state).adopted_turn_active,
        !prompt_started(state).between_prompt.active,
        prompt_started(state).prompt_sent_since_attach,
        prompt_started(state).between_prompt.bg_agents == state.between_prompt.bg_agents,
        prompt_started(state).rate_limit_rejections == state.rate_limit_rejections,
{
}

/// Signals that belong to another prompt leave a turn alone.
pub proof fn law_stale_signals_are_ignored(state: TurnStateV, envelope: LifecycleEnvelopeV)
    requires
        envelope.epoch != state.turn.epoch,
    ensures
        turn_step(state, TurnInputV::Signal(Some(envelope))) == (state, quiet(Flow::Continue)),
{
}

/// While a turn is running, the messages for it are not lost and do not
/// overtake each other: a message that comes while another is unanswered goes
/// behind it; an answer takes the first one away; and where the agent's turn
/// was over, all of them become prompts, in the order in which they came.
pub proof fn law_messages_keep_their_order(
    session: SessionV,
    turn: TurnV,
    blocks: Seq<ContentBlockV>,
    reply: Option<JsonV>,
)
    requires
        turn.wf(),
    ensures
        steered(session, turn, blocks).0.wf(),
        steered(session, turn, blocks).0.unanswered() == turn.unanswered().push(blocks),
        turn.steering is Some ==> {
            let (after_session, after, step) = steer_reply_step(session, turn, reply);
            &&& after.wf()
            &&& if reply matches Some(value) && steer::outcome_of(value)
                == SteerOutcome::PromptRequired {
                &&& after_session.pending_prompts == session.pending_prompts + turn.unanswered()
                &&& after.unanswered().len() == 0
            } else {
                &&& after_session == session
                &&& after.unanswered() == turn.unanswered().drop_first()
            }
        },
{
    assert(steered(session, turn, blocks).0.unanswered() =~= turn.unanswered().push(blocks));
    if turn.steering is Some {
        let (after_session, after, step) = steer_reply_step(session, turn, reply);
        if reply is Some && steer::outcome_of(reply->0) == SteerOutcome::PromptRequired {
            assert(after_session.pending_prompts =~= session.pending_prompts + turn.unanswered());
        } else {
            assert(after.unanswered() =~= turn.unanswered().drop_first());
        }
    }
}

/// Every step keeps messages in line.
pub proof fn law_steps_keep_messages_in_line(state: TurnStateV, input: TurnInputV)
    requires
        state.turn.wf(),
        input is SteerReply ==> state.turn.steering is Some,
    ensures
        turn_step(state, input).0.turn.wf(),
{
}

/// A message that comes while a turn is running is never dropped: it is
/// handed to the turn, or put behind the messages that are, or the user is
/// told that it was rejected, with its text.
pub proof fn law_follow_ups_are_answered_for(
    session: SessionV,
    turn: TurnV,
    blocks: Seq<ContentBlockV>,
    off_protocol: Option<OffProtocolWorkKind>,
)
    requires
        turn.wf(),
    ensures
        ({
            let (after, step) = follow_up_step(session, turn, blocks, off_protocol);
            ||| after.unanswered() == turn.unanswered().push(blocks)
            ||| step.actions.contains(
                SessionActionV::Publish(session::busy_event(steer::first_text(blocks))),
            )
        }),
{
    law_messages_keep_their_order(session, turn, blocks, None);
    let (after, step) = follow_up_step(session, turn, blocks, off_protocol);
    if turn.flags.cancelling || !(session.steering_capable && off_protocol != Some(
        OffProtocolWorkKind::Compaction,
    )) {
        assert(step.actions[0] == SessionActionV::Publish(
            session::busy_event(steer::first_text(blocks)),
        ));
    }
}

/// A turn that compacts the context is never steered.
pub proof fn law_compaction_is_not_steered(
    session: SessionV,
    turn: TurnV,
    blocks: Seq<ContentBlockV>,
)
    ensures
        follow_up_step(session, turn, blocks, Some(OffProtocolWorkKind::Compaction)).0.unanswered()
            == turn.unanswered(),
{
}

/// A silent turn that is over ends as if it had been answered: nothing is
/// held against the agent, and the connection goes on.
pub proof fn law_a_finished_turn_is_not_an_orphan(flags: TurnFlags, probe: WatchdogProbe)
    requires
        probe.fire,
        wrapped_up(probe),
    ensures
        orphan_step(flags, probe).0 == flags,
        orphan_step(flags, probe).1.flow == Flow::Break,
        stop_flags(orphan_step(no_flags(), probe).0, probe) == (StopFlags {
            rate_limited: false,
            force_stopped: false,
            prompt_orphaned: false,
            agent_unresponsive: false,
            shutdown: false,
            prompt_cancelled: false,
            finished_after_orphan_cancel: false,
        }),
{
}

/// A limit ends the turn and closes the connection, whatever else the error
/// says; it is not passed on as a failure.
pub proof fn law_a_limit_parks_the_session(
    context_reset: bool,
    session: SessionV,
    flags: TurnFlags,
    text: Seq<char>,
    info: RateLimitInfoV,
    unsupported_session: bool,
)
    ensures
        ({
            let (reset, after, step) = reply_step(
                context_reset,
                session,
                flags,
                PromptReplyV::Failed { text, rate_limit: Some(info), unsupported_session },
            );
            &&& after.rate_limited
            &&& after.shutdown
            &&& step.flow == Flow::Break
            &&& reset == context_reset
        }),
{
}

/// Only a session whose id was stored before can be rejected as one that the
/// agent does not know.
pub proof fn law_own_sessions_are_not_rejected(
    context_reset: bool,
    session: SessionV,
    flags: TurnFlags,
    reply: PromptReplyV,
)
    requires
        !session.session_from_storage,
    ensures
        reply_step(context_reset, session, flags, reply).0 == context_reset,
{
}

/// A turn counts as cancelled exactly where the agent ends it as cancelled. One that
/// ends by itself, runs into a limit of tokens or requests, or is refused, does not,
/// whatever was known of it before; and nothing but the answer to the prompt decides
/// about it.
pub proof fn law_only_a_cancelled_turn_counts_as_cancelled(
    state: TurnStateV,
    input: TurnInputV,
    probe: WatchdogProbe,
)
    ensures
        ({
            let after = turn_step(state, input).0.turn.flags;
            let told = stop_flags(after, probe).prompt_cancelled;
            match input {
                TurnInputV::PromptReply(PromptReplyV::Ended(reason)) => match reason {
                    StopReason::Cancelled => told,
                    StopReason::EndTurn
                    | StopReason::MaxTokens
                    | StopReason::MaxTurnRequests
                    | StopReason::Refusal => !told,
                },
                _ => told == state.turn.flags.prompt_cancelled,
            }
        }),
{
}

/// An answer with a stop reason ends the turn without a word: nothing else about the
/// turn, the session or the context changes.
pub proof fn law_an_answered_turn_ends(state: TurnStateV, reason: StopReason)
    ensures
        ({
            let input = TurnInputV::PromptReply(PromptReplyV::Ended(reason));
            let (after, step) = turn_step(state, input);
            &&& step.flow is Break
            &&& step.actions.len() == 0
            &&& after.session == state.session
            &&& after.context_reset == state.context_reset
            &&& after.turn == (TurnV {
                flags: TurnFlags {
                    prompt_cancelled: after.turn.flags.prompt_cancelled,
                    ..state.turn.flags
                },
                ..state.turn
            })
        }),
{
}

/// Whether the agent tells of a limit.
pub open spec fn tells_limit(input: TurnInputV) -> bool {
    input matches TurnInputV::PromptReply(PromptReplyV::Failed { rate_limit, .. }) && rate_limit
        is Some
}

/// Whether the owner stops the turn.
pub open spec fn asks_to_stop(input: TurnInputV) -> bool {
    input matches TurnInputV::Command { cmd, .. } && cmd is Some && cmd->0 is ForceStop
}

/// Whether the owner closes the connection.
pub open spec fn asks_to_close(input: TurnInputV) -> bool {
    input matches TurnInputV::Command { cmd, .. } && (cmd is None || cmd->0 is Shutdown)
}

/// Whether the turn is found silent with work left.
pub open spec fn finds_orphan(input: TurnInputV) -> bool {
    input matches TurnInputV::OrphanCheck(probe) && probe.fire && !(probe.cost_seen
        && probe.off_protocol is None)
}

/// Whether the agent shows that it does not respond.
pub open spec fn shows_stuck(cancelling: bool, input: TurnInputV) -> bool {
    ||| input is CancelGrace
    ||| input matches TurnInputV::Command { cmd, .. } && cancelling && cmd is Some && cmd->0
        is Prompt
}

/// Whether the agent was told to end the turn, for a reason of which the turn is to
/// know.
pub open spec fn was_told(input: TurnInputV, told: bool) -> bool {
    input matches TurnInputV::CancelSent { cause, sent, .. } && sent == told && cause !is ForceStop
}

/// Whether what is known about the end of a turn is what was known before it and what
/// has happened to it.
pub open spec fn knows(was: TurnFlags, is: TurnFlags, input: TurnInputV) -> bool {
    &&& is.rate_limited <==> was.rate_limited || tells_limit(input)
    &&& is.force_stopped <==> was.force_stopped || asks_to_stop(input)
    &&& is.prompt_orphaned <==> was.prompt_orphaned || finds_orphan(input)
    &&& is.agent_unresponsive <==> was.agent_unresponsive || shows_stuck(was.cancelling, input)
    &&& is.cancelling <==> was.cancelling || was_told(input, true)
    &&& is.orphan_cancel_sent <==> was.orphan_cancel_sent || (was_told(input, true) && input->cause
        is Orphan)
    &&& is.shutdown <==> was.shutdown || tells_limit(input) || asks_to_stop(input) || asks_to_close(
        input,
    ) || shows_stuck(was.cancelling, input) || was_told(input, false)
}

proof fn lemma_requests_are_known(
    session: SessionV,
    turn: TurnV,
    cmd: Option<ClientCmdV>,
    off_protocol: Option<OffProtocolWorkKind>,
)
    ensures
        knows(
            turn.flags,
            command_step(session, turn, cmd, off_protocol).1.flags,
            TurnInputV::Command { cmd, off_protocol },
        ),
{
}

proof fn lemma_answers_change_no_flags(session: SessionV, turn: TurnV, reply: Option<JsonV>)
    ensures
        steer_reply_step(session, turn, reply).1.flags == turn.flags,
{
}

/// What is known about the end of a turn is known for its reason and for no other,
/// and is not forgotten: a limit from the agent's error, a stop from the owner's
/// request, an orphan from a silence with work left, an unresponsive agent from the
/// time that ran out or a message that came while it was being cancelled.
pub proof fn law_ends_are_known_for_their_reasons(state: TurnStateV, input: TurnInputV)
    ensures
        knows(state.turn.flags, turn_step(state, input).0.turn.flags, input),
{
    match input {
        TurnInputV::PromptReply(reply) => {
            lemma_replies_are_known(state, reply);
        },
        TurnInputV::SteerReply(reply) => {
            lemma_answers_change_no_flags(state.session, state.turn, reply);
            assert(turn_step(state, input).0.turn.flags == state.turn.flags);
        },
        TurnInputV::Command { cmd, off_protocol } => {
            lemma_requests_are_known(state.session, state.turn, cmd, off_protocol);
            assert(turn_step(state, input).0.turn.flags == command_step(
                state.session,
                state.turn,
                cmd,
                off_protocol,
            ).1.flags);
        },
        TurnInputV::CancelSent { cause, sent, now } => {
            lemma_cancels_are_known(state, cause, sent, now);
        },
        TurnInputV::OrphanCheck(probe) => {
            lemma_looks_are_known(state, probe);
        },
        TurnInputV::CancelGrace => {
            lemma_the_end_of_the_time_is_known(state);
        },
        TurnInputV::Signal(envelope) => {
            assert(turn_step(state, input).0.turn.flags == state.turn.flags);
        },
    }
}

proof fn lemma_replies_are_known(state: TurnStateV, reply: PromptReplyV)
    ensures
        ({
            let input = TurnInputV::PromptReply(reply);
            knows(state.turn.flags, turn_step(state, input).0.turn.flags, input)
        }),
{
}

proof fn lemma_cancels_are_known(
    state: TurnStateV,
    cause: CancelCause,
    sent: bool,
    now: Timestamp,
)
    ensures
        ({
            let input = TurnInputV::CancelSent { cause, sent, now };
            knows(state.turn.flags, turn_step(state, input).0.turn.flags, input)
        }),
{
}

proof fn lemma_looks_are_known(state: TurnStateV, probe: WatchdogProbe)
    ensures
        ({
            let input = TurnInputV::OrphanCheck(probe);
            knows(state.turn.flags, turn_step(state, input).0.turn.flags, input)
        }),
{
}

proof fn lemma_the_end_of_the_time_is_known(state: TurnStateV)
    ensures
        ({
            let input = TurnInputV::CancelGrace;
            knows(state.turn.flags, turn_step(state, input).0.turn.flags, input)
        }),
{
}

/// What decides about the reason of an end is what is known of the turn, each thing
/// as it is; a turn that finished after it was cancelled as an orphan is known by its
/// costs and by leaving no work behind.
pub proof fn law_what_is_known_decides(flags: TurnFlags, probe: WatchdogProbe)
    ensures
        ({
            let told = stop_flags(flags, probe);
            &&& told.rate_limited == flags.rate_limited
            &&& told.force_stopped == flags.force_stopped
            &&& told.prompt_orphaned == flags.prompt_orphaned
            &&& told.agent_unresponsive == flags.agent_unresponsive
            &&& told.shutdown == flags.shutdown
            &&& told.prompt_cancelled == flags.prompt_cancelled
            &&& told.finished_after_orphan_cancel <==> flags.orphan_cancel_sent && probe.cost_seen
                && probe.off_protocol is None
        }),
{
}

/// An error of the agent is told as what it is: a limit is published as a limit; a
/// stored session that the agent no longer knows is published as a lost context, with
/// the agent's words; any other error is passed on without a word.
pub proof fn law_errors_are_told_as_what_they_are(
    state: TurnStateV,
    text: Seq<char>,
    rate_limit: Option<RateLimitInfoV>,
    unsupported_session: bool,
)
    ensures
        ({
            let reply = PromptReplyV::Failed { text, rate_limit, unsupported_session };
            let (after, step) = turn_step(state, TurnInputV::PromptReply(reply));
            let lost = rate_limit is None && unsupported_session
                && state.session.session_from_storage;
            &&& after.session == state.session
            &&& after.context_reset == (state.context_reset || lost)
            &&& rate_limit matches Some(info) ==> step.actions == seq![
                SessionActionV::Publish(EventV::RateLimit { info }),
            ]
            &&& lost ==> {
                &&& step.actions.len() == 1
                &&& step.actions[0] matches SessionActionV::Publish(
                    EventV::SessionContextReset { reason },
                )
                &&& reason == "resumed session no longer available: "@ + text
            }
            &&& rate_limit is None && !lost ==> step.actions.len() == 0
        }),
{
}

/// Each request of the owner during a turn leads to what it asks for, under the ids
/// and values that it names. A request to clear the conversation is refused, and only
/// a stop and a shutdown end the turn.
pub proof fn law_requests_during_a_turn_do_what_they_ask(
    state: TurnStateV,
    cmd: Option<ClientCmdV>,
    off_protocol: Option<OffProtocolWorkKind>,
)
    requires
        !(cmd is Some && cmd->0 is Prompt),
    ensures
        ({
            let (after, step) = turn_step(state, TurnInputV::Command { cmd, off_protocol });
            &&& match cmd {
                Some(ClientCmdV::Cancel) => step.flow is Continue && step.actions == seq![
                    SessionActionV::SendCancel { cause: CancelCause::User },
                ],
                Some(ClientCmdV::ForceStop) => step.flow is Break && step.actions == seq![
                    SessionActionV::SendCancel { cause: CancelCause::ForceStop },
                ],
                Some(ClientCmdV::SetConfigOption { config_id, value }) => step.flow is Continue
                    && step.actions == seq![SessionActionV::SetConfigOption { config_id, value }],
                Some(ClientCmdV::SetMode(mode_id)) => step.flow is Continue && step.actions == seq![
                    SessionActionV::SetMode(
                        crate::config_options::mode_request(mode_id, state.session.channels),
                    ),
                ],
                Some(ClientCmdV::DeleteSession { acp_session_id }) => step.flow is Continue
                    && step.actions == seq![SessionActionV::DeleteSession { acp_session_id }],
                Some(ClientCmdV::ResumeBackgroundTailing) => step.flow is Continue && step.actions
                    == seq![SessionActionV::ResumeBackgroundTailing],
                Some(ClientCmdV::ResetSession { text }) => {
                    &&& step.flow is Continue
                    &&& step.actions.len() == 2
                    &&& step.actions[0] == SessionActionV::Publish(
                        EventV::PromptRejected { reason: "agent_busy"@, text },
                    )
                    &&& step.actions[1] == SessionActionV::AnswerReset(
                        ResetSessionOutcomeV::Failed {
                            message:
                                "a turn is in flight; stop it before clearing the conversation"@,
                        },
                    )
                },
                _ => step.flow is Break && step.actions.len() == 0,
            }
            &&& !(cmd is Some && cmd->0 is SetConfigOption) ==> after.session == state.session
            &&& cmd is Some && cmd->0 is SetConfigOption ==> after.session == session::with_option(
                state.session,
                cmd->0->SetConfigOption_config_id,
                cmd->0->SetConfigOption_value,
            )
            &&& after.turn.steering == state.turn.steering
            &&& after.turn.steer_backlog == state.turn.steer_backlog
            &&& after.turn.epoch == state.turn.epoch
            &&& after.context_reset == state.context_reset
        }),
{
}

/// A message for a running turn is handed to it at once where the agent can be
/// steered and no other is on its way; behind another it waits. Where the agent
/// cannot be steered, or compacts, it is rejected with its text, and the turn goes on;
/// a turn that is being cancelled ends over it.
pub proof fn law_messages_are_handed_on(
    state: TurnStateV,
    blocks: Seq<ContentBlockV>,
    off_protocol: Option<OffProtocolWorkKind>,
)
    ensures
        ({
            let cmd = Some(ClientCmdV::Prompt(blocks));
            let (after, step) = turn_step(state, TurnInputV::Command { cmd, off_protocol });
            let takes = !state.turn.flags.cancelling && state.session.steering_capable
                && off_protocol != Some(OffProtocolWorkKind::Compaction);
            let rejected = EventV::PromptRejected {
                reason: "agent_busy"@,
                text: steer::first_text(blocks),
            };
            &&& after.session == state.session
            &&& step.flow is Break <==> state.turn.flags.cancelling
            &&& step.flow !is Fail
            &&& !takes ==> {
                &&& step.actions == seq![SessionActionV::Publish(rejected)]
                &&& after.turn.steering == state.turn.steering
                &&& after.turn.steer_backlog == state.turn.steer_backlog
            }
            &&& takes && state.turn.steering is None ==> {
                &&& after.turn.steering == Some(blocks)
                &&& after.turn.steer_backlog == state.turn.steer_backlog
                &&& step.actions.len() == 1
                &&& step.actions[0] matches SessionActionV::Steer { method, params }
                &&& method == if state.session.grok_shell {
                    "__session/steering"@
                } else {
                    "_session/steering"@
                }
                &&& params.get("sessionId"@) == Some(JsonV::Text(state.session.acp_session_id))
                &&& params.get("prompt"@) == Some(crate::wire::blocks_json(blocks))
            }
            &&& takes && state.turn.steering is Some ==> {
                &&& step.actions.len() == 0
                &&& after.turn.steering == state.turn.steering
                &&& after.turn.steer_backlog == state.turn.steer_backlog.push(blocks)
            }
        }),
{
    let session = state.session;
    steer::law_a_steered_message_is_sent_whole(session.acp_session_id, blocks, steer::opt_in());
    reveal_strlit("sessionId");
    reveal_strlit("prompt");
    assert("sessionId"@.len() != "prompt"@.len());
    crate::json::law_first_entry_counts(
        steer::steer_json(session.acp_session_id, blocks, steer::opt_in())->Object_0,
        "prompt"@,
        1,
    );
}

/// A message that the agent has taken in counts as progress; one that it did not
/// answer for is rejected with its text; and any other answer is taken without a word.
/// The next message that waits is then handed on.
pub proof fn law_answers_to_messages_are_told(
    state: TurnStateV,
    reply: Option<JsonV>,
    blocks: Seq<ContentBlockV>,
)
    requires
        state.turn.steering == Some(blocks),
    ensures
        ({
            let (after, step) = turn_step(state, TurnInputV::SteerReply(reply));
            let backlog = state.turn.steer_backlog;
            let idle = reply is Some && reply->0.str_at("outcome"@) == Some("promptRequired"@);
            let taken = reply is Some && reply->0.str_at("outcome"@) == Some("injected"@);
            let told = if taken {
                seq![SessionActionV::ApplySignal(LifecycleSignalV::Progress)]
            } else if reply is None {
                seq![
                    SessionActionV::Publish(
                        EventV::PromptRejected {
                            reason: "agent_busy"@,
                            text: steer::first_text(blocks),
                        },
                    ),
                ]
            } else {
                seq![]
            };
            &&& step.flow is Continue
            &&& after.turn.flags == state.turn.flags
            &&& idle || backlog.len() == 0 ==> {
                &&& step.actions == told
                &&& after.turn.steering is None
            }
            &&& !idle && backlog.len() > 0 ==> {
                &&& step.actions == told.push(steer_action(state.session, backlog.first()))
                &&& after.turn.steering == Some(backlog.first())
                &&& after.turn.steer_backlog == backlog.drop_first()
            }
        }),
{
    if let Some(value) = reply {
        steer::law_an_answer_means_what_it_says(value);
    }
    reveal_strlit("injected");
    reveal_strlit("promptRequired");
    assert("injected"@.len() != "promptRequired"@.len());
    let (session, free, first) = answered(state.session, state.turn, reply);
    if free.steer_backlog.len() > 0 {
        assert(first + seq![steer_action(session, free.steer_backlog.first())] =~= first.push(
            steer_action(session, free.steer_backlog.first()),
        ));
    }
}

/// A cancellation that the agent was told of gives the turn ten seconds to end, once:
/// the user is told until when. One that it could not be told of ends the turn.
pub proof fn law_a_cancelled_turn_has_ten_seconds(
    state: TurnStateV,
    sent: bool,
    now: Timestamp,
)
    requires
        now.valid(),
        now.reaches(10000),
    ensures
        ({
            let cause = CancelCause::User;
            let (after, step) = turn_step(state, TurnInputV::CancelSent { cause, sent, now });
            &&& !sent ==> step.flow is Break && step.actions.len() == 0
            &&& sent && state.turn.flags.cancelling ==> step.flow is Continue && step.actions.len()
                == 0 && after == state
            &&& sent && !state.turn.flags.cancelling ==> {
                &&& step.flow is Continue
                &&& step.actions.len() == 2
                &&& step.actions[0] == SessionActionV::ArmCancelGrace { millis: 10000 }
                &&& step.actions[1] matches SessionActionV::Publish(
                    EventV::CancelRequested { escalates_at },
                )
                &&& escalates_at.total_millis() == now.total_millis() + 10000
            }
        }),
{
    crate::time::law_later_is_later_by_as_much(now, 10000);
}

/// A silent turn that is cancelled as an orphan has the same time to end, and goes on
/// being looked at; the user is not told. An agent that cannot be told ends it.
pub proof fn law_an_orphan_is_cancelled_quietly(
    state: TurnStateV,
    sent: bool,
    now: Timestamp,
)
    ensures
        ({
            let cause = CancelCause::Orphan;
            let (after, step) = turn_step(state, TurnInputV::CancelSent { cause, sent, now });
            &&& !sent ==> step.flow is Break && step.actions.len() == 0
            &&& sent ==> step.flow is Continue && step.actions.last() is RearmOrphanCheck
            &&& sent && !state.turn.flags.cancelling ==> step.actions.len() == 2 && step.actions[0]
                is ArmCancelGrace
            &&& sent && state.turn.flags.cancelling ==> step.actions.len() == 1
            &&& !step_announces(step)
        }),
{
}

/// A turn that is looked at is let be while it is not silent, is let go where it is
/// silent and over, and is cancelled where it is silent with work left.
pub proof fn law_a_turn_is_looked_at(state: TurnStateV, probe: WatchdogProbe)
    ensures
        ({
            let (after, step) = turn_step(state, TurnInputV::OrphanCheck(probe));
            let over = probe.cost_seen && probe.off_protocol is None;
            &&& !probe.fire ==> after == state && step.flow is Continue && step.actions == seq![
                SessionActionV::RearmOrphanCheck,
            ]
            &&& probe.fire && over ==> after == state && step.flow is Break && step.actions == seq![
                SessionActionV::ReleaseLocalPrompt,
            ]
            &&& probe.fire && !over ==> step.flow is Continue && step.actions == seq![
                SessionActionV::SendCancel { cause: CancelCause::Orphan },
            ]
        }),
{
}

/// The signals of a turn's own prompt are applied to it as they are, and nothing else
/// about the turn changes.
pub proof fn law_own_signals_are_applied(state: TurnStateV, signal: LifecycleSignalV)
    ensures
        turn_step(
            state,
            TurnInputV::Signal(Some(LifecycleEnvelopeV { epoch: state.turn.epoch, signal })),
        ) == (
            state,
            TurnStepV {
                actions: seq![SessionActionV::ApplySignal(signal)],
                flow: Flow::Continue,
            },
        ),
{
}

/// A time that ran out ends the turn, without a word.
pub proof fn law_a_time_that_ran_out_ends_the_turn(state: TurnStateV)
    ensures
        turn_step(state, TurnInputV::CancelGrace).1.flow is Break,
        turn_step(state, TurnInputV::CancelGrace).1.actions.len() == 0,
        turn_step(state, TurnInputV::CancelGrace).0.session == state.session,
{
}

/// What a turn goes on with is ready and allowed, and the answer to the prompt comes
/// before everything else.
pub proof fn law_a_turn_goes_on_with_what_is_ready(
    flags: TurnFlags,
    steering: bool,
    ready: ReadyArms,
    prompt_observed: bool,
    orphan_check_enabled: bool,
)
    ensures
        ({
            let arm = picked(flags, steering, ready, prompt_observed, orphan_check_enabled);
            &&& ready.prompt && prompt_observed ==> arm == Some(Arm::Prompt)
            &&& match arm {
                Some(Arm::Prompt) => ready.prompt && prompt_observed,
                Some(Arm::Command) => ready.command,
                Some(Arm::CancelGrace) => ready.cancel_grace && flags.cancelling,
                Some(Arm::Signal) => ready.signal,
                Some(Arm::OrphanCheck) => ready.orphan_check && orphan_check_enabled
                    && !flags.orphan_cancel_sent && !ready.signal,
                Some(Arm::Steer) => ready.steer && steering && !ready.signal,
                None => {
                    &&& !(ready.prompt && prompt_observed) && !ready.command && !ready.signal
                    &&& !(ready.cancel_grace && flags.cancelling)
                    &&& !(ready.orphan_check && orphan_check_enabled && !flags.orphan_cancel_sent)
                    &&& !(ready.steer && steering)
                },
            }
        }),
{
}

/// An error that only the agent's own files tell of is published ahead of the end, of
/// the one agent that ends so: without a word, though its costs are known and no work
/// is left.
pub proof fn law_a_hidden_error_is_published(
    agent_key: Seq<char>,
    probe: WatchdogProbe,
    runtime_error: Option<Seq<char>>,
    reason: Seq<char>,
)
    ensures
        ({
            let actions = finish_actions(agent_key, probe, runtime_error, reason);
            let hidden = agent_key == "opencode"@ && probe.cost_seen && probe.off_protocol is None
                && !probe.saw_progress && runtime_error is Some;
            &&& hidden ==> actions.len() == 2 && actions[0] == SessionActionV::Publish(
                EventV::PromptRuntimeError { message: runtime_error->0 },
            )
            &&& !hidden ==> actions.len() == 1
        }),
{
}

/// A prompt runs under a number of its own until it ends, and its end leaves the rest
/// of what the connection knows as it was.
pub proof fn law_a_prompt_runs_until_it_ends(state: SharedV)
    requires
        state.prompt_epoch < u64::MAX,
    ensures
        prompt_started(state).turn.prompt_in_flight,
        prompt_started(state).prompt_epoch == state.prompt_epoch + 1,
        prompt_started(state).open_block is None,
        prompt_started(state).last_event_at == state.last_event_at,
        prompt_started(state).context_reset_emitted == state.context_reset_emitted,
        !prompt_finished(state).turn.prompt_in_flight,
        prompt_finished(state).turn.terminal.is_claimed(),
        prompt_finished(state).open_block is None,
        prompt_finished(state).prompt_epoch == state.prompt_epoch,
        prompt_finished(state).between_prompt == state.between_prompt,
        prompt_finished(state).rate_limit_rejections == state.rate_limit_rejections,
        prompt_finished(state).adopted_turn_active == state.adopted_turn_active,
        prompt_finished(state).suppress_history_replay == state.suppress_history_replay,
{
}

}
