//! What a connection knows while it runs, and how an agent's updates change
//! it.

use crate::agent_profiles::{AgentProfile, AgentProfileV};
use crate::control::TurnOwnership;
use crate::event::{Event, EventV};
use crate::lifecycle;
use crate::lifecycle::{
    classify_lifecycle_signal, forward_lifecycle_signals, wakeup_lifecycle_signal_from_update,
    LifecycleEnvelope, LifecycleEnvelopeV, LifecycleSignal, LifecycleSignalV, OffProtocolWorkKind,
};
use crate::model;
use crate::model::Duplicate;
use crate::text;
use crate::text_map::TextMap;
use crate::time::Timestamp;
use crate::transcript_filter;
use crate::transcript_filter::is_transcript_event;
use crate::update_events;
use crate::update_events::{
    map_update_to_events, AgentMessageDedup, AgentTextBlockV, MappingV, SyntheticSeq,
};
use crate::wire::{SessionUpdate, SessionUpdateV};
use vstd::prelude::*;

verus! {

/// What is known of a turn that the agent has started by itself, or that was
/// running before the connection was made.
#[derive(Debug, PartialEq, Eq)]
pub struct BetweenPrompt {
    /// Whether such a turn is running.
    pub active: bool,
    /// Whether its costs were reported.
    pub cost_seen: bool,
    /// When it is to be woken, in milliseconds; zero for never.
    pub wake_at: i64,
    /// When it was last heard of, in milliseconds.
    pub last_lifecycle_at: i64,
    /// Whether it has left work behind that nobody follows.
    pub off_protocol: bool,
    /// Its open tool calls, and whether they run in the background.
    pub tools: TextMap<bool>,
    /// The sub-agents that are being followed.
    pub bg_agents: TextMap<bool>,
}

/// The model of [`BetweenPrompt`].
#[verifier::ext_equal]
pub struct BetweenPromptV {
    pub active: bool,
    pub cost_seen: bool,
    pub wake_at: i64,
    pub last_lifecycle_at: i64,
    pub off_protocol: bool,
    pub tools: Map<Seq<char>, bool>,
    pub bg_agents: Map<Seq<char>, bool>,
}

impl DeepView for BetweenPrompt {
    type V = BetweenPromptV;

    open spec fn deep_view(&self) -> BetweenPromptV {
        BetweenPromptV {
            active: self.active,
            cost_seen: self.cost_seen,
            wake_at: self.wake_at,
            last_lifecycle_at: self.last_lifecycle_at,
            off_protocol: self.off_protocol,
            tools: self.tools@,
            bg_agents: self.bg_agents@,
        }
    }
}

impl BetweenPromptV {
    /// The state once a prompt takes over: only the sub-agents that are being
    /// followed stay.
    pub open spec fn for_prompt(self) -> BetweenPromptV {
        BetweenPromptV {
            active: false,
            cost_seen: false,
            wake_at: 0,
            off_protocol: false,
            tools: Map::empty(),
            ..self
        }
    }

    /// The state once the turn has ended.
    pub open spec fn cleared(self) -> BetweenPromptV {
        BetweenPromptV { bg_agents: Map::empty(), ..self.for_prompt() }
    }

    /// Whether tool calls or sub-agents are still at work.
    pub open spec fn busy(self) -> bool {
        self.tools != Map::<Seq<char>, bool>::empty() || self.bg_agents != Map::<
            Seq<char>,
            bool,
        >::empty()
    }
}

/// What a signal says about the turn between prompts.
#[derive(Debug, Clone, Copy, PartialEq, Eq, Structural)]
pub struct BetweenPromptUpdate {
    pub cost_seen: bool,
    pub last_lifecycle_at: i64,
    pub wake_at: i64,
}

/// The tool calls and the work left behind once a signal is taken note of. The
/// reported costs of an adopted turn end what is known of its tool calls,
/// since their own ends may have gone to another connection.
pub open spec fn tools_after(
    state: BetweenPromptV,
    signal: Option<LifecycleSignalV>,
    adopted: bool,
) -> BetweenPromptV {
    match signal {
        Some(LifecycleSignalV::ToolStarted { id, is_background_task }) => BetweenPromptV {
            tools: state.tools.insert(
                id,
                (state.tools.contains_key(id) && state.tools[id]) || is_background_task,
            ),
            ..state
        },
        Some(LifecycleSignalV::ToolCompleted { id, succeeded, off_protocol_work }) => {
            let was_background = state.tools.contains_key(id) && state.tools[id];
            let followed = off_protocol_work == Some(OffProtocolWorkKind::AsyncAgent);
            BetweenPromptV {
                tools: state.tools.remove(id),
                off_protocol: state.off_protocol || (succeeded && !followed && (
                off_protocol_work is Some || was_background)),
                ..state
            }
        },
        Some(LifecycleSignalV::TerminalUsage) => if adopted {
            BetweenPromptV { tools: Map::empty(), off_protocol: false, ..state }
        } else {
            state
        },
        _ => state,
    }
}

impl BetweenPrompt {
    /// No turn is running. `now_ms` is the current time.
    pub fn new(now_ms: i64) -> (r: Self)
        ensures
            r.deep_view() == (BetweenPromptV {
                active: false,
                cost_seen: false,
                wake_at: 0,
                last_lifecycle_at: now_ms,
                off_protocol: false,
                tools: Map::empty(),
                bg_agents: Map::empty(),
            }),
    {
        BetweenPrompt {
            active: false,
            cost_seen: false,
            wake_at: 0,
            last_lifecycle_at: now_ms,
            off_protocol: false,
            tools: TextMap::new(),
            bg_agents: TextMap::new(),
        }
    }

    /// A prompt takes over.
    pub fn reset_for_prompt(&mut self)
        ensures
            final(self).deep_view() == old(self).deep_view().for_prompt(),
    {
        self.active = false;
        self.cost_seen = false;
        self.wake_at = 0;
        self.off_protocol = false;
        self.tools.clear();
    }

    /// The turn has ended: nothing of it may touch the next one.
    pub fn clear(&mut self)
        ensures
            final(self).deep_view() == old(self).deep_view().cleared(),
    {
        self.reset_for_prompt();
        self.bg_agents.clear();
    }

    /// The turn is not watched any more.
    pub fn deactivate(&mut self)
        ensures
            final(self).deep_view() == (BetweenPromptV { active: false, ..old(self).deep_view() }),
    {
        self.active = false;
    }

    /// Whether tool calls or sub-agents are still at work.
    pub fn is_busy(&self) -> (r: bool)
        ensures
            r == self.deep_view().busy(),
    {
        !self.tools.is_empty() || !self.bg_agents.is_empty()
    }

    /// When the turn is to be woken.
    pub fn wake_time(&self) -> (r: Option<i64>)
        ensures
            r == (if self.wake_at == 0 {
                None
            } else {
                Some(self.wake_at)
            }),
    {
        if self.wake_at == 0 {
            None
        } else {
            Some(self.wake_at)
        }
    }

    /// A sub-agent is followed from now on.
    pub fn follow_agent(&mut self, agent_id: String)
        ensures
            final(self).deep_view() == (BetweenPromptV {
                bg_agents: old(self).deep_view().bg_agents.insert(agent_id@, true),
                ..old(self).deep_view()
            }),
    {
        self.bg_agents.insert(agent_id, true);
    }

    /// A sub-agent has ended.
    pub fn agent_ended(&mut self, agent_id: &str)
        ensures
            final(self).deep_view() == (BetweenPromptV {
                bg_agents: old(self).deep_view().bg_agents.remove(agent_id@),
                ..old(self).deep_view()
            }),
    {
        self.bg_agents.remove(agent_id);
    }

    fn note_signal(&mut self, signal: &Option<LifecycleSignal>, adopted: bool)
        ensures
            final(self).deep_view() == tools_after(
                old(self).deep_view(),
                signal.deep_view(),
                adopted,
            ),
    {
        match signal {
            Some(LifecycleSignal::ToolStarted { id, is_background_task }) => {
                let known = match self.tools.get(id.as_str()) {
                    Some(flag) => flag,
                    None => false,
                };
                self.tools.insert(id.clone(), known || *is_background_task);
            },
            Some(LifecycleSignal::ToolCompleted { id, succeeded, off_protocol_work }) => {
                let was_background = match self.tools.remove(id.as_str()) {
                    Some(flag) => flag,
                    None => false,
                };
                let followed = match off_protocol_work {
                    Some(OffProtocolWorkKind::AsyncAgent) => true,
                    _ => false,
                };
                if *succeeded && !followed && (off_protocol_work.is_some() || was_background) {
                    self.off_protocol = true;
                }
            },
            Some(LifecycleSignal::TerminalUsage) => {
                if adopted {
                    self.tools.clear();
                    self.off_protocol = false;
                }
            },
            _ => {},
        }
    }
}

/// What a connection knows while it runs.
#[derive(Debug, PartialEq, Eq)]
pub struct Shared {
    /// Whether the transcript that the agent replays is held back.
    pub suppress_history_replay: bool,
    /// When the agent was last heard of, in milliseconds.
    pub last_event_at: i64,
    /// Whether the agent has said anything about a turn.
    pub first_event_after_attach: bool,
    /// Whether a prompt was sent.
    pub prompt_sent_since_attach: bool,
    /// Whether a turn that was running before is still running.
    pub adopted_turn_active: bool,
    /// Whether a prompt is running, and whose end has been published.
    pub turn: TurnOwnership,
    pub between_prompt: BetweenPrompt,
    /// When the limits that the agent has run into end, in seconds.
    pub rate_limit_rejections: TextMap<i64>,
    /// Whether it was said that the session's context is lost.
    pub context_reset_emitted: bool,
    /// The number of the last prompt.
    pub prompt_epoch: u64,
    pub message_dedup: AgentMessageDedup,
}

/// The model of [`Shared`].
#[verifier::ext_equal]
pub struct SharedV {
    pub suppress_history_replay: bool,
    pub last_event_at: i64,
    pub first_event_after_attach: bool,
    pub prompt_sent_since_attach: bool,
    pub adopted_turn_active: bool,
    pub turn: TurnOwnership,
    pub between_prompt: BetweenPromptV,
    pub rate_limit_rejections: Map<Seq<char>, i64>,
    pub context_reset_emitted: bool,
    pub prompt_epoch: u64,
    pub open_block: Option<AgentTextBlockV>,
}

impl DeepView for Shared {
    type V = SharedV;

    open spec fn deep_view(&self) -> SharedV {
        SharedV {
            suppress_history_replay: self.suppress_history_replay,
            last_event_at: self.last_event_at,
            first_event_after_attach: self.first_event_after_attach,
            prompt_sent_since_attach: self.prompt_sent_since_attach,
            adopted_turn_active: self.adopted_turn_active,
            turn: self.turn,
            between_prompt: self.between_prompt.deep_view(),
            rate_limit_rejections: self.rate_limit_rejections@,
            context_reset_emitted: self.context_reset_emitted,
            prompt_epoch: self.prompt_epoch,
            open_block: self.message_dedup.deep_view().block,
        }
    }
}

/// What an update says about the turn.
#[derive(Debug, PartialEq, Eq)]
pub struct WatchedUpdate {
    pub lifecycle: Option<LifecycleSignal>,
    pub wakeup: Option<LifecycleSignal>,
}

/// The model of [`WatchedUpdate`].
#[verifier::ext_equal]
pub struct WatchedUpdateV {
    pub lifecycle: Option<LifecycleSignalV>,
    pub wakeup: Option<LifecycleSignalV>,
}

impl DeepView for WatchedUpdate {
    type V = WatchedUpdateV;

    open spec fn deep_view(&self) -> WatchedUpdateV {
        WatchedUpdateV {
            lifecycle: self.lifecycle.deep_view(),
            wakeup: self.wakeup.deep_view(),
        }
    }
}

impl Duplicate for WatchedUpdate {
    fn duplicate(&self) -> (r: Self) {
        WatchedUpdate {
            lifecycle: self.lifecycle.duplicate(),
            wakeup: self.wakeup.duplicate(),
        }
    }
}

/// A limit that the agent has run into: its name and when it ends.
#[derive(Debug, PartialEq, Eq)]
pub struct RateLimitRejection {
    pub window: String,
    pub resets_at_secs: i64,
}

/// The model of [`RateLimitRejection`].
#[verifier::ext_equal]
pub struct RateLimitRejectionV {
    pub window: Seq<char>,
    pub resets_at_secs: i64,
}

impl DeepView for RateLimitRejection {
    type V = RateLimitRejectionV;

    open spec fn deep_view(&self) -> RateLimitRejectionV {
        RateLimitRejectionV {
            window: self.window.deep_view(),
            resets_at_secs: self.resets_at_secs.deep_view(),
        }
    }
}

impl Duplicate for RateLimitRejection {
    fn duplicate(&self) -> (r: Self) {
        RateLimitRejection {
            window: self.window.duplicate(),
            resets_at_secs: self.resets_at_secs.duplicate(),
        }
    }
}

/// What is to be done about an update.
#[derive(Debug, PartialEq, Eq)]
pub enum NotificationAction {
    /// A sub-agent's output is followed.
    FollowAgent { agent_id: String, output_file: String },
    Publish(Event),
}

/// The model of [`NotificationAction`].
#[verifier::ext_equal]
pub enum NotificationActionV {
    FollowAgent { agent_id: Seq<char>, output_file: Seq<char> },
    Publish(EventV),
}

impl DeepView for NotificationAction {
    type V = NotificationActionV;

    open spec fn deep_view(&self) -> NotificationActionV {
        match self {
            NotificationAction::FollowAgent { agent_id, output_file } => {
                NotificationActionV::FollowAgent {
                    agent_id: agent_id.deep_view(),
                    output_file: output_file.deep_view(),
                }
            },
            NotificationAction::Publish(value) => NotificationActionV::Publish(value.deep_view()),
        }
    }
}

impl Duplicate for NotificationAction {
    fn duplicate(&self) -> (r: Self) {
        match self {
            NotificationAction::FollowAgent { agent_id, output_file } => {
                NotificationAction::FollowAgent {
                    agent_id: agent_id.duplicate(),
                    output_file: output_file.duplicate(),
                }
            },
            NotificationAction::Publish(value) => NotificationAction::Publish(value.duplicate()),
        }
    }
}

/// What an update leads to: the signals for the running prompt, which go
/// first, and what is to be done.
#[derive(Debug, PartialEq, Eq)]
pub struct NotificationOutcome {
    pub envelopes: Vec<LifecycleEnvelope>,
    pub actions: Vec<NotificationAction>,
}

/// The model of [`NotificationOutcome`].
#[verifier::ext_equal]
pub struct NotificationOutcomeV {
    pub envelopes: Seq<LifecycleEnvelopeV>,
    pub actions: Seq<NotificationActionV>,
}

impl DeepView for NotificationOutcome {
    type V = NotificationOutcomeV;

    open spec fn deep_view(&self) -> NotificationOutcomeV {
        NotificationOutcomeV {
            envelopes: self.envelopes.deep_view(),
            actions: self.actions.deep_view(),
        }
    }
}

impl Duplicate for NotificationOutcome {
    fn duplicate(&self) -> (r: Self) {
        NotificationOutcome {
            envelopes: self.envelopes.duplicate(),
            actions: self.actions.duplicate(),
        }
    }
}

/// The state once an update is seen, and what the update says about the turn;
/// nothing where it only restates what was streamed before. While a replay is
/// held back an update says nothing.
pub open spec fn seen(
    state: SharedV,
    update: SessionUpdateV,
    profile: AgentProfileV,
    now: Timestamp,
) -> (SharedV, Option<WatchedUpdateV>) {
    let heard = SharedV { last_event_at: now.total_millis() as i64, ..state };
    if state.suppress_history_replay {
        (
            SharedV { open_block: None, ..heard },
            Some(WatchedUpdateV { lifecycle: None, wakeup: None }),
        )
    } else {
        let (open_block, restated) = update_events::dedup_step(state.open_block, update);
        let lifecycle = lifecycle::lifecycle_signal(update);
        let wakeup = lifecycle::wakeup_signal(update, profile, now);
        if restated {
            (SharedV { open_block, ..heard }, None)
        } else {
            (
                SharedV {
                    open_block,
                    first_event_after_attach: state.first_event_after_attach || lifecycle is Some
                        || wakeup is Some,
                    ..heard
                },
                Some(WatchedUpdateV { lifecycle, wakeup }),
            )
        }
    }
}

/// The state once what an update says about the turn is taken note of. A turn
/// that the agent has started by itself gets an end of its own.
pub open spec fn noted(
    state: SharedV,
    watched: WatchedUpdateV,
    between: Option<BetweenPromptUpdate>,
) -> SharedV {
    if state.turn.prompt_in_flight {
        state
    } else {
        let armed = match between {
            Some(update) => SharedV {
                turn: TurnOwnership {
                    terminal: if state.between_prompt.active {
                        state.turn.terminal
                    } else {
                        state.turn.terminal.begun()
                    },
                    ..state.turn
                },
                between_prompt: BetweenPromptV {
                    active: true,
                    cost_seen: update.cost_seen,
                    last_lifecycle_at: update.last_lifecycle_at,
                    wake_at: update.wake_at,
                    ..state.between_prompt
                },
                ..state
            },
            None => state,
        };
        SharedV {
            between_prompt: tools_after(
                armed.between_prompt,
                watched.lifecycle,
                state.adopted_turn_active,
            ),
            ..armed
        }
    }
}

/// Whether an update tells of limits.
pub open spec fn tells_of_limits(update: SessionUpdateV) -> bool {
    &&& update matches SessionUpdateV::UsageUpdate(usage)
    &&& usage.meta matches Some(meta)
    &&& meta.get("_claude/rateLimit"@) is Some
}

/// The limits once an update is taken note of.
pub open spec fn limits_after(
    limits: Map<Seq<char>, i64>,
    update: SessionUpdateV,
    rejection: Option<RateLimitRejectionV>,
) -> Map<Seq<char>, i64> {
    match rejection {
        Some(rejection) => if tells_of_limits(update) {
            limits.insert(rejection.window, rejection.resets_at_secs)
        } else {
            limits
        },
        None => limits,
    }
}

/// What is done about one event. While a replay is held back, the visible
/// transcript is dropped and no sub-agent is followed.
pub open spec fn event_actions(event: EventV, suppressing: bool) -> Seq<NotificationActionV> {
    let followed = match event {
        EventV::BackgroundAgentLaunched { agent_id, output_file, .. } => if !suppressing
            && output_file.len() > 0 {
            seq![NotificationActionV::FollowAgent { agent_id, output_file }]
        } else {
            seq![]
        },
        _ => seq![],
    };
    if suppressing && transcript_filter::in_transcript(event) {
        followed
    } else {
        followed.push(NotificationActionV::Publish(event))
    }
}

/// What is done about a list of events.
pub open spec fn all_actions(events: Seq<EventV>, suppressing: bool) -> Seq<NotificationActionV>
    decreases events.len(),
{
    if events.len() == 0 {
        seq![]
    } else {
        all_actions(events.drop_last(), suppressing) + event_actions(events.last(), suppressing)
    }
}

/// The signals of an update that reach the running prompt.
pub open spec fn signals_for_prompt(
    state: SharedV,
    watched: WatchedUpdateV,
    local_prompt_signals: bool,
) -> Seq<LifecycleEnvelopeV> {
    lifecycle::forwarded(
        local_prompt_signals && state.turn.prompt_in_flight && state.prompt_epoch != 0,
        state.prompt_epoch,
        watched.lifecycle,
        watched.wakeup,
    )
}

/// What an update leads to. `seq` is the next number for a synthetic tool call.
pub open spec fn outcome(
    state: SharedV,
    update: SessionUpdateV,
    watched: WatchedUpdateV,
    local_prompt_signals: bool,
    profile: AgentProfileV,
    now: Timestamp,
    seq: u64,
) -> NotificationOutcomeV {
    NotificationOutcomeV {
        envelopes: signals_for_prompt(state, watched, local_prompt_signals),
        actions: all_actions(
            update_events::update_events(update, profile, now, seq),
            state.suppress_history_replay,
        ),
    }
}

/// The state once an update is applied.
pub open spec fn applied(
    state: SharedV,
    update: SessionUpdateV,
    watched: WatchedUpdateV,
    between: Option<BetweenPromptUpdate>,
    rejection: Option<RateLimitRejectionV>,
) -> SharedV {
    SharedV {
        rate_limit_rejections: limits_after(state.rate_limit_rejections, update, rejection),
        ..noted(state, watched, between)
    }
}

fn collect_actions(events: Vec<Event>, suppressing: bool) -> (r: Vec<NotificationAction>)
    ensures
        r.deep_view() == all_actions(events.deep_view(), suppressing),
{
    let ghost all = events.deep_view();
    let mut r: Vec<NotificationAction> = model::empty();
    let mut i: usize = 0;
    while i < events.len()
        invariant
            i <= events@.len(),
            all == events.deep_view(),
            r.deep_view() == all_actions(all.take(i as int), suppressing),
        decreases events@.len() - i,
    {
        let event = &events[i];
        let ghost before = r.deep_view();
        proof {
            assert(all.take(i + 1).drop_last() =~= all.take(i as int));
            assert(all.take(i + 1).last() == event.deep_view());
        }
        match event {
            Event::BackgroundAgentLaunched { agent_id, output_file, .. } => {
                if !suppressing && !text::is_empty(output_file.as_str()) {
                    model::push(
                        &mut r,
                        NotificationAction::FollowAgent {
                            agent_id: agent_id.clone(),
                            output_file: output_file.clone(),
                        },
                    );
                }
            },
            _ => {},
        }
        if !(suppressing && is_transcript_event(event)) {
            let copy = event.duplicate();
            model::push(&mut r, NotificationAction::Publish(copy));
        }
        proof {
            assert(r.deep_view() =~= before + event_actions(event.deep_view(), suppressing));
        }
        i = i + 1;
    }
    proof {
        assert(all.take(i as int) =~= all);
    }
    r
}

impl Shared {
    /// A connection that has just been made. `turn` says whether a prompt is
    /// running, and `now_ms` is the current time.
    pub fn new(turn: TurnOwnership, now_ms: i64) -> (r: Self)
        ensures
            r.deep_view() == (SharedV {
                suppress_history_replay: false,
                last_event_at: now_ms,
                first_event_after_attach: false,
                prompt_sent_since_attach: false,
                adopted_turn_active: false,
                turn,
                between_prompt: BetweenPromptV {
                    active: false,
                    cost_seen: false,
                    wake_at: 0,
                    last_lifecycle_at: now_ms,
                    off_protocol: false,
                    tools: Map::empty(),
                    bg_agents: Map::empty(),
                },
                rate_limit_rejections: Map::empty(),
                context_reset_emitted: false,
                prompt_epoch: 0,
                open_block: None,
            }),
    {
        Shared {
            suppress_history_replay: false,
            last_event_at: now_ms,
            first_event_after_attach: false,
            prompt_sent_since_attach: false,
            adopted_turn_active: false,
            turn,
            between_prompt: BetweenPrompt::new(now_ms),
            rate_limit_rejections: TextMap::new(),
            context_reset_emitted: false,
            prompt_epoch: 0,
            message_dedup: AgentMessageDedup::new(),
        }
    }

    /// Takes note that `update` has come. Returns what it says about the turn,
    /// or nothing where it is to be dropped because it only restates what was
    /// streamed before.
    pub fn see_notification(
        &mut self,
        update: &SessionUpdate,
        profile: &AgentProfile,
        now: Timestamp,
    ) -> (r: Option<WatchedUpdate>)
        requires
            now.valid(),
        ensures
            (final(self).deep_view(), r.deep_view()) == seen(
                old(self).deep_view(),
                update.deep_view(),
                profile.deep_view(),
                now,
            ),
    {
        self.last_event_at = now.millis();
        if self.suppress_history_replay {
            self.message_dedup.reset();
            return Some(WatchedUpdate { lifecycle: None, wakeup: None });
        }
        if self.message_dedup.observe(update) {
            return None;
        }
        let lifecycle = classify_lifecycle_signal(update);
        let wakeup = wakeup_lifecycle_signal_from_update(update, profile, now);
        if lifecycle.is_some() || wakeup.is_some() {
            self.first_event_after_attach = true;
        }
        Some(WatchedUpdate { lifecycle, wakeup })
    }

    fn note(&mut self, watched: &WatchedUpdate, between: Option<BetweenPromptUpdate>)
        ensures
            final(self).deep_view() == noted(old(self).deep_view(), watched.deep_view(), between),
    {
        if self.turn.prompt_in_flight {
            return;
        }
        if let Some(update) = between {
            if !self.between_prompt.active {
                self.between_prompt.active = true;
                self.turn.terminal.begin_turn();
            }
            self.between_prompt.cost_seen = update.cost_seen;
            self.between_prompt.last_lifecycle_at = update.last_lifecycle_at;
            self.between_prompt.wake_at = update.wake_at;
        }
        let adopted = self.adopted_turn_active;
        self.between_prompt.note_signal(&watched.lifecycle, adopted);
    }

    fn note_limits(&mut self, update: &SessionUpdate, rejection: Option<RateLimitRejection>)
        ensures
            final(self).deep_view() == (SharedV {
                rate_limit_rejections: limits_after(
                    old(self).deep_view().rate_limit_rejections,
                    update.deep_view(),
                    rejection.deep_view(),
                ),
                ..old(self).deep_view()
            }),
    {
        let told = match update {
            SessionUpdate::UsageUpdate(usage) => match &usage.meta {
                Some(meta) => meta.get("_claude/rateLimit").is_some(),
                None => false,
            },
            _ => false,
        };
        if told {
            if let Some(rejection) = rejection {
                self.rate_limit_rejections.insert(rejection.window, rejection.resets_at_secs);
            }
        }
    }

    /// Applies an update that [`Shared::see_notification`] has let pass.
    /// `between` is what its signals say about a turn between prompts,
    /// `rejection` the limit that it tells of, and `local_prompt_signals`
    /// whether it may speak of a prompt that was sent here. `seq` counts the
    /// synthetic tool calls of the process.
    pub fn apply_notification(
        &mut self,
        update: SessionUpdate,
        watched: WatchedUpdate,
        between: Option<BetweenPromptUpdate>,
        rejection: Option<RateLimitRejection>,
        local_prompt_signals: bool,
        profile: &AgentProfile,
        now: Timestamp,
        seq: &mut SyntheticSeq,
    ) -> (r: NotificationOutcome)
        requires
            update_events::times_in_range(update.deep_view(), profile.deep_view(), now),
        ensures
            final(self).deep_view() == applied(
                old(self).deep_view(),
                update.deep_view(),
                watched.deep_view(),
                between,
                rejection.deep_view(),
            ),
            r.deep_view() == outcome(
                old(self).deep_view(),
                update.deep_view(),
                watched.deep_view(),
                local_prompt_signals,
                profile.deep_view(),
                now,
                old(seq).next,
            ),
            final(seq).next == update_events::seq_after(update.deep_view(), old(seq).next),
    {
        let suppressing = self.suppress_history_replay;
        let epoch: u64 = self.prompt_epoch;
        let prompt_active = self.turn.prompt_in_flight;
        self.note(&watched, between);
        self.note_limits(&update, rejection);
        let events = map_update_to_events(update, profile, now, seq);
        let envelopes = forward_lifecycle_signals(
            local_prompt_signals && prompt_active && epoch != 0,
            epoch,
            watched.lifecycle,
            watched.wakeup,
        );
        let actions = collect_actions(events, suppressing);
        NotificationOutcome { envelopes, actions }
    }
}

/// While a replay is held back nothing of the visible transcript is published
/// and no sub-agent is followed; everything else passes.
pub proof fn law_replay_stays_out_of_the_transcript(events: Seq<EventV>, i: int)
    requires
        0 <= i < all_actions(events, true).len(),
    ensures
        all_actions(events, true)[i] matches NotificationActionV::Publish(event)
            && !transcript_filter::in_transcript(event),
    decreases events.len(),
{
    let before = all_actions(events.drop_last(), true);
    if i < before.len() {
        law_replay_stays_out_of_the_transcript(events.drop_last(), i);
        assert(all_actions(events, true)[i] == before[i]);
    } else {
        let last = event_actions(events.last(), true);
        assert(all_actions(events, true)[i] == last[i - before.len()]);
    }
}

proof fn lemma_published_is_an_event(events: Seq<EventV>, suppressing: bool, event: EventV)
    requires
        all_actions(events, suppressing).contains(NotificationActionV::Publish(event)),
    ensures
        events.contains(event),
    decreases events.len(),
{
    let all = all_actions(events, suppressing);
    let published = NotificationActionV::Publish(event);
    let k = choose|k: int| 0 <= k < all.len() && all[k] == published;
    let before = all_actions(events.drop_last(), suppressing);
    if k < before.len() {
        assert(before[k] == published);
        lemma_published_is_an_event(events.drop_last(), suppressing, event);
        let m = choose|m: int| 0 <= m < events.len() - 1 && events.drop_last()[m] == event;
        assert(events[m] == event);
    } else {
        assert(event_actions(events.last(), suppressing)[k - before.len()] == published);
        assert(events[events.len() - 1] == event);
    }
}

/// Two plans never come out under one id: whichever connections of a process
/// they reach, in whatever states these are, whatever is mapped between them,
/// and even within one millisecond. `run` is what all the connections map, and
/// `start` the next number before it. Neither the plans nor the tool calls that
/// stand for them share an id.
pub proof fn law_plans_of_all_connections_differ(
    start: u64,
    run: Seq<MappingV>,
    i: int,
    j: int,
    states: (SharedV, SharedV),
    watched: (WatchedUpdateV, WatchedUpdateV),
    local_prompt_signals: (bool, bool),
    published: (EventV, EventV),
)
    requires
        0 <= i < j < run.len(),
        run[i].update is Plan,
        run[j].update is Plan,
        update_events::plans_between(run, i, j) <= u64::MAX,
        outcome(
            states.0,
            run[i].update,
            watched.0,
            local_prompt_signals.0,
            run[i].profile,
            run[i].now,
            update_events::seq_at(start, run, i),
        ).actions.contains(NotificationActionV::Publish(published.0)),
        outcome(
            states.1,
            run[j].update,
            watched.1,
            local_prompt_signals.1,
            run[j].profile,
            run[j].now,
            update_events::seq_at(start, run, j),
        ).actions.contains(NotificationActionV::Publish(published.1)),
    ensures
        match published {
            (EventV::PlanUpdated { plan: a }, EventV::PlanUpdated { plan: b }) => a.plan_id
                != b.plan_id,
            (
                EventV::ToolCallStarted { tool_call: a },
                EventV::ToolCallStarted { tool_call: b },
            ) => a.id != b.id,
            (
                EventV::ToolCallCompleted { tool_call_id: a, .. },
                EventV::ToolCallCompleted { tool_call_id: b, .. },
            ) => a != b,
            _ => true,
        },
{
    update_events::law_plans_of_a_process_differ(start, run, i, j);
    let first = update_events::events_at(start, run, i);
    let second = update_events::events_at(start, run, j);
    lemma_published_is_an_event(first, states.0.suppress_history_replay, published.0);
    lemma_published_is_an_event(second, states.1.suppress_history_replay, published.1);
}

/// An event that is not transcript is published while a replay is held back.
pub proof fn law_state_passes_a_held_back_replay(event: EventV)
    requires
        !transcript_filter::in_transcript(event),
    ensures
        event_actions(event, true) == seq![NotificationActionV::Publish(event)],
{
}

/// A replay that is held back says nothing about any turn: it starts none, it
/// reaches no prompt, and it does not count as news of a turn.
pub proof fn law_replay_says_nothing_of_turns(
    state: SharedV,
    update: SessionUpdateV,
    profile: AgentProfileV,
    now: Timestamp,
)
    requires
        state.suppress_history_replay,
    ensures
        ({
            let (after, watched) = seen(state, update, profile, now);
            &&& watched == Some(WatchedUpdateV { lifecycle: None, wakeup: None })
            &&& after.first_event_after_attach == state.first_event_after_attach
            &&& after.turn == state.turn
            &&& after.between_prompt == state.between_prompt
            &&& signals_for_prompt(after, watched->0, true).len() == 0
        }),
{
}

/// A turn that the agent starts by itself can be taken, whatever happened to
/// the turn before it.
pub proof fn law_agent_turn_is_claimable(
    state: SharedV,
    watched: WatchedUpdateV,
    between: BetweenPromptUpdate,
)
    requires
        !state.turn.prompt_in_flight,
        !state.between_prompt.active,
        state.turn.terminal.claimed_for <= state.turn.terminal.epoch < u64::MAX,
    ensures
        !noted(state, watched, Some(between)).turn.terminal.is_claimed(),
{
}

/// The costs of an adopted turn end what is known of its tool calls, so that
/// a call whose end was missed cannot keep the turn open.
pub proof fn law_costs_release_adopted_tools(state: BetweenPromptV)
    ensures
        tools_after(state, Some(LifecycleSignalV::TerminalUsage), true).tools == Map::<
            Seq<char>,
            bool,
        >::empty(),
        !tools_after(state, Some(LifecycleSignalV::TerminalUsage), true).off_protocol,
{
}

/// The events that a list of actions publishes, in its order.
pub open spec fn published_events(actions: Seq<NotificationActionV>) -> Seq<EventV>
    decreases actions.len(),
{
    if actions.len() == 0 {
        seq![]
    } else {
        match actions.last() {
            NotificationActionV::Publish(event) => published_events(actions.drop_last()).push(
                event,
            ),
            NotificationActionV::FollowAgent { .. } => published_events(actions.drop_last()),
        }
    }
}

proof fn lemma_published_adds(a: Seq<NotificationActionV>, b: Seq<NotificationActionV>)
    ensures
        published_events(a + b) == published_events(a) + published_events(b),
    decreases b.len(),
{
    if b.len() == 0 {
        assert(a + b =~= a);
    } else {
        lemma_published_adds(a, b.drop_last());
        assert((a + b).drop_last() =~= a + b.drop_last());
        assert((a + b).last() == b.last());
    }
}

/// Every event is published, once and in its order; only while a replay is held back
/// are those of the transcript left out.
pub proof fn law_every_event_is_published(events: Seq<EventV>, suppressing: bool)
    ensures
        published_events(all_actions(events, suppressing)) == events.filter(
            |event: EventV| !(suppressing && transcript_filter::in_transcript(event)),
        ),
    decreases events.len(),
{
    reveal(Seq::filter);
    let kept = |event: EventV| !(suppressing && transcript_filter::in_transcript(event));
    if events.len() > 0 {
        let before = events.drop_last();
        law_every_event_is_published(before, suppressing);
        let last = event_actions(events.last(), suppressing);
        lemma_published_adds(all_actions(before, suppressing), last);
        reveal_with_fuel(published_events, 3);
        if kept(events.last()) {
            assert(last.last() == NotificationActionV::Publish(events.last()));
            assert(published_events(last) =~= seq![events.last()]);
        } else {
            assert(published_events(last) =~= Seq::<EventV>::empty());
        }
    }
    assert(published_events(all_actions(events, suppressing)) =~= events.filter(kept));
}

/// Outside of a replay an update is published as just the events that it gives rise to.
pub proof fn law_updates_are_published_whole(
    state: SharedV,
    update: SessionUpdateV,
    watched: WatchedUpdateV,
    local_prompt_signals: bool,
    profile: AgentProfileV,
    now: Timestamp,
    seq: u64,
)
    requires
        !state.suppress_history_replay,
    ensures
        published_events(
            outcome(state, update, watched, local_prompt_signals, profile, now, seq).actions,
        ) == update_events::update_events(update, profile, now, seq),
{
    let events = update_events::update_events(update, profile, now, seq);
    law_every_event_is_published(events, state.suppress_history_replay);
    lemma_all_kept(events, state.suppress_history_replay);
}

proof fn lemma_all_kept(events: Seq<EventV>, suppressing: bool)
    requires
        !suppressing,
    ensures
        events.filter(
            |event: EventV| !(suppressing && transcript_filter::in_transcript(event)),
        ) == events,
    decreases events.len(),
{
    reveal(Seq::filter);
    if events.len() > 0 {
        lemma_all_kept(events.drop_last(), suppressing);
        assert(events.drop_last().push(events.last()) =~= events);
    }
}

/// A sub-agent whose output is in a file is followed, before it is told of, outside of
/// a replay; nothing else is followed.
pub proof fn law_sub_agents_are_followed(event: EventV, suppressing: bool)
    ensures
        match event {
            EventV::BackgroundAgentLaunched { agent_id, output_file, .. } => if suppressing
                || output_file.len() == 0 {
                event_actions(event, suppressing) == seq![NotificationActionV::Publish(event)]
            } else {
                event_actions(event, suppressing) == seq![
                    NotificationActionV::FollowAgent { agent_id, output_file },
                    NotificationActionV::Publish(event),
                ]
            },
            _ => forall|k: int|
                0 <= k < event_actions(event, suppressing).len() ==> (
                #[trigger] event_actions(event, suppressing)[k]) !is FollowAgent,
        },
{
}

/// An update is heard of when it comes, and says what it is; it is dropped exactly where
/// it only restates what was streamed. The first news of a turn counts as such.
pub proof fn law_updates_are_heard(
    state: SharedV,
    update: SessionUpdateV,
    profile: AgentProfileV,
    now: Timestamp,
)
    requires
        !state.suppress_history_replay,
        now.valid(),
    ensures
        ({
            let (after, watched) = seen(state, update, profile, now);
            let restated = update_events::dedup_step(state.open_block, update).1;
            let signal = lifecycle::lifecycle_signal(update);
            let wakeup = lifecycle::wakeup_signal(update, profile, now);
            &&& after.last_event_at == now.total_millis()
            &&& watched is None <==> restated
            &&& watched matches Some(said) ==> said.lifecycle == signal && said.wakeup == wakeup
            &&& after.first_event_after_attach == (state.first_event_after_attach || (!restated && (
            signal is Some || wakeup is Some)))
            &&& after.open_block == update_events::dedup_step(state.open_block, update).0
            &&& after.turn == state.turn
            &&& after.between_prompt == state.between_prompt
            &&& after.rate_limit_rejections == state.rate_limit_rejections
            &&& after.suppress_history_replay == state.suppress_history_replay
        }),
{
}

/// Outside of a prompt the agent's turn is known by what it does: a call that starts is
/// at work until it ends, and other calls are left alone. Work that a call leaves behind
/// is known, but for that of sub-agents, which are followed.
pub proof fn law_calls_are_at_work_until_they_end(
    state: BetweenPromptV,
    id: Seq<char>,
    background: bool,
    succeeded: bool,
    left: Option<OffProtocolWorkKind>,
    adopted: bool,
    other: Seq<char>,
)
    requires
        other != id,
    ensures
        ({
            let start = LifecycleSignalV::ToolStarted { id, is_background_task: background };
            let end = LifecycleSignalV::ToolCompleted { id, succeeded, off_protocol_work: left };
            let started = tools_after(state, Some(start), adopted);
            let ended = tools_after(state, Some(end), adopted);
            let was_background = state.tools.contains_key(id) && state.tools[id];
            &&& started.tools.contains_key(id)
            &&& started.tools[id] == (background || was_background)
            &&& started.busy()
            &&& !ended.tools.contains_key(id)
            &&& started.tools.contains_key(other) == state.tools.contains_key(other)
            &&& ended.tools.contains_key(other) == state.tools.contains_key(other)
            &&& state.tools.contains_key(other) ==> started.tools[other] == state.tools[other]
                && ended.tools[other] == state.tools[other]
            &&& started.off_protocol == state.off_protocol
            &&& ended.off_protocol <==> state.off_protocol || (succeeded && left != Some(
                OffProtocolWorkKind::AsyncAgent,
            ) && (left is Some || was_background))
            &&& started.bg_agents == state.bg_agents && ended.bg_agents == state.bg_agents
            &&& tools_after(state, Some(LifecycleSignalV::Progress), adopted) == state
            &&& tools_after(state, None, adopted) == state
        }),
{
    let start = LifecycleSignalV::ToolStarted { id, is_background_task: background };
    assert(tools_after(state, Some(start), adopted).tools.contains_key(id));
    assert(!Map::<Seq<char>, bool>::empty().contains_key(id));
}

/// During a prompt an update says nothing about a turn between prompts; outside of one,
/// what it says of such a turn is kept as it is, and the turn is then running.
pub proof fn law_turns_between_prompts_are_known(
    state: SharedV,
    watched: WatchedUpdateV,
    between: Option<BetweenPromptUpdate>,
)
    ensures
        state.turn.prompt_in_flight ==> noted(state, watched, between) == state,
        !state.turn.prompt_in_flight ==> {
            let after = noted(state, watched, between);
            &&& between matches Some(update) ==> {
                &&& after.between_prompt.active
                &&& after.between_prompt.cost_seen == update.cost_seen
                &&& after.between_prompt.last_lifecycle_at == update.last_lifecycle_at
                &&& after.between_prompt.wake_at == update.wake_at
                &&& state.between_prompt.active ==> after.turn == state.turn
            }
            &&& between is None ==> after.turn == state.turn && after.between_prompt.active
                == state.between_prompt.active
            &&& after.turn.prompt_in_flight == state.turn.prompt_in_flight
            &&& after.rate_limit_rejections == state.rate_limit_rejections
            &&& after.prompt_epoch == state.prompt_epoch
            &&& after.adopted_turn_active == state.adopted_turn_active
        },
{
}

/// A limit that the agent tells of is kept under its name until it is told anew; the
/// others are kept as they are, and nothing else is taken for a limit.
pub proof fn law_limits_are_kept_by_their_name(
    limits: Map<Seq<char>, i64>,
    frame: crate::wire::UsageFrameV,
    meta: crate::json::JsonV,
    rejection: RateLimitRejectionV,
    other: Seq<char>,
    update: SessionUpdateV,
)
    requires
        frame.meta == Some(meta),
        meta.get("_claude/rateLimit"@) is Some,
        other != rejection.window,
        update !is UsageUpdate,
    ensures
        ({
            let after = limits_after(limits, SessionUpdateV::UsageUpdate(frame), Some(rejection));
            &&& after.contains_key(rejection.window)
            &&& after[rejection.window] == rejection.resets_at_secs
            &&& after.contains_key(other) == limits.contains_key(other)
            &&& limits.contains_key(other) ==> after[other] == limits[other]
            &&& limits_after(limits, update, Some(rejection)) == limits
            &&& limits_after(limits, SessionUpdateV::UsageUpdate(frame), None) == limits
        }),
{
}

/// The signals of an update reach the prompt that was sent here, while it runs, under its
/// number; and no prompt that was not sent here.
pub proof fn law_signals_reach_their_prompt(
    state: SharedV,
    watched: WatchedUpdateV,
    local_prompt_signals: bool,
)
    ensures
        ({
            let sent = signals_for_prompt(state, watched, local_prompt_signals);
            let runs = local_prompt_signals && state.turn.prompt_in_flight && state.prompt_epoch
                != 0;
            &&& !runs ==> sent.len() == 0
            &&& runs ==> sent == lifecycle::forwarded(
                true,
                state.prompt_epoch,
                watched.lifecycle,
                watched.wakeup,
            )
        }),
{
}

/// A prompt that takes over leaves only the sub-agents of a turn between prompts; the end
/// of such a turn leaves nothing at work.
pub proof fn law_what_is_left_of_a_turn(state: BetweenPromptV)
    ensures
        ({
            let taken = state.for_prompt();
            let cleared = state.cleared();
            &&& !taken.active && !taken.cost_seen && taken.wake_at == 0 && !taken.off_protocol
            &&& taken.tools == Map::<Seq<char>, bool>::empty()
            &&& taken.bg_agents == state.bg_agents
            &&& taken.last_lifecycle_at == state.last_lifecycle_at
            &&& !cleared.busy()
            &&& !cleared.active
        }),
{
}

}
