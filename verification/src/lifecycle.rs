//! Lifecycle signals: the facts about a turn that an agent's updates carry,
//! and who publishes the turn's end.

use crate::agent_profiles::{AgentProfile, AgentProfileV};
use crate::event::{Event, EventV};
use crate::model;
use crate::model::Duplicate;
use crate::raw_input;
use crate::raw_input::wakeup_event_from_raw;
use crate::text;
use crate::time::Timestamp;
use crate::update_events;
use crate::update_events::{is_compact_completion, is_compact_failure, is_compact_start};
use crate::wire::{
    ContentBlock, ContentBlockV, SessionUpdate, SessionUpdateV, ToolCallFrameV, ToolCallStatus,
    ToolCallUpdateFrameV, ToolContent, ToolContentBlock, ToolContentBlockV, ToolContentV,
};
use vstd::prelude::*;

verus! {

/// Work that goes on outside the protocol during a turn.
#[derive(Debug, Clone, Copy, PartialEq, Eq, Structural)]
pub enum OffProtocolWorkKind {
    /// A sub-agent that runs on its own.
    AsyncAgent,
    /// A command that runs in the background.
    BackgroundCommand,
    /// A turn that is parked until a wakeup.
    ScheduledWakeup,
    /// The conversation is being compacted.
    Compaction,
}

impl DeepView for OffProtocolWorkKind {
    type V = OffProtocolWorkKind;

    open spec fn deep_view(&self) -> OffProtocolWorkKind {
        *self
    }
}

impl Duplicate for OffProtocolWorkKind {
    fn duplicate(&self) -> (r: Self) {
        *self
    }
}

/// What an update says about the turn.
#[derive(Debug, PartialEq, Eq)]
pub enum LifecycleSignal {
    /// The turn goes on.
    Progress,
    /// A tool call has started. The flag says whether the tool was asked to
    /// run in the background.
    ToolStarted { id: String, is_background_task: bool },
    /// A tool call has ended.
    ToolCompleted {
        id: String,
        succeeded: bool,
        off_protocol_work: Option<OffProtocolWorkKind>,
    },
    /// The turn's costs were reported, which the agent does at its end.
    TerminalUsage,
    /// The turn is parked until a wakeup.
    WakeupPending { at: Timestamp },
    CompactionStarted,
    CompactionCompleted,
    CompactionFailed,
}

/// The model of [`LifecycleSignal`].
#[verifier::ext_equal]
pub enum LifecycleSignalV {
    Progress,
    ToolStarted { id: Seq<char>, is_background_task: bool },
    ToolCompleted {
        id: Seq<char>,
        succeeded: bool,
        off_protocol_work: Option<OffProtocolWorkKind>,
    },
    TerminalUsage,
    WakeupPending { at: Timestamp },
    CompactionStarted,
    CompactionCompleted,
    CompactionFailed,
}

impl DeepView for LifecycleSignal {
    type V = LifecycleSignalV;

    open spec fn deep_view(&self) -> LifecycleSignalV {
        match self {
            LifecycleSignal::Progress => LifecycleSignalV::Progress,
            LifecycleSignal::ToolStarted { id, is_background_task } => {
                LifecycleSignalV::ToolStarted {
                    id: id.deep_view(),
                    is_background_task: is_background_task.deep_view(),
                }
            },
            LifecycleSignal::ToolCompleted { id, succeeded, off_protocol_work } => {
                LifecycleSignalV::ToolCompleted {
                    id: id.deep_view(),
                    succeeded: succeeded.deep_view(),
                    off_protocol_work: off_protocol_work.deep_view(),
                }
            },
            LifecycleSignal::TerminalUsage => LifecycleSignalV::TerminalUsage,
            LifecycleSignal::WakeupPending { at } => {
                LifecycleSignalV::WakeupPending {
                    at: at.deep_view(),
                }
            },
            LifecycleSignal::CompactionStarted => LifecycleSignalV::CompactionStarted,
            LifecycleSignal::CompactionCompleted => LifecycleSignalV::CompactionCompleted,
            LifecycleSignal::CompactionFailed => LifecycleSignalV::CompactionFailed,
        }
    }
}

impl Duplicate for LifecycleSignal {
    fn duplicate(&self) -> (r: Self) {
        match self {
            LifecycleSignal::Progress => LifecycleSignal::Progress,
            LifecycleSignal::ToolStarted { id, is_background_task } => {
                LifecycleSignal::ToolStarted {
                    id: id.duplicate(),
                    is_background_task: is_background_task.duplicate(),
                }
            },
            LifecycleSignal::ToolCompleted { id, succeeded, off_protocol_work } => {
                LifecycleSignal::ToolCompleted {
                    id: id.duplicate(),
                    succeeded: succeeded.duplicate(),
                    off_protocol_work: off_protocol_work.duplicate(),
                }
            },
            LifecycleSignal::TerminalUsage => LifecycleSignal::TerminalUsage,
            LifecycleSignal::WakeupPending { at } => {
                LifecycleSignal::WakeupPending {
                    at: at.duplicate(),
                }
            },
            LifecycleSignal::CompactionStarted => LifecycleSignal::CompactionStarted,
            LifecycleSignal::CompactionCompleted => LifecycleSignal::CompactionCompleted,
            LifecycleSignal::CompactionFailed => LifecycleSignal::CompactionFailed,
        }
    }
}

/// A signal with the epoch of the prompt that was current when it arose.
#[derive(Debug, PartialEq, Eq)]
pub struct LifecycleEnvelope {
    pub epoch: u64,
    pub signal: LifecycleSignal,
}

/// The model of [`LifecycleEnvelope`].
#[verifier::ext_equal]
pub struct LifecycleEnvelopeV {
    pub epoch: u64,
    pub signal: LifecycleSignalV,
}

impl DeepView for LifecycleEnvelope {
    type V = LifecycleEnvelopeV;

    open spec fn deep_view(&self) -> LifecycleEnvelopeV {
        LifecycleEnvelopeV {
            epoch: self.epoch.deep_view(),
            signal: self.signal.deep_view(),
        }
    }
}

impl Duplicate for LifecycleEnvelope {
    fn duplicate(&self) -> (r: Self) {
        LifecycleEnvelope {
            epoch: self.epoch.duplicate(),
            signal: self.signal.duplicate(),
        }
    }
}

/// What a piece of the agent's text says about the turn. The end of a
/// compaction is looked for before its start.
pub open spec fn text_signal(text: Seq<char>) -> LifecycleSignalV {
    if update_events::compact_completion(text) {
        LifecycleSignalV::CompactionCompleted
    } else if update_events::compact_failure(text) {
        LifecycleSignalV::CompactionFailed
    } else if update_events::compact_start(text) {
        LifecycleSignalV::CompactionStarted
    } else {
        LifecycleSignalV::Progress
    }
}

/// Whether a tool call asks to run in the background.
pub open spec fn runs_in_background(frame: ToolCallFrameV) -> bool {
    match frame.raw_input {
        Some(raw) => raw.value.bool_at("run_in_background"@) == Some(true),
        None => false,
    }
}

/// What news of a tool call says about the turn. Only a call that succeeded
/// can have left work behind.
pub open spec fn tool_update_signal(frame: ToolCallUpdateFrameV) -> LifecycleSignalV {
    match frame.status {
        Some(ToolCallStatus::Completed) => LifecycleSignalV::ToolCompleted {
            id: frame.id,
            succeeded: true,
            off_protocol_work: off_protocol_work(frame.content),
        },
        Some(ToolCallStatus::Failed) => LifecycleSignalV::ToolCompleted {
            id: frame.id,
            succeeded: false,
            off_protocol_work: None,
        },
        Some(ToolCallStatus::InProgress) => LifecycleSignalV::ToolStarted {
            id: frame.id,
            is_background_task: false,
        },
        _ => LifecycleSignalV::Progress,
    }
}

/// What an update says about the turn; nothing for the state around it.
pub open spec fn lifecycle_signal(update: SessionUpdateV) -> Option<LifecycleSignalV> {
    match update {
        SessionUpdateV::UsageUpdate(usage) => if usage.cost is Some {
            Some(LifecycleSignalV::TerminalUsage)
        } else {
            None
        },
        SessionUpdateV::AgentMessageChunk(chunk) => match chunk.content {
            ContentBlockV::Text { text, .. } => Some(text_signal(text)),
            ContentBlockV::Other(_) => Some(LifecycleSignalV::Progress),
        },
        SessionUpdateV::AgentThoughtChunk(_) => Some(LifecycleSignalV::Progress),
        SessionUpdateV::Plan(_) => Some(LifecycleSignalV::Progress),
        SessionUpdateV::ToolCall(frame) => Some(
            LifecycleSignalV::ToolStarted {
                id: frame.id,
                is_background_task: runs_in_background(frame),
            },
        ),
        SessionUpdateV::ToolCallUpdate(frame) => Some(tool_update_signal(frame)),
        _ => None,
    }
}

/// Classifies an update. State around the turn (modes, commands, metadata,
/// usage without costs) carries no signal, so it cannot hide that a turn has
/// gone silent.
pub fn classify_lifecycle_signal(update: &SessionUpdate) -> (r: Option<LifecycleSignal>)
    ensures
        r.deep_view() == lifecycle_signal(update.deep_view()),
{
    match update {
        SessionUpdate::UsageUpdate(usage) => {
            if usage.cost.is_some() {
                Some(LifecycleSignal::TerminalUsage)
            } else {
                None
            }
        },
        SessionUpdate::AgentMessageChunk(chunk) => match &chunk.content {
            ContentBlock::Text { text, .. } => {
                if is_compact_completion(text.as_str()) {
                    Some(LifecycleSignal::CompactionCompleted)
                } else if is_compact_failure(text.as_str()) {
                    Some(LifecycleSignal::CompactionFailed)
                } else if is_compact_start(text.as_str()) {
                    Some(LifecycleSignal::CompactionStarted)
                } else {
                    Some(LifecycleSignal::Progress)
                }
            },
            ContentBlock::Other(_) => Some(LifecycleSignal::Progress),
        },
        SessionUpdate::AgentThoughtChunk(_) => Some(LifecycleSignal::Progress),
        SessionUpdate::Plan(_) => Some(LifecycleSignal::Progress),
        SessionUpdate::ToolCall(frame) => {
            let is_background_task = match &frame.raw_input {
                Some(raw) => match raw.value.bool_at("run_in_background") {
                    Some(flag) => flag,
                    None => false,
                },
                None => false,
            };
            Some(LifecycleSignal::ToolStarted { id: frame.id.clone(), is_background_task })
        },
        SessionUpdate::ToolCallUpdate(frame) => {
            let id = frame.id.clone();
            match frame.status {
                Some(ToolCallStatus::Completed) => {
                    let off_protocol_work = detect_off_protocol_work_completed(&frame.content);
                    Some(LifecycleSignal::ToolCompleted { id, succeeded: true, off_protocol_work })
                },
                Some(ToolCallStatus::Failed) => Some(
                    LifecycleSignal::ToolCompleted {
                        id,
                        succeeded: false,
                        off_protocol_work: None,
                    },
                ),
                Some(ToolCallStatus::InProgress) => Some(
                    LifecycleSignal::ToolStarted { id, is_background_task: false },
                ),
                _ => Some(LifecycleSignal::Progress),
            }
        },
        _ => None,
    }
}

/// The work that a line of a tool's output announces. Only the beginning of
/// the line counts, so output that quotes a marker announces nothing.
pub open spec fn line_marker(line: Seq<char>) -> Option<OffProtocolWorkKind> {
    let start = text::trimmed_start(line);
    if text::begins_with(start, "Async agent launched successfully"@) {
        Some(OffProtocolWorkKind::AsyncAgent)
    } else if text::begins_with(start, "Command running in background with ID: "@) {
        Some(OffProtocolWorkKind::BackgroundCommand)
    } else {
        None
    }
}

/// The work that the first line with a marker announces.
pub open spec fn first_marker(lines: Seq<Seq<char>>) -> Option<OffProtocolWorkKind>
    decreases lines.len(),
{
    if lines.len() == 0 {
        None
    } else {
        match line_marker(lines[0]) {
            Some(kind) => Some(kind),
            None => first_marker(lines.drop_first()),
        }
    }
}

/// The work that a block of a tool's output announces.
pub open spec fn block_marker(block: ToolContentBlockV) -> Option<OffProtocolWorkKind> {
    match block {
        ToolContentBlockV::Text(text) => first_marker(text::lines_of(text)),
        ToolContentBlockV::Other => None,
    }
}

/// The work that the first block with a marker announces.
pub open spec fn first_block_marker(blocks: Seq<ToolContentBlockV>) -> Option<OffProtocolWorkKind>
    decreases blocks.len(),
{
    if blocks.len() == 0 {
        None
    } else {
        match block_marker(blocks[0]) {
            Some(kind) => Some(kind),
            None => first_block_marker(blocks.drop_first()),
        }
    }
}

/// The work that a tool call has left behind, as its output announces it.
pub open spec fn off_protocol_work(content: Option<ToolContentV>) -> Option<OffProtocolWorkKind> {
    match content {
        Some(content) => first_block_marker(content.blocks),
        None => None,
    }
}

fn detect_line(line: &str) -> (r: Option<OffProtocolWorkKind>)
    ensures
        r == line_marker(line@),
{
    let start = text::trim_start(line);
    if text::starts_with(start.as_str(), "Async agent launched successfully") {
        Some(OffProtocolWorkKind::AsyncAgent)
    } else if text::starts_with(start.as_str(), "Command running in background with ID: ") {
        Some(OffProtocolWorkKind::BackgroundCommand)
    } else {
        None
    }
}

fn detect_lines(lines: &Vec<String>) -> (r: Option<OffProtocolWorkKind>)
    ensures
        r == first_marker(lines.deep_view()),
{
    let ghost all = lines.deep_view();
    let mut i: usize = 0;
    proof {
        assert(all.skip(0) =~= all);
    }
    while i < lines.len()
        invariant
            i <= lines@.len(),
            all == lines.deep_view(),
            first_marker(all) == first_marker(all.skip(i as int)),
        decreases lines@.len() - i,
    {
        proof {
            assert(all.skip(i as int)[0] == lines@[i as int]@);
            assert(all.skip(i as int).drop_first() =~= all.skip(i + 1));
        }
        let found = detect_line(lines[i].as_str());
        if found.is_some() {
            return found;
        }
        i = i + 1;
    }
    None
}

fn detect_blocks(blocks: &Vec<ToolContentBlock>) -> (r: Option<OffProtocolWorkKind>)
    ensures
        r == first_block_marker(blocks.deep_view()),
{
    let ghost all = blocks.deep_view();
    let mut i: usize = 0;
    proof {
        assert(all.skip(0) =~= all);
    }
    while i < blocks.len()
        invariant
            i <= blocks@.len(),
            all == blocks.deep_view(),
            first_block_marker(all) == first_block_marker(all.skip(i as int)),
        decreases blocks@.len() - i,
    {
        proof {
            assert(all.skip(i as int)[0] == blocks@[i as int].deep_view());
            assert(all.skip(i as int).drop_first() =~= all.skip(i + 1));
        }
        match &blocks[i] {
            ToolContentBlock::Text(text) => {
                let lines = text::lines(text.as_str());
                let found = detect_lines(&lines);
                if found.is_some() {
                    return found;
                }
            },
            ToolContentBlock::Other => {},
        }
        i = i + 1;
    }
    None
}

/// Detects work that goes on after a visible tool call has ended.
pub fn detect_off_protocol_work_completed(content: &Option<ToolContent>) -> (r: Option<
    OffProtocolWorkKind,
>)
    ensures
        r == off_protocol_work(content.deep_view()),
{
    match content {
        Some(content) => detect_blocks(&content.blocks),
        None => None,
    }
}

/// The wakeup that an update registers: news of a `ScheduleWakeup` call that
/// has not failed and that carries the delay. The first announcement of the
/// call registers none, since the call may still fail.
pub open spec fn wakeup_signal(
    update: SessionUpdateV,
    profile: AgentProfileV,
    now: Timestamp,
) -> Option<LifecycleSignalV> {
    match update {
        SessionUpdateV::ToolCallUpdate(frame) => if profile.supports_wakeup_tools && frame.status
            != Some(ToolCallStatus::Failed) && frame.title == Some("ScheduleWakeup"@) {
            match frame.raw_input {
                Some(raw) => match raw_input::wakeup_event(raw, now) {
                    Some(EventV::WakeupScheduled { at, .. }) => Some(
                        LifecycleSignalV::WakeupPending { at },
                    ),
                    _ => None,
                },
                None => None,
            }
        } else {
            None
        },
        _ => None,
    }
}

/// Derives the wakeup that an update registers.
pub fn wakeup_lifecycle_signal_from_update(
    update: &SessionUpdate,
    profile: &AgentProfile,
    now: Timestamp,
) -> (r: Option<LifecycleSignal>)
    requires
        now.valid(),
    ensures
        r.deep_view() == wakeup_signal(update.deep_view(), profile.deep_view(), now),
{
    if !profile.supports_wakeup_tools {
        return None;
    }
    let frame = match update {
        SessionUpdate::ToolCallUpdate(frame) => frame,
        _ => return None,
    };
    match frame.status {
        Some(ToolCallStatus::Failed) => return None,
        _ => {},
    }
    if !text::is(&frame.title, "ScheduleWakeup") {
        return None;
    }
    match &frame.raw_input {
        Some(raw) => match wakeup_event_from_raw(raw, now) {
            Some(Event::WakeupScheduled { at, .. }) => Some(LifecycleSignal::WakeupPending { at }),
            _ => None,
        },
        None => None,
    }
}

/// The signals of one update that reach the running prompt, under its epoch.
pub open spec fn forwarded(
    prompt_active: bool,
    epoch: u64,
    lifecycle: Option<LifecycleSignalV>,
    wakeup: Option<LifecycleSignalV>,
) -> Seq<LifecycleEnvelopeV> {
    let envelope = |signal: Option<LifecycleSignalV>|
        match signal {
            Some(signal) => Some(LifecycleEnvelopeV { epoch, signal }),
            None => None,
        };
    if prompt_active {
        model::with_some(model::with_some(seq![], envelope(lifecycle)), envelope(wakeup))
    } else {
        seq![]
    }
}

/// The signals of one update that are delivered to the running prompt. Between
/// prompts nothing takes them, so none is delivered.
pub fn forward_lifecycle_signals(
    prompt_active: bool,
    epoch: u64,
    lifecycle: Option<LifecycleSignal>,
    wakeup: Option<LifecycleSignal>,
) -> (r: Vec<LifecycleEnvelope>)
    ensures
        r.deep_view() == forwarded(prompt_active, epoch, lifecycle.deep_view(), wakeup.deep_view()),
{
    let mut r: Vec<LifecycleEnvelope> = model::empty();
    if prompt_active {
        if let Some(signal) = lifecycle {
            model::push(&mut r, LifecycleEnvelope { epoch, signal });
        }
        if let Some(signal) = wakeup {
            model::push(&mut r, LifecycleEnvelope { epoch, signal });
        }
    }
    r
}

/// Says which turn's end has been published, so that exactly one path
/// publishes it. Turns are told apart by their epoch.
#[derive(Debug, Clone, Copy, PartialEq, Eq, Structural)]
pub struct TerminalClaim {
    /// The turn that is current.
    pub epoch: u64,
    /// The turn whose end has been published.
    pub claimed_for: u64,
}

impl TerminalClaim {
    /// Whether the current turn's end has been published.
    pub open spec fn is_claimed(self) -> bool {
        self.claimed_for == self.epoch
    }

    /// The state after a new turn has begun.
    pub open spec fn begun(self) -> TerminalClaim {
        TerminalClaim {
            epoch: if self.epoch == u64::MAX {
                0
            } else {
                (self.epoch + 1) as u64
            },
            claimed_for: self.claimed_for,
        }
    }

    /// The state after a path has tried to take the current turn's end.
    pub open spec fn taken(self) -> TerminalClaim {
        TerminalClaim { epoch: self.epoch, claimed_for: self.epoch }
    }

    /// Nothing has been published, and the first turn is current.
    pub fn new() -> (r: Self)
        ensures
            r == (TerminalClaim { epoch: 1, claimed_for: 0 }),
            !r.is_claimed(),
    {
        TerminalClaim { epoch: 1, claimed_for: 0 }
    }

    /// A turn begins. Its end has not been published.
    pub fn begin_turn(&mut self)
        ensures
            *final(self) == old(self).begun(),
    {
        self.epoch = self.epoch.wrapping_add(1);
    }

    /// Takes the current turn's end. `false` where it has been published
    /// before: the caller must not publish it again.
    pub fn claim(&mut self) -> (r: bool)
        ensures
            r == !old(self).is_claimed(),
            *final(self) == old(self).taken(),
    {
        if self.claimed_for == self.epoch {
            return false;
        }
        self.claimed_for = self.epoch;
        true
    }

    /// Whether the current turn's end has been published.
    pub fn claimed(&self) -> (r: bool)
        ensures
            r == self.is_claimed(),
    {
        self.claimed_for == self.epoch
    }
}

/// A turn's end is taken once: whoever tries second gets nothing, and the
/// state does not change any more.
pub proof fn law_one_claim_per_turn(claim: TerminalClaim)
    ensures
        claim.taken().is_claimed(),
        claim.taken().taken() == claim.taken(),
{
}

/// A turn that begins can be taken, whatever happened to the turn before it.
/// Epochs may wrap; the turns that are told apart are those since then.
pub proof fn law_new_turn_is_claimable(claim: TerminalClaim)
    requires
        claim.claimed_for <= claim.epoch < u64::MAX,
    ensures
        !claim.begun().is_claimed(),
        !claim.taken().begun().is_claimed(),
        claim.begun().claimed_for <= claim.begun().epoch,
        claim.taken().claimed_for <= claim.taken().epoch,
{
}

/// Between prompts no signal is delivered, whatever the update says.
pub proof fn law_no_signal_between_prompts(
    epoch: u64,
    lifecycle: Option<LifecycleSignalV>,
    wakeup: Option<LifecycleSignalV>,
)
    ensures
        forwarded(false, epoch, lifecycle, wakeup).len() == 0,
{
}

/// During a prompt every signal of an update is delivered, the turn's own
/// before the wakeup, all under the prompt's epoch.
pub proof fn law_signals_keep_order(
    epoch: u64,
    lifecycle: LifecycleSignalV,
    wakeup: LifecycleSignalV,
)
    ensures
        forwarded(true, epoch, Some(lifecycle), Some(wakeup)) == seq![
            LifecycleEnvelopeV { epoch, signal: lifecycle },
            LifecycleEnvelopeV { epoch, signal: wakeup },
        ],
{
}

/// A tool call that failed leaves no work behind, whatever its output says.
pub proof fn law_failed_call_leaves_no_work(frame: ToolCallUpdateFrameV)
    requires
        frame.status == Some(ToolCallStatus::Failed),
    ensures
        lifecycle_signal(SessionUpdateV::ToolCallUpdate(frame)) == Some(
            LifecycleSignalV::ToolCompleted {
                id: frame.id,
                succeeded: false,
                off_protocol_work: None,
            },
        ),
{
}

/// The first announcement of a tool call registers no wakeup.
pub proof fn law_announcement_registers_no_wakeup(
    frame: ToolCallFrameV,
    profile: AgentProfileV,
    now: Timestamp,
)
    ensures
        wakeup_signal(SessionUpdateV::ToolCall(frame), profile, now) is None,
{
}

/// What an update says about a turn: a tool call that is announced or runs keeps it
/// open, one that ends closes it, costs end the turn, and whatever else the agent
/// does is progress. The state around a turn and the user's words say nothing.
pub proof fn law_updates_say_what_they_are(update: SessionUpdateV)
    ensures
        match update {
            SessionUpdateV::ToolCall(frame) => {
                &&& lifecycle_signal(update) matches Some(
                    LifecycleSignalV::ToolStarted { id, is_background_task },
                )
                &&& id == frame.id
                &&& is_background_task <==> frame.raw_input is Some
                    && frame.raw_input->0.value.bool_at("run_in_background"@) == Some(true)
            },
            SessionUpdateV::ToolCallUpdate(frame) => match lifecycle_signal(update) {
                Some(LifecycleSignalV::ToolCompleted { id, succeeded, off_protocol_work: left }) => {
                    &&& id == frame.id
                    &&& frame.status == Some(ToolCallStatus::Completed) || frame.status == Some(
                        ToolCallStatus::Failed,
                    )
                    &&& succeeded <==> frame.status == Some(ToolCallStatus::Completed)
                    &&& succeeded ==> left == off_protocol_work(frame.content)
                    &&& !succeeded ==> left is None
                },
                Some(LifecycleSignalV::ToolStarted { id, is_background_task }) => {
                    &&& frame.status == Some(ToolCallStatus::InProgress)
                    &&& id == frame.id
                    &&& !is_background_task
                },
                Some(LifecycleSignalV::Progress) => frame.status is None || frame.status == Some(
                    ToolCallStatus::Pending,
                ) || frame.status == Some(ToolCallStatus::Unknown),
                _ => false,
            },
            SessionUpdateV::UsageUpdate(usage) => lifecycle_signal(update) == if usage.cost
                is Some {
                Some(LifecycleSignalV::TerminalUsage)
            } else {
                None
            },
            SessionUpdateV::AgentThoughtChunk(_) | SessionUpdateV::Plan(_) => lifecycle_signal(
                update,
            ) == Some(LifecycleSignalV::Progress),
            SessionUpdateV::AgentMessageChunk(chunk) => {
                &&& lifecycle_signal(update) is Some
                &&& chunk.content !is Text ==> lifecycle_signal(update) == Some(
                    LifecycleSignalV::Progress,
                )
            },
            _ => lifecycle_signal(update) is None,
        },
{
}

/// A text that announces the end of a compaction says so, whatever else it holds;
/// a failure counts before a start, and any other text is progress.
pub proof fn law_compactions_are_told_by_their_text(text: Seq<char>)
    ensures
        ({
            let completed = text::has_text(text, "Compacting completed."@);
            let failed = text::has_text(text, "Compacting failed"@);
            let started = text::has_text(text, "Compacting..."@);
            match text_signal(text) {
                LifecycleSignalV::CompactionCompleted => completed,
                LifecycleSignalV::CompactionFailed => failed && !completed,
                LifecycleSignalV::CompactionStarted => started && !failed && !completed,
                LifecycleSignalV::Progress => !started && !failed && !completed,
                _ => false,
            }
        }),
{
}

/// Whether a line announces work that goes on: it begins, but for white space, with
/// the words of its kind.
pub open spec fn announces(line: Seq<char>, kind: OffProtocolWorkKind) -> bool {
    let start = text::trimmed_start(line);
    match kind {
        OffProtocolWorkKind::AsyncAgent => text::begins_with(
            start,
            "Async agent launched successfully"@,
        ),
        OffProtocolWorkKind::BackgroundCommand => text::begins_with(
            start,
            "Command running in background with ID: "@,
        ),
        _ => false,
    }
}

/// Whether a line announces nothing.
pub open spec fn plain_line(line: Seq<char>) -> bool {
    &&& !announces(line, OffProtocolWorkKind::AsyncAgent)
    &&& !announces(line, OffProtocolWorkKind::BackgroundCommand)
}

proof fn lemma_kinds_do_not_mix(line: Seq<char>)
    ensures
        !(announces(line, OffProtocolWorkKind::AsyncAgent) && announces(
            line,
            OffProtocolWorkKind::BackgroundCommand,
        )),
{
    reveal_strlit("Async agent launched successfully");
    reveal_strlit("Command running in background with ID: ");
    let start = text::trimmed_start(line);
    let a = "Async agent launched successfully"@;
    let b = "Command running in background with ID: "@;
    if text::begins_with(start, a) && text::begins_with(start, b) {
        assert(start.subrange(0, a.len() as int)[0] == start[0]);
        assert(start.subrange(0, b.len() as int)[0] == start[0]);
    }
}

/// Work that goes on is told by the first line that announces any, in the first
/// text with such a line; a line that only quotes the words announces nothing.
pub proof fn law_the_first_announcement_counts(
    content: ToolContentV,
    block: int,
    line: int,
    kind: OffProtocolWorkKind,
    text: Seq<char>,
)
    requires
        0 <= block < content.blocks.len(),
        content.blocks[block] == ToolContentBlockV::Text(text),
        0 <= line < text::lines_of(text).len(),
        announces(text::lines_of(text)[line], kind),
        forall|k: int| 0 <= k < line ==> plain_line(#[trigger] text::lines_of(text)[k]),
        forall|b: int| 0 <= b < block ==> announces_nothing(#[trigger] content.blocks[b]),
    ensures
        off_protocol_work(Some(content)) == Some(kind),
{
    lemma_kinds_do_not_mix(text::lines_of(text)[line]);
    lemma_first_marker(text::lines_of(text), line);
    lemma_first_block(content.blocks, block);
}

/// Whether no line of a block announces anything.
pub open spec fn announces_nothing(block: ToolContentBlockV) -> bool {
    block matches ToolContentBlockV::Text(text) ==> forall|k: int|
        0 <= k < text::lines_of(text).len() ==> plain_line(#[trigger] text::lines_of(text)[k])
}

/// Output without an announcement leaves no work behind; neither does no output.
pub proof fn law_without_an_announcement_no_work_goes_on(content: ToolContentV)
    requires
        forall|b: int|
            0 <= b < content.blocks.len() ==> announces_nothing(#[trigger] content.blocks[b]),
    ensures
        off_protocol_work(Some(content)) is None,
        off_protocol_work(None) is None,
{
    lemma_first_block(content.blocks, content.blocks.len() as int);
}

proof fn lemma_first_marker(lines: Seq<Seq<char>>, at: int)
    requires
        0 <= at <= lines.len(),
        forall|k: int| 0 <= k < at ==> plain_line(#[trigger] lines[k]),
    ensures
        first_marker(lines) == if at < lines.len() && line_marker(lines[at]) is Some {
            line_marker(lines[at])
        } else {
            first_marker(lines.skip(at))
        },
    decreases at,
{
    if at > 0 {
        let rest = lines.drop_first();
        assert forall|k: int| 0 <= k < at - 1 implies plain_line(#[trigger] rest[k]) by {
            assert(rest[k] == lines[k + 1]);
        }
        assert(plain_line(lines[0]));
        lemma_first_marker(rest, at - 1);
        assert(rest.skip(at - 1) =~= lines.skip(at));
    } else {
        assert(lines.skip(0) =~= lines);
    }
}

proof fn lemma_first_block(blocks: Seq<ToolContentBlockV>, at: int)
    requires
        0 <= at <= blocks.len(),
        forall|b: int| 0 <= b < at ==> announces_nothing(#[trigger] blocks[b]),
    ensures
        at < blocks.len() && block_marker(blocks[at]) is Some ==> first_block_marker(blocks)
            == block_marker(blocks[at]),
        at == blocks.len() ==> first_block_marker(blocks) is None,
    decreases at,
{
    if at > 0 {
        let rest = blocks.drop_first();
        assert forall|b: int| 0 <= b < at - 1 implies announces_nothing(#[trigger] rest[b]) by {
            assert(rest[b] == blocks[b + 1]);
        }
        assert(announces_nothing(blocks[0]));
        if let ToolContentBlockV::Text(text) = blocks[0] {
            let lines = text::lines_of(text);
            lemma_first_marker(lines, lines.len() as int);
            assert(lines.skip(lines.len() as int).len() == 0);
        }
        lemma_first_block(rest, at - 1);
    }
}

/// A wakeup is registered exactly by news of a `ScheduleWakeup` call that has not
/// failed, of an agent that has such tools, where the call asks for a time.
pub proof fn law_wakeups_are_registered_by_news(
    frame: ToolCallUpdateFrameV,
    profile: AgentProfileV,
    now: Timestamp,
)
    ensures
        ({
            let update = SessionUpdateV::ToolCallUpdate(frame);
            let asks = profile.supports_wakeup_tools && frame.status != Some(
                ToolCallStatus::Failed,
            ) && frame.title == Some("ScheduleWakeup"@) && frame.raw_input is Some
                && raw_input::wakeup_event(frame.raw_input->0, now) is Some;
            match wakeup_signal(update, profile, now) {
                Some(LifecycleSignalV::WakeupPending { at }) => asks && raw_input::wakeup_event(
                    frame.raw_input->0,
                    now,
                )->0->WakeupScheduled_at == at,
                Some(_) => false,
                None => !asks,
            }
        }),
{
}

/// During a prompt each signal that an update has is delivered once, under the
/// prompt's epoch.
pub proof fn law_every_signal_is_delivered(
    epoch: u64,
    lifecycle: Option<LifecycleSignalV>,
    wakeup: Option<LifecycleSignalV>,
)
    ensures
        ({
            let sent = forwarded(true, epoch, lifecycle, wakeup);
            &&& sent.len() == (if lifecycle is Some {
                1int
            } else {
                0
            }) + (if wakeup is Some {
                1int
            } else {
                0
            })
            &&& lifecycle is Some ==> sent[0] == (LifecycleEnvelopeV {
                epoch,
                signal: lifecycle->0,
            })
            &&& wakeup is Some ==> sent.last() == (LifecycleEnvelopeV { epoch, signal: wakeup->0 })
        }),
{
}

/// Turns are told apart: a turn that begins has an epoch of its own, and whoever
/// takes an end takes that of the current turn.
pub proof fn law_turns_are_told_apart(claim: TerminalClaim)
    ensures
        claim.begun().epoch != claim.epoch,
        claim.begun().claimed_for == claim.claimed_for,
        claim.taken().epoch == claim.epoch,
        claim.is_claimed() ==> !claim.begun().is_claimed(),
{
}

}
