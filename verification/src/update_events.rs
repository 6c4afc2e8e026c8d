//! The events that an agent's updates give rise to, and the filter that drops
//! an agent's restatement of text it has already streamed.

use crate::agent_profiles;
use crate::agent_profiles::{AgentProfile, AgentProfileV};
use crate::config_options;
use crate::config_options::map_config_options;
use crate::event::{
    AvailableCommand, AvailableCommandV, DiffPreview, DiffPreviewV, Event, EventV, Plan, PlanStep,
    PlanStepV, PlanV, SessionMode, SessionUsage, SessionUsageV, ToolCall, ToolCallV,
};
use crate::json::{Json, JsonV};
use crate::lifecycle;
use crate::lifecycle::{detect_off_protocol_work_completed, OffProtocolWorkKind};
use crate::model;
use crate::model::Duplicate;
use crate::raw_input;
use crate::raw_input::{
    background_agent_launched_from_value, background_item_event_from_hook, wakeup_event_from_raw,
};
use crate::text;
use crate::time::Timestamp;
use crate::transcript_filter;
use crate::wire::{
    CommandInput, CommandSpec, CommandSpecV, ContentBlock, ContentBlockV, PlanEntry, PlanEntryV,
    RawInputV, SessionUpdate, SessionUpdateV, ToolCallFrame, ToolCallFrameV, ToolCallStatus,
    ToolCallUpdateFrame, ToolCallUpdateFrameV,
};
use vstd::prelude::*;
use vstd::string::*;

verus! {

/// Whether a text announces the end of a compaction.
pub open spec fn compact_completion(text: Seq<char>) -> bool {
    text::has_text(text, "Compacting completed."@)
}

/// Whether a text announces the start of a compaction.
pub open spec fn compact_start(text: Seq<char>) -> bool {
    text::has_text(text, "Compacting..."@)
}

/// Whether a text announces that a compaction has failed. The reason, which
/// follows, may be anything.
pub open spec fn compact_failure(text: Seq<char>) -> bool {
    text::has_text(text, "Compacting failed"@)
}

/// Whether `text` announces the end of a compaction.
pub fn is_compact_completion(text: &str) -> (r: bool)
    ensures
        r == compact_completion(text@),
{
    text::contains(text, "Compacting completed.")
}

/// Whether `text` announces the start of a compaction.
pub fn is_compact_start(text: &str) -> (r: bool)
    ensures
        r == compact_start(text@),
{
    text::contains(text, "Compacting...")
}

/// Whether `text` announces that a compaction has failed.
pub fn is_compact_failure(text: &str) -> (r: bool)
    ensures
        r == compact_failure(text@),
{
    text::contains(text, "Compacting failed")
}

/// A block of the agent's text that is being streamed: the message that it
/// belongs to and what has come of it so far.
#[derive(Debug, PartialEq, Eq)]
pub struct AgentTextBlock {
    pub id: Option<String>,
    pub text: String,
}

/// The model of [`AgentTextBlock`].
#[verifier::ext_equal]
pub struct AgentTextBlockV {
    pub id: Option<Seq<char>>,
    pub text: Seq<char>,
}

impl DeepView for AgentTextBlock {
    type V = AgentTextBlockV;

    open spec fn deep_view(&self) -> AgentTextBlockV {
        AgentTextBlockV {
            id: self.id.deep_view(),
            text: self.text.deep_view(),
        }
    }
}

impl Duplicate for AgentTextBlock {
    fn duplicate(&self) -> (r: Self) {
        AgentTextBlock {
            id: self.id.duplicate(),
            text: self.text.duplicate(),
        }
    }
}

/// Drops the copy of a whole text block that an agent may send after it has
/// streamed the block piece by piece. A piece with the block's own message id
/// is new text and is kept. A piece with another id, or with an id where the
/// block had none, that repeats the block word for word is the copy.
#[derive(Debug, PartialEq, Eq)]
pub struct AgentMessageDedup {
    pub block: Option<AgentTextBlock>,
}

/// The model of [`AgentMessageDedup`].
#[verifier::ext_equal]
pub struct AgentMessageDedupV {
    pub block: Option<AgentTextBlockV>,
}

impl DeepView for AgentMessageDedup {
    type V = AgentMessageDedupV;

    open spec fn deep_view(&self) -> AgentMessageDedupV {
        AgentMessageDedupV {
            block: self.block.deep_view(),
        }
    }
}

impl Duplicate for AgentMessageDedup {
    fn duplicate(&self) -> (r: Self) {
        AgentMessageDedup {
            block: self.block.duplicate(),
        }
    }
}

/// The open block after an update, and whether the update is the copy of the
/// block that was open before it.
pub open spec fn dedup_step(
    block: Option<AgentTextBlockV>,
    update: SessionUpdateV,
) -> (Option<AgentTextBlockV>, bool) {
    match update {
        SessionUpdateV::AgentMessageChunk(chunk) => match chunk.content {
            ContentBlockV::Text { text, .. } => {
                let fresh = Some(AgentTextBlockV { id: chunk.message_id, text });
                if text.len() == 0 {
                    (fresh, false)
                } else {
                    match block {
                        Some(open) => if open.id == chunk.message_id {
                            (Some(AgentTextBlockV { id: open.id, text: open.text + text }), false)
                        } else if open.text == text {
                            (None, true)
                        } else {
                            (fresh, false)
                        },
                        None => (fresh, false),
                    }
                }
            },
            ContentBlockV::Other(_) => (None, false),
        },
        _ => (None, false),
    }
}

impl AgentMessageDedup {
    /// No block is open.
    pub fn new() -> (r: Self)
        ensures
            r.deep_view().block is None,
    {
        AgentMessageDedup { block: None }
    }

    /// Forgets the open block.
    pub fn reset(&mut self)
        ensures
            final(self).deep_view().block is None,
    {
        self.block = None;
    }

    /// Takes note of `update`. `true` where it is the copy of a block that
    /// has been streamed, and the whole update is to be dropped.
    pub fn observe(&mut self, update: &SessionUpdate) -> (r: bool)
        ensures
            (final(self).deep_view().block, r) == dedup_step(
                old(self).deep_view().block,
                update.deep_view(),
            ),
    {
        let chunk = match update {
            SessionUpdate::AgentMessageChunk(chunk) => chunk,
            _ => {
                self.block = None;
                return false;
            },
        };
        let text = match &chunk.content {
            ContentBlock::Text { text, .. } => text,
            ContentBlock::Other(_) => {
                self.block = None;
                return false;
            },
        };
        let fresh = Some(AgentTextBlock { id: chunk.message_id.duplicate(), text: text.clone() });
        if text::is_empty(text.as_str()) {
            self.block = fresh;
            return false;
        }
        let open = self.block.take();
        match open {
            Some(block) => {
                if text::same_opt(&block.id, &chunk.message_id) {
                    let mut joined = block.text;
                    joined.append(text.as_str());
                    self.block = Some(AgentTextBlock { id: block.id, text: joined });
                    false
                } else if text::same(block.text.as_str(), text.as_str()) {
                    self.block = None;
                    true
                } else {
                    self.block = fresh;
                    false
                }
            },
            None => {
                self.block = fresh;
                false
            },
        }
    }
}

impl Default for AgentMessageDedup {
    fn default() -> (r: Self)
        ensures
            r.deep_view().block is None,
    {
        AgentMessageDedup::new()
    }
}

/// A piece of text with the message id of the open block is never dropped,
/// whatever it says.
pub proof fn law_same_message_is_never_dropped(
    block: AgentTextBlockV,
    chunk: crate::wire::ContentChunkV,
)
    requires
        chunk.message_id == block.id,
    ensures
        !dedup_step(Some(block), SessionUpdateV::AgentMessageChunk(chunk)).1,
{
}

/// A piece of text under another message id that repeats the open block word
/// for word is dropped, and closes the block: a second repetition is kept.
pub proof fn law_restatement_is_dropped_once(
    block: AgentTextBlockV,
    chunk: crate::wire::ContentChunkV,
)
    requires
        chunk.message_id != block.id,
        chunk.content matches ContentBlockV::Text { text, .. } && text == block.text && text.len()
            > 0,
    ensures
        ({
            let update = SessionUpdateV::AgentMessageChunk(chunk);
            let first = dedup_step(Some(block), update);
            first.1 && first.0 is None && !dedup_step(first.0, update).1
        }),
{
}

/// Nothing is dropped without an open block, and only text ever is.
pub proof fn law_only_open_text_is_dropped(block: Option<AgentTextBlockV>, update: SessionUpdateV)
    ensures
        dedup_step(block, update).1 ==> {
            &&& block is Some
            &&& update matches SessionUpdateV::AgentMessageChunk(chunk)
            &&& chunk.content matches ContentBlockV::Text { text, .. }
            &&& text == block->0.text
            &&& chunk.message_id != block->0.id
        },
{
}

/// Where neither the block nor the pieces carry a message id, nothing is
/// dropped.
pub proof fn law_without_ids_nothing_is_dropped(
    text: Seq<char>,
    chunk: crate::wire::ContentChunkV,
)
    requires
        chunk.message_id is None,
    ensures
        !dedup_step(
            Some(AgentTextBlockV { id: None, text }),
            SessionUpdateV::AgentMessageChunk(chunk),
        ).1,
{
}

/// Whether `id` is that of a keepalive: it ends in `-heartbeat-` and a number.
pub open spec fn heartbeat_id(id: Seq<char>) -> bool {
    exists|at: int| heartbeat_suffix(id, at)
}

/// `-heartbeat-` stands in `id` at position `at`, and a number follows.
pub open spec fn heartbeat_suffix(id: Seq<char>, at: int) -> bool {
    let marker = "-heartbeat-"@;
    &&& text::occurs_at(id, marker, at)
    &&& at + marker.len() < id.len()
    &&& text::all_digits(id.skip(at + marker.len()))
}

/// Whether `id` is that of a keepalive.
pub fn is_heartbeat_tool_call_id(id: &str) -> (r: bool)
    ensures
        r == heartbeat_id(id@),
{
    let chars = text::chars_of(id);
    let marker = "-heartbeat-";
    proof {
        reveal_strlit("-heartbeat-");
    }
    let mut start: usize = chars.len();
    while start > 0 && text::is_ascii_digit(chars[start - 1])
        invariant
            start <= chars@.len(),
            chars@ == id@,
            forall|i: int| start <= i < chars@.len() ==> text::is_digit(#[trigger] chars@[i]),
        decreases start,
    {
        start = start - 1;
    }
    let ghost k = start as int;
    assert forall|at: int| heartbeat_suffix(id@, at) implies at + 11 == k by {
        let digits = id@.skip(at + 11);
        assert(id@.subrange(at, at + 11)[10] == '-');
        assert(id@[at + 10] == '-');
        if k <= at + 10 {
            assert(text::is_digit(chars@[at + 10]));
        }
        if k > at + 11 {
            assert(digits[k - 1 - (at + 11)] == id@[k - 1]);
            assert(text::is_digit(id@[k - 1]));
        }
    }
    if start == chars.len() || start < 11 {
        return false;
    }
    let at: usize = start - 11;
    let piece = text::text_of(&chars, at, start);
    proof {
        assert forall|i: int| 0 <= i < id@.skip(k).len() implies text::is_digit(
            #[trigger] id@.skip(k)[i],
        ) by {
            assert(text::is_digit(chars@[k + i]));
        }
    }
    let r = text::same(piece.as_str(), marker);
    proof {
        if r {
            assert(heartbeat_suffix(id@, at as int));
        } else if heartbeat_id(id@) {
            let other = choose|other: int| heartbeat_suffix(id@, other);
            assert(other == at);
        }
    }
    r
}

/// The next number for a synthetic tool call. It tells two calls of the same
/// millisecond apart. A process has one such counter, for all its connections.
#[derive(Debug, Clone, Copy, PartialEq, Eq, Structural)]
pub struct SyntheticSeq {
    pub next: u64,
}

/// The number that follows `n`.
pub open spec fn next_seq(n: u64) -> u64 {
    if n == u64::MAX {
        0
    } else {
        (n + 1) as u64
    }
}

/// The next number once an update is mapped. Only a plan takes a number.
pub open spec fn seq_after(update: SessionUpdateV, n: u64) -> u64 {
    if update is Plan {
        next_seq(n)
    } else {
        n
    }
}

/// The synthetic id `<prefix><milliseconds>-<number>`.
pub open spec fn synthetic_id(prefix: Seq<char>, now: Timestamp, seq: u64) -> Seq<char> {
    prefix + text::signed_decimal(now.total_millis()) + "-"@ + text::decimal(seq as nat)
}

fn make_synthetic_id(prefix: &str, now: Timestamp, seq: u64) -> (r: String)
    requires
        now.valid(),
    ensures
        r@ == synthetic_id(prefix@, now, seq),
{
    let millis = text::signed_text(now.millis());
    let number = text::decimal_text(seq);
    let mut r = prefix.to_owned();
    r.append(millis.as_str());
    r.append("-");
    r.append(number.as_str());
    r
}

/// The events of a piece of the agent's text: the text, and what it announces
/// of a compaction. A compaction that has ended leaves the agent without its
/// plan, so the plan is emptied.
pub open spec fn message_events(text: Seq<char>, now: Timestamp) -> Seq<EventV> {
    let shown = seq![EventV::AgentMessageChunk { text }];
    let started = if compact_start(text) {
        shown.push(EventV::ConversationCompactionStarted)
    } else {
        shown
    };
    if compact_completion(text) {
        started.push(EventV::ConversationCompacted).push(
            EventV::PlanUpdated {
                plan: PlanV {
                    plan_id: "plan-"@ + text::signed_decimal(now.total_millis()),
                    version: 1,
                    steps: seq![],
                },
            },
        )
    } else {
        started
    }
}

fn map_message_chunk(text: String, now: Timestamp) -> (r: Vec<Event>)
    requires
        now.valid(),
    ensures
        r.deep_view() == message_events(text@, now),
{
    let starts = is_compact_start(text.as_str());
    let completes = is_compact_completion(text.as_str());
    let mut events = model::one(Event::AgentMessageChunk { text });
    if starts {
        model::push(&mut events, Event::ConversationCompactionStarted);
    }
    if completes {
        model::push(&mut events, Event::ConversationCompacted);
        let millis = text::signed_text(now.millis());
        let plan_id = text::cat("plan-", millis.as_str());
        model::push(
            &mut events,
            Event::PlanUpdated { plan: Plan { plan_id, version: 1, steps: model::empty() } },
        );
    }
    events
}

/// The events of a thought: that the agent is thinking, and its words where
/// there are any.
pub open spec fn thought_events(content: ContentBlockV) -> Seq<EventV> {
    match content {
        ContentBlockV::Text { text, .. } => if text::trimmed(text).len() > 0 {
            seq![EventV::ThinkingStarted, EventV::AgentThoughtChunk { text }]
        } else {
            seq![EventV::ThinkingStarted]
        },
        ContentBlockV::Other(_) => seq![EventV::ThinkingStarted],
    }
}

fn map_thought(content: ContentBlock) -> (r: Vec<Event>)
    ensures
        r.deep_view() == thought_events(content.deep_view()),
{
    match content {
        ContentBlock::Text { text, .. } => {
            let trimmed = text::trim(text.as_str());
            if text::is_empty(trimmed.as_str()) {
                model::one(Event::ThinkingStarted)
            } else {
                model::two(Event::ThinkingStarted, Event::AgentThoughtChunk { text })
            }
        },
        ContentBlock::Other(_) => model::one(Event::ThinkingStarted),
    }
}

/// The tool call that an announcement shows.
pub open spec fn started_tool(
    frame: ToolCallFrameV,
    profile: AgentProfileV,
    now: Timestamp,
) -> ToolCallV {
    ToolCallV {
        id: frame.id,
        name: frame.title,
        kind: frame.kind,
        args_preview: frame.args_preview,
        started_at: now,
        parent_tool_call_id: agent_profiles::parent_of(profile.parent_meta_namespaces, frame.meta),
        memory_recall: if profile.supports_memory_recall {
            frame.memory_recall
        } else {
            None
        },
        diffs: frame.diffs,
    }
}

/// The plan that an announcement carries, for an agent that announces plans
/// by a mode switch.
pub open spec fn announced_plan(frame: ToolCallFrameV, profile: AgentProfileV) -> Option<EventV> {
    match frame.switch_plan {
        Some(plan) => if profile.supports_exit_plan_mode && frame.switches_mode {
            Some(EventV::PlanUpdated { plan })
        } else {
            None
        },
        None => None,
    }
}

/// The wakeup that a tool call asks for, for an agent that has such tools.
pub open spec fn announced_wakeup(
    title: Option<Seq<char>>,
    raw: Option<RawInputV>,
    profile: AgentProfileV,
    now: Timestamp,
) -> Option<EventV> {
    match raw {
        Some(raw) => if profile.supports_wakeup_tools && title == Some("ScheduleWakeup"@) {
            raw_input::wakeup_event(raw, now)
        } else {
            None
        },
        None => None,
    }
}

/// The events of the announcement of a tool call.
pub open spec fn tool_call_events(
    frame: ToolCallFrameV,
    profile: AgentProfileV,
    now: Timestamp,
) -> Seq<EventV> {
    let started = seq![EventV::ToolCallStarted { tool_call: started_tool(frame, profile, now) }];
    let planned = model::with_some(started, announced_plan(frame, profile));
    model::with_some(planned, announced_wakeup(Some(frame.title), frame.raw_input, profile, now))
}

fn map_tool_call(frame: ToolCallFrame, profile: &AgentProfile, now: Timestamp) -> (r: Vec<Event>)
    requires
        now.valid(),
    ensures
        r.deep_view() == tool_call_events(frame.deep_view(), profile.deep_view(), now),
{
    let is_wakeup = text::same(frame.title.as_str(), "ScheduleWakeup");
    let memory_recall = if profile.supports_memory_recall_tool() {
        frame.memory_recall
    } else {
        None
    };
    let tool_call = ToolCall {
        id: frame.id,
        name: frame.title,
        kind: frame.kind,
        args_preview: frame.args_preview,
        started_at: now,
        parent_tool_call_id: profile.parent_tool_use_id_from_meta(&frame.meta),
        memory_recall,
        diffs: frame.diffs,
    };
    let mut events = model::one(Event::ToolCallStarted { tool_call });
    if profile.supports_exit_plan_mode && frame.switches_mode {
        if let Some(plan) = frame.switch_plan {
            model::push(&mut events, Event::PlanUpdated { plan });
        }
    }
    if profile.supports_wakeup_tools && is_wakeup {
        if let Some(raw) = &frame.raw_input {
            model::push_some(&mut events, wakeup_event_from_raw(raw, now));
        }
    }
    events
}

/// The text of what a tool call has produced.
pub open spec fn content_text(frame: ToolCallUpdateFrameV) -> Seq<char> {
    match frame.content {
        Some(content) => content.text,
        None => seq![],
    }
}

/// The changes to files that news of a tool call carries: those of its
/// content where there are any, and else those of its metadata.
pub open spec fn new_diffs(frame: ToolCallUpdateFrameV) -> Option<Seq<DiffPreviewV>> {
    match frame.content {
        Some(content) => if content.diffs.len() > 0 {
            Some(content.diffs)
        } else {
            frame.meta_diffs
        },
        None => frame.meta_diffs,
    }
}

/// The preview of new arguments. Arguments that are null are none.
pub open spec fn new_args(frame: ToolCallUpdateFrameV) -> Option<Seq<char>> {
    match frame.raw_input {
        Some(raw) => if raw.value is Null {
            None
        } else {
            Some(raw.preview)
        },
        None => None,
    }
}

/// Whether a tool call has ended.
pub open spec fn ended(frame: ToolCallUpdateFrameV) -> bool {
    frame.status == Some(ToolCallStatus::Completed) || frame.status == Some(ToolCallStatus::Failed)
}

/// Whether news of a tool call changes what is shown of it.
pub open spec fn changes_card(frame: ToolCallUpdateFrameV) -> bool {
    ||| frame.title is Some
    ||| new_args(frame) is Some
    ||| frame.status == Some(ToolCallStatus::InProgress)
    ||| new_diffs(frame) is Some
}

/// The change to what is shown of a tool call. A call that now runs gets the
/// current time as its start.
pub open spec fn card_change(frame: ToolCallUpdateFrameV, now: Timestamp) -> EventV {
    EventV::ToolCallUpdated {
        tool_call_id: frame.id,
        title: frame.title,
        args_preview: new_args(frame),
        started_at: if frame.status == Some(ToolCallStatus::InProgress) {
            Some(now)
        } else {
            None
        },
        diffs: new_diffs(frame),
    }
}

/// The end of a tool call.
pub open spec fn completion(frame: ToolCallUpdateFrameV, now: Timestamp) -> EventV {
    EventV::ToolCallCompleted {
        tool_call_id: frame.id,
        is_error: frame.status == Some(ToolCallStatus::Failed),
        content: content_text(frame),
        output: match frame.content {
            Some(content) => content.output,
            None => seq![],
        },
        completed_at: now,
        async_subagent: lifecycle::off_protocol_work(frame.content) == Some(
            OffProtocolWorkKind::AsyncAgent,
        ),
    }
}

/// Whether news of a tool call carries nothing but metadata.
pub open spec fn metadata_only(frame: ToolCallUpdateFrameV) -> bool {
    &&& !ended(frame)
    &&& content_text(frame).len() == 0
    &&& !changes_card(frame)
}

/// The events of a frame that carries nothing but metadata: background work
/// that it reports, and a sub-agent that it starts or else the frame itself.
pub open spec fn metadata_events(
    payload: JsonV,
    profile: AgentProfileV,
    now: Timestamp,
) -> Seq<EventV> {
    let background = if profile.supports_wakeup_tools {
        model::with_some(seq![], raw_input::background_item_event(payload, now))
    } else {
        seq![]
    };
    background.push(
        match raw_input::background_agent_launched(payload, now) {
            Some(event) => event,
            None => EventV::RawAgentUpdate { payload },
        },
    )
}

/// Whether news of a tool call is a keepalive, which nothing is made of.
pub open spec fn keepalive(frame: ToolCallUpdateFrameV, profile: AgentProfileV) -> bool {
    profile.emits_heartbeat_keepalives && heartbeat_id(frame.id)
}

/// The events of news of a tool call.
pub open spec fn tool_update_events(
    frame: ToolCallUpdateFrameV,
    profile: AgentProfileV,
    now: Timestamp,
) -> Seq<EventV> {
    let changed = if changes_card(frame) {
        seq![card_change(frame, now)]
    } else {
        seq![]
    };
    let told = if ended(frame) {
        changed.push(completion(frame, now))
    } else if content_text(frame).len() > 0 {
        changed.push(
            EventV::ToolCallContent { tool_call_id: frame.id, content: content_text(frame) },
        )
    } else if changed.len() == 0 {
        metadata_events(frame.payload, profile, now)
    } else {
        changed
    };
    if keepalive(frame, profile) {
        seq![]
    } else {
        model::with_some(told, announced_wakeup(frame.title, frame.raw_input, profile, now))
    }
}

fn map_metadata(payload: Json, profile: &AgentProfile, now: Timestamp) -> (r: Vec<Event>)
    requires
        now.valid(),
        profile.supports_wakeup_tools ==> raw_input::monitor_in_range(payload.deep_view(), now),
    ensures
        r.deep_view() == metadata_events(payload.deep_view(), profile.deep_view(), now),
{
    let mut events: Vec<Event> = model::empty();
    if profile.supports_wakeup_tools {
        model::push_some(&mut events, background_item_event_from_hook(&payload, now));
    }
    match background_agent_launched_from_value(&payload, now) {
        Some(event) => model::push(&mut events, event),
        None => model::push(&mut events, Event::RawAgentUpdate { payload }),
    }
    events
}

fn take_content(frame: &ToolCallUpdateFrame) -> (r: (String, Option<Vec<DiffPreview>>, Vec<Json>))
    ensures
        r.0@ == content_text(frame.deep_view()),
        r.1.deep_view() == new_diffs(frame.deep_view()),
        r.2.deep_view() == (match frame.deep_view().content {
            Some(content) => content.output,
            None => Seq::<JsonV>::empty(),
        }),
{
    match &frame.content {
        Some(content) => {
            let diffs = if content.diffs.len() > 0 {
                Some(content.diffs.duplicate())
            } else {
                frame.meta_diffs.duplicate()
            };
            (content.text.clone(), diffs, content.output.duplicate())
        },
        None => {
            let text = String::new();
            proof {
                assert(text@ =~= Seq::<char>::empty());
            }
            (text, frame.meta_diffs.duplicate(), model::empty())
        },
    }
}

fn map_tool_call_update(
    frame: ToolCallUpdateFrame,
    profile: &AgentProfile,
    now: Timestamp,
) -> (r: Vec<Event>)
    requires
        now.valid(),
        profile.supports_wakeup_tools && metadata_only(frame.deep_view()) && !keepalive(
            frame.deep_view(),
            profile.deep_view(),
        ) ==> raw_input::monitor_in_range(frame.deep_view().payload, now),
    ensures
        r.deep_view() == tool_update_events(frame.deep_view(), profile.deep_view(), now),
{
    if profile.emits_heartbeat_keepalives && is_heartbeat_tool_call_id(frame.id.as_str()) {
        return model::empty();
    }
    let is_error = match frame.status {
        Some(ToolCallStatus::Failed) => true,
        _ => false,
    };
    let completed = match frame.status {
        Some(ToolCallStatus::Failed) => true,
        Some(ToolCallStatus::Completed) => true,
        _ => false,
    };
    let in_progress = match frame.status {
        Some(ToolCallStatus::InProgress) => true,
        _ => false,
    };
    let (content, diffs, output) = take_content(&frame);
    let args_preview = match &frame.raw_input {
        Some(raw) => {
            if raw.value.is_null() {
                None
            } else {
                Some(raw.preview.clone())
            }
        },
        None => None,
    };
    let changes = frame.title.is_some() || args_preview.is_some() || in_progress
        || diffs.is_some();
    let mut events: Vec<Event> = model::empty();
    if changes {
        model::push(
            &mut events,
            Event::ToolCallUpdated {
                tool_call_id: frame.id.clone(),
                title: frame.title.duplicate(),
                args_preview,
                started_at: if in_progress {
                    Some(now)
                } else {
                    None
                },
                diffs,
            },
        );
    }
    if completed {
        let async_subagent = match detect_off_protocol_work_completed(&frame.content) {
            Some(OffProtocolWorkKind::AsyncAgent) => true,
            _ => false,
        };
        model::push(
            &mut events,
            Event::ToolCallCompleted {
                tool_call_id: frame.id.clone(),
                is_error,
                content,
                output,
                completed_at: now,
                async_subagent,
            },
        );
    } else if !text::is_empty(content.as_str()) {
        model::push(&mut events, Event::ToolCallContent { tool_call_id: frame.id.clone(), content });
    } else if !changes {
        events = map_metadata(frame.payload.duplicate(), profile, now);
    }
    if profile.supports_wakeup_tools && text::is(&frame.title, "ScheduleWakeup") {
        if let Some(raw) = &frame.raw_input {
            model::push_some(&mut events, wakeup_event_from_raw(raw, now));
        }
    }
    proof {
        let v = frame.deep_view();
        assert(changes == changes_card(v));
        assert(Seq::<EventV>::empty().push(card_change(v, now)) =~= seq![card_change(v, now)]);
    }
    events
}

fn is_metadata_only(frame: &ToolCallUpdateFrame) -> (r: bool)
    ensures
        r == metadata_only(frame.deep_view()),
{
    let settled = match frame.status {
        Some(ToolCallStatus::Failed) => true,
        Some(ToolCallStatus::Completed) => true,
        Some(ToolCallStatus::InProgress) => true,
        _ => false,
    };
    let args = match &frame.raw_input {
        Some(raw) => !raw.value.is_null(),
        None => false,
    };
    let (content, diffs, _) = take_content(frame);
    !settled && !args && frame.title.is_none() && diffs.is_none() && text::is_empty(
        content.as_str(),
    )
}

/// Whether every time that the events of an update name can be named: what
/// [`map_update_to_events`] asks of an update.
pub fn times_fit(update: &SessionUpdate, profile: &AgentProfile, now: Timestamp) -> (r: bool)
    ensures
        r == times_in_range(update.deep_view(), profile.deep_view(), now),
{
    if !now.is_valid() {
        return false;
    }
    match update {
        SessionUpdate::ToolCallUpdate(frame) => {
            let kept = profile.emits_heartbeat_keepalives && is_heartbeat_tool_call_id(
                frame.id.as_str(),
            );
            if profile.supports_wakeup_tools && !kept && is_metadata_only(frame) {
                raw_input::monitor_fits(&frame.payload, now)
            } else {
                true
            }
        },
        _ => true,
    }
}

/// A text as `serde_json` writes it, in quotes and with its escapes.
pub uninterp spec fn json_literal_of(text: Seq<char>) -> Seq<char>;

/// One entry of a plan as a JSON object, with `literal` for a text as a JSON
/// string.
pub open spec fn todo_text(
    entry: PlanEntryV,
    literal: spec_fn(Seq<char>) -> Seq<char>,
) -> Seq<char> {
    "{\"content\":"@ + literal(entry.content) + ",\"status\":"@ + literal(entry.status_text)
        + "}"@
}

/// The entries of a plan as JSON objects, with commas between them.
pub open spec fn todos_text(
    entries: Seq<PlanEntryV>,
    literal: spec_fn(Seq<char>) -> Seq<char>,
) -> Seq<char>
    decreases entries.len(),
{
    if entries.len() == 0 {
        seq![]
    } else if entries.len() == 1 {
        todo_text(entries[0], literal)
    } else {
        todos_text(entries.drop_last(), literal) + ","@ + todo_text(entries.last(), literal)
    }
}

/// The entries of a plan as the list of things to do, in one JSON object.
pub open spec fn todos_json(
    entries: Seq<PlanEntryV>,
    literal: spec_fn(Seq<char>) -> Seq<char>,
) -> Seq<char> {
    "{\"todos\":["@ + todos_text(entries, literal) + "]}"@
}

/// The arguments of the tool call that stands for a plan.
pub open spec fn plan_args(entries: Seq<PlanEntryV>) -> Seq<char> {
    todos_json(entries, |text: Seq<char>| json_literal_of(text))
}

/// The steps of a plan. The id of a step is its position.
pub open spec fn plan_steps(entries: Seq<PlanEntryV>) -> Seq<PlanStepV> {
    Seq::new(
        entries.len(),
        |i: int|
            PlanStepV {
                id: "step-"@ + text::decimal(i as nat),
                title: entries[i].content,
                detail: None,
                status: entries[i].status,
            },
    )
}

/// The events of a plan: the plan itself, between the start and the end of
/// the tool call that stands for it.
pub open spec fn plan_events(entries: Seq<PlanEntryV>, now: Timestamp, seq: u64) -> Seq<EventV> {
    let tool_id = synthetic_id("todo-"@, now, seq);
    seq![
        EventV::ToolCallStarted {
            tool_call: ToolCallV {
                id: tool_id,
                name: "TodoWrite"@,
                kind: "think"@,
                args_preview: plan_args(entries),
                started_at: now,
                parent_tool_call_id: None,
                memory_recall: None,
                diffs: seq![],
            },
        },
        EventV::PlanUpdated {
            plan: PlanV {
                plan_id: synthetic_id("plan-"@, now, seq),
                version: 1,
                steps: plan_steps(entries),
            },
        },
        EventV::ToolCallCompleted {
            tool_call_id: tool_id,
            is_error: false,
            content: seq![],
            output: seq![],
            completed_at: now,
            async_subagent: false,
        },
    ]
}

/// `serde_json::Value::to_string` on an object that holds under `list` an array
/// with one object for each entry, which holds the entry's content under
/// `content` and the text of its status under `status`. `serde_json` writes it
/// without white space, the fields of an entry in this order, and each text as a
/// JSON string, which depends on the text alone: see [`json_literal_of`].
#[verifier::external_body]
fn write_todos(list: &str, content: &str, status: &str, entries: &Vec<PlanEntry>) -> (r: String)
    requires
        list@ == "todos"@,
        content@ == "content"@,
        status@ == "status"@,
    ensures
        r@ == todos_json(entries.deep_view(), |text: Seq<char>| json_literal_of(text)),
{
    let todo = |e: &PlanEntry| {
        let fields = [(content, e.content.as_str()), (status, e.status_text.as_str())];
        serde_json::Value::from_iter(fields)
    };
    let todos: serde_json::Value = entries.iter().map(todo).collect();
    serde_json::Value::from_iter([(list, todos)]).to_string()
}

fn make_steps(entries: Vec<PlanEntry>) -> (r: Vec<PlanStep>)
    ensures
        r.deep_view() == plan_steps(entries.deep_view()),
{
    let ghost all = entries.deep_view();
    let mut r: Vec<PlanStep> = Vec::new();
    let mut i: usize = 0;
    while i < entries.len()
        invariant
            i <= entries@.len(),
            all == entries.deep_view(),
            r@.len() == i,
            forall|j: int|
                0 <= j < i ==> (#[trigger] r@[j]).deep_view() == plan_steps(all)[j],
        decreases entries@.len() - i,
    {
        let number = text::decimal_text(i as u64);
        let step = PlanStep {
            id: text::cat("step-", number.as_str()),
            title: entries[i].content.clone(),
            detail: None,
            status: entries[i].status,
        };
        assert(step.deep_view() == plan_steps(all)[i as int]);
        r.push(step);
        i = i + 1;
    }
    proof {
        assert(r.deep_view() =~= plan_steps(all));
    }
    r
}

fn map_plan(entries: Vec<PlanEntry>, now: Timestamp, seq: u64) -> (r: Vec<Event>)
    requires
        now.valid(),
    ensures
        r.deep_view() == plan_events(entries.deep_view(), now, seq),
{
    let tool_id = make_synthetic_id("todo-", now, seq);
    let plan_id = make_synthetic_id("plan-", now, seq);
    let args_preview = write_todos("todos", "content", "status", &entries);
    let steps = make_steps(entries);
    let content = String::new();
    proof {
        assert(content@ =~= Seq::<char>::empty());
    }
    let started = Event::ToolCallStarted {
        tool_call: ToolCall {
            id: tool_id.clone(),
            name: "TodoWrite".to_owned(),
            kind: "think".to_owned(),
            args_preview,
            started_at: now,
            parent_tool_call_id: None,
            memory_recall: None,
            diffs: model::empty(),
        },
    };
    let updated = Event::PlanUpdated { plan: Plan { plan_id, version: 1, steps } };
    let completed = Event::ToolCallCompleted {
        tool_call_id: tool_id,
        is_error: false,
        content,
        output: model::empty(),
        completed_at: now,
        async_subagent: false,
    };
    let mut events = model::two(started, updated);
    model::push(&mut events, completed);
    proof {
        assert(events.deep_view() =~= plan_events(entries.deep_view(), now, seq));
    }
    events
}

/// The permission mode that a mode id stands for. Ids of several agents stand
/// for the same mode, and an id that is not known stands for the default.
pub open spec fn mode_of(id: Seq<char>) -> SessionMode {
    if id == "plan"@ {
        SessionMode::Plan
    } else if id == "accept_edits"@ || id == "acceptEdits"@ || id == "auto_edit"@ || id
        == "autoEdit"@ {
        SessionMode::AcceptEdits
    } else if id == "bypass_permissions"@ || id == "bypassPermissions"@ || id == "yolo"@ {
        SessionMode::BypassPermissions
    } else {
        SessionMode::Default
    }
}

fn classify_mode(id: &str) -> (r: SessionMode)
    ensures
        r == mode_of(id@),
{
    if text::same(id, "plan") {
        SessionMode::Plan
    } else if text::same(id, "accept_edits") || text::same(id, "acceptEdits") || text::same(
        id,
        "auto_edit",
    ) || text::same(id, "autoEdit") {
        SessionMode::AcceptEdits
    } else if text::same(id, "bypass_permissions") || text::same(id, "bypassPermissions")
        || text::same(id, "yolo") {
        SessionMode::BypassPermissions
    } else {
        SessionMode::Default
    }
}

/// The commands that an agent offers, as they are shown.
pub open spec fn shown_commands(commands: Seq<CommandSpecV>) -> Seq<AvailableCommandV> {
    commands.map_values(
        |command: CommandSpecV|
            AvailableCommandV {
                name: command.name,
                description: command.description,
                accepts_input: command.input == Some(CommandInput::Unstructured),
            },
    )
}

fn map_commands(commands: Vec<CommandSpec>) -> (r: Vec<AvailableCommand>)
    ensures
        r.deep_view() == shown_commands(commands.deep_view()),
{
    let ghost all = shown_commands(commands.deep_view());
    let mut r: Vec<AvailableCommand> = Vec::new();
    let mut i: usize = 0;
    while i < commands.len()
        invariant
            i <= commands@.len(),
            all == shown_commands(commands.deep_view()),
            r@.len() == i,
            forall|j: int| 0 <= j < i ==> (#[trigger] r@[j]).deep_view() == all[j],
        decreases commands@.len() - i,
    {
        let accepts_input = match commands[i].input {
            Some(CommandInput::Unstructured) => true,
            _ => false,
        };
        let command = AvailableCommand {
            name: commands[i].name.clone(),
            description: commands[i].description.clone(),
            accepts_input,
        };
        assert(command.deep_view() == all[i as int]);
        r.push(command);
        i = i + 1;
    }
    proof {
        assert(r.deep_view() =~= all);
    }
    r
}

/// The events that an update gives rise to. `seq` is the number of the next
/// synthetic tool call.
pub open spec fn update_events(
    update: SessionUpdateV,
    profile: AgentProfileV,
    now: Timestamp,
    seq: u64,
) -> Seq<EventV> {
    match update {
        SessionUpdateV::AgentMessageChunk(chunk) => match chunk.content {
            ContentBlockV::Text { text, .. } => message_events(text, now),
            ContentBlockV::Other(payload) => seq![EventV::RawAgentUpdate { payload }],
        },
        SessionUpdateV::UserMessageChunk(chunk) => match chunk.content {
            ContentBlockV::Text { text, .. } => seq![
                EventV::UserPromptSent { text, attachments: seq![], prompt_id: None },
            ],
            ContentBlockV::Other(payload) => seq![EventV::RawAgentUpdate { payload }],
        },
        SessionUpdateV::AgentThoughtChunk(chunk) => thought_events(chunk.content),
        SessionUpdateV::ToolCall(frame) => tool_call_events(frame, profile, now),
        SessionUpdateV::ToolCallUpdate(frame) => tool_update_events(frame, profile, now),
        SessionUpdateV::Plan(entries) => plan_events(entries, now, seq),
        SessionUpdateV::CurrentModeUpdate(id) => seq![
            EventV::CurrentModeChanged { current_mode_id: id },
            EventV::ModeChanged { mode: mode_of(id) },
        ],
        SessionUpdateV::UsageUpdate(usage) => seq![
            EventV::UsageUpdated {
                usage: SessionUsageV { used: usage.used, size: usage.size, cost: usage.cost },
            },
        ],
        SessionUpdateV::AvailableCommandsUpdate(commands) => seq![
            EventV::AvailableCommandsUpdated { commands: shown_commands(commands) },
        ],
        SessionUpdateV::ConfigOptionUpdate(options) => seq![
            EventV::ConfigOptionsUpdated { options: config_options::descriptors(options) },
        ],
        SessionUpdateV::SessionInfoUpdate => seq![],
        SessionUpdateV::Other(payload) => seq![EventV::RawAgentUpdate { payload }],
    }
}

/// Whether every time that the events of an update name can be named.
pub open spec fn times_in_range(
    update: SessionUpdateV,
    profile: AgentProfileV,
    now: Timestamp,
) -> bool {
    &&& now.valid()
    &&& update matches SessionUpdateV::ToolCallUpdate(frame) ==> profile.supports_wakeup_tools
        && metadata_only(frame) && !keepalive(frame, profile) ==> raw_input::monitor_in_range(
        frame.payload,
        now,
    )
}

/// Maps an update to the events that it gives rise to. What has no event of
/// its own passes through as it is. `profile` says which of an agent's
/// updates stand for more than they say.
pub fn map_update_to_events(
    update: SessionUpdate,
    profile: &AgentProfile,
    now: Timestamp,
    seq: &mut SyntheticSeq,
) -> (r: Vec<Event>)
    requires
        times_in_range(update.deep_view(), profile.deep_view(), now),
    ensures
        r.deep_view() == update_events(
            update.deep_view(),
            profile.deep_view(),
            now,
            old(seq).next,
        ),
        final(seq).next == seq_after(update.deep_view(), old(seq).next),
{
    match update {
        SessionUpdate::AgentMessageChunk(chunk) => match chunk.content {
            ContentBlock::Text { text, .. } => map_message_chunk(text, now),
            ContentBlock::Other(payload) => model::one(Event::RawAgentUpdate { payload }),
        },
        SessionUpdate::UserMessageChunk(chunk) => match chunk.content {
            ContentBlock::Text { text, .. } => model::one(
                Event::UserPromptSent { text, attachments: model::empty(), prompt_id: None },
            ),
            ContentBlock::Other(payload) => model::one(Event::RawAgentUpdate { payload }),
        },
        SessionUpdate::AgentThoughtChunk(chunk) => map_thought(chunk.content),
        SessionUpdate::ToolCall(frame) => map_tool_call(frame, profile, now),
        SessionUpdate::ToolCallUpdate(frame) => map_tool_call_update(frame, profile, now),
        SessionUpdate::Plan(entries) => {
            let number: u64 = seq.next;
            seq.next = number.wrapping_add(1);
            map_plan(entries, now, number)
        },
        SessionUpdate::CurrentModeUpdate(id) => {
            let mode = classify_mode(id.as_str());
            model::two(Event::CurrentModeChanged { current_mode_id: id }, Event::ModeChanged { mode })
        },
        SessionUpdate::UsageUpdate(usage) => model::one(
            Event::UsageUpdated {
                usage: SessionUsage { used: usage.used, size: usage.size, cost: usage.cost },
            },
        ),
        SessionUpdate::AvailableCommandsUpdate(commands) => model::one(
            Event::AvailableCommandsUpdated { commands: map_commands(commands) },
        ),
        SessionUpdate::ConfigOptionUpdate(options) => model::one(
            Event::ConfigOptionsUpdated { options: map_config_options(&options) },
        ),
        SessionUpdate::SessionInfoUpdate => model::empty(),
        SessionUpdate::Other(payload) => model::one(Event::RawAgentUpdate { payload }),
    }
}

/// Every news of a tool call gives rise to at least one event, but for the
/// keepalives of an agent that sends them: those give rise to none.
pub proof fn law_only_keepalives_are_silent(
    frame: ToolCallUpdateFrameV,
    profile: AgentProfileV,
    now: Timestamp,
)
    ensures
        (tool_update_events(frame, profile, now).len() == 0) == keepalive(frame, profile),
{
}

/// A sub-agent that a frame starts is told as such, and the frame does not
/// pass through beside it.
pub proof fn law_launch_hides_its_frame(
    frame: ToolCallUpdateFrameV,
    profile: AgentProfileV,
    now: Timestamp,
)
    requires
        raw_input::background_agent_launched(frame.payload, now) is Some,
    ensures
        forall|i: int|
            0 <= i < tool_update_events(frame, profile, now).len() ==> !((
            #[trigger] tool_update_events(frame, profile, now)[i]) is RawAgentUpdate),
{
    let events = tool_update_events(frame, profile, now);
    assert forall|i: int| 0 <= i < events.len() implies !((#[trigger] events[i]) is RawAgentUpdate) by {
        let background = if profile.supports_wakeup_tools {
            model::with_some(
                Seq::<EventV>::empty(),
                raw_input::background_item_event(frame.payload, now),
            )
        } else {
            Seq::<EventV>::empty()
        };
        assert(metadata_events(frame.payload, profile, now).len() == background.len() + 1);
        lemma_announced_wakeup(frame.title, frame.raw_input, profile, now);
    }
}

proof fn lemma_announced_wakeup(
    title: Option<Seq<char>>,
    raw: Option<RawInputV>,
    profile: AgentProfileV,
    now: Timestamp,
)
    ensures
        announced_wakeup(title, raw, profile, now) matches Some(event)
            ==> event is WakeupScheduled,
{
}

/// News of a tool call without changes to files leaves the changes that are
/// shown as they are.
pub proof fn law_text_keeps_diffs(frame: ToolCallUpdateFrameV, now: Timestamp)
    requires
        frame.meta_diffs is None,
        frame.content matches Some(content) ==> content.diffs.len() == 0,
    ensures
        card_change(frame, now) matches EventV::ToolCallUpdated { diffs, .. } && diffs is None,
{
}

/// What a piece of the agent's text gives rise to is transcript as a whole:
/// where the text is held back, so is what it announces.
pub proof fn law_compaction_goes_with_its_text(text: Seq<char>, now: Timestamp)
    ensures
        forall|i: int|
            0 <= i < message_events(text, now).len() ==> transcript_filter::in_transcript(
                #[trigger] message_events(text, now)[i],
            ),
{
}

/// An agent without the special behaviour is taken at its word: none of its
/// tool calls is linked to a parent, announces a plan or asks for a wakeup.
pub proof fn law_plain_agent_is_taken_at_its_word(
    key: Seq<char>,
    frame: ToolCallFrameV,
    now: Timestamp,
)
    ensures
        ({
            let profile = agent_profiles::plain_profile(key);
            &&& tool_call_events(frame, profile, now) == seq![
                EventV::ToolCallStarted { tool_call: started_tool(frame, profile, now) },
            ]
            &&& started_tool(frame, profile, now).parent_tool_call_id is None
            &&& started_tool(frame, profile, now).memory_recall is None
        }),
{
    let profile = agent_profiles::plain_profile(key);
    assert(agent_profiles::parent_of(profile.parent_meta_namespaces, frame.meta) is None);
}

/// The synthetic ids of two plans differ wherever their numbers do, in
/// whatever millisecond they were made.
pub proof fn law_synthetic_ids_differ(
    prefix: Seq<char>,
    a: Timestamp,
    m: u64,
    b: Timestamp,
    n: u64,
)
    requires
        m != n,
    ensures
        synthetic_id(prefix, a, m) != synthetic_id(prefix, b, n),
{
    let x = prefix + text::signed_decimal(a.total_millis()) + "-"@;
    let y = prefix + text::signed_decimal(b.total_millis()) + "-"@;
    let p = text::decimal(m as nat);
    let q = text::decimal(n as nat);
    reveal_strlit("-");
    text::lemma_decimal_digits(m as nat);
    text::lemma_decimal_digits(n as nat);
    if x + p == y + q {
        let whole = x + p;
        let len = whole.len() as int;
        assert(x.last() == '-' && y.last() == '-');
        if p.len() < q.len() {
            assert(whole[len - 1 - p.len()] == x.last());
            assert((y + q)[len - 1 - p.len()] == q[q.len() - 1 - p.len()]);
            assert(text::is_digit(q[q.len() - 1 - p.len()]));
        } else if q.len() < p.len() {
            assert((y + q)[len - 1 - q.len()] == y.last());
            assert(whole[len - 1 - q.len()] == p[p.len() - 1 - q.len()]);
            assert(text::is_digit(p[p.len() - 1 - q.len()]));
        } else {
            assert(p =~= whole.skip(len - p.len()));
            assert(q =~= (y + q).skip(len - q.len()));
            text::lemma_decimal_injective(m as nat, n as nat);
        }
    }
}

/// An update that is mapped, of whatever connection.
#[verifier::ext_equal]
pub struct MappingV {
    pub update: SessionUpdateV,
    pub profile: AgentProfileV,
    pub now: Timestamp,
}

/// The number that the mapping at `i` finds, where the process maps `run`, one
/// after the other, and its counter was at `start` before.
pub open spec fn seq_at(start: u64, run: Seq<MappingV>, i: int) -> u64
    decreases i,
{
    if i <= 0 {
        start
    } else {
        seq_after(run[i - 1].update, seq_at(start, run, i - 1))
    }
}

/// The events of the mapping at `i`.
pub open spec fn events_at(start: u64, run: Seq<MappingV>, i: int) -> Seq<EventV> {
    update_events(run[i].update, run[i].profile, run[i].now, seq_at(start, run, i))
}

/// How many of the mappings from `i` on, and before `j`, are plans.
pub open spec fn plans_between(run: Seq<MappingV>, i: int, j: int) -> nat
    decreases j - i,
{
    if j <= i {
        0
    } else {
        plans_between(run, i, j - 1) + (if run[j - 1].update is Plan {
            1nat
        } else {
            0nat
        })
    }
}

proof fn lemma_seq_counts_plans(start: u64, run: Seq<MappingV>, i: int, j: int)
    requires
        0 <= i <= j,
        plans_between(run, i, j) <= u64::MAX,
    ensures
        ({
            let sum = seq_at(start, run, i) + plans_between(run, i, j);
            seq_at(start, run, j) == if sum <= u64::MAX {
                sum
            } else {
                sum - u64::MAX - 1
            }
        }),
    decreases j - i,
{
    if i < j {
        lemma_seq_counts_plans(start, run, i, j - 1);
    }
}

proof fn lemma_plan_is_counted(run: Seq<MappingV>, i: int, j: int)
    requires
        i < j,
        run[i].update is Plan,
    ensures
        plans_between(run, i, j) >= 1,
    decreases j - i,
{
    if i < j - 1 {
        lemma_plan_is_counted(run, i, j - 1);
    }
}

/// The events of a plan: a tool call that writes the list of things to do, the
/// plan with one step for each entry, in the order of the entries and under
/// their contents, and the end of that same call, which was no failure.
pub open spec fn tells_plan(
    events: Seq<EventV>,
    entries: Seq<PlanEntryV>,
    tool_id: Seq<char>,
    plan_id: Seq<char>,
) -> bool {
    &&& events.len() == 3
    &&& events[0] matches EventV::ToolCallStarted { tool_call }
    &&& tool_call.id == tool_id
    &&& tool_call.name == "TodoWrite"@
    &&& events[1] matches EventV::PlanUpdated { plan }
    &&& plan.plan_id == plan_id
    &&& plan.steps.len() == entries.len()
    &&& forall|k: int|
        0 <= k < entries.len() ==> (#[trigger] plan.steps[k]).title == entries[k].content
    &&& events[2] matches EventV::ToolCallCompleted { tool_call_id, is_error, .. }
    &&& tool_call_id == tool_id
    &&& !is_error
}

/// No two plans of a process share an id, neither that of the plan nor that of
/// the tool call that stands for it: whichever connections they come from,
/// whatever comes between them, and even within one millisecond. The counter
/// has as many numbers as an `u64`, so that fewer plans than that lie between.
pub proof fn law_plans_of_a_process_differ(start: u64, run: Seq<MappingV>, i: int, j: int)
    requires
        0 <= i < j < run.len(),
        run[i].update is Plan,
        run[j].update is Plan,
        plans_between(run, i, j) <= u64::MAX,
    ensures
        ({
            let (a, b) = (seq_at(start, run, i), seq_at(start, run, j));
            let (s, t) = (run[i].now, run[j].now);
            &&& tells_plan(
                events_at(start, run, i),
                run[i].update->Plan_0,
                synthetic_id("todo-"@, s, a),
                synthetic_id("plan-"@, s, a),
            )
            &&& tells_plan(
                events_at(start, run, j),
                run[j].update->Plan_0,
                synthetic_id("todo-"@, t, b),
                synthetic_id("plan-"@, t, b),
            )
            &&& synthetic_id("todo-"@, s, a) != synthetic_id("todo-"@, t, b)
            &&& synthetic_id("plan-"@, s, a) != synthetic_id("plan-"@, t, b)
        }),
{
    let (a, b) = (seq_at(start, run, i), seq_at(start, run, j));
    lemma_seq_counts_plans(start, run, i, j);
    lemma_plan_is_counted(run, i, j);
    law_synthetic_ids_differ("todo-"@, run[i].now, a, run[j].now, b);
    law_synthetic_ids_differ("plan-"@, run[i].now, a, run[j].now, b);
}

/// Whether the event at `k` is the only end of a tool call among `events`.
pub open spec fn only_end(events: Seq<EventV>, k: int) -> bool {
    &&& 0 <= k < events.len()
    &&& events[k] is ToolCallCompleted
    &&& forall|m: int|
        0 <= m < events.len() && m != k ==> (#[trigger] events[m]) !is ToolCallCompleted
}

/// Whether `events` tell of exactly one end of a tool call, that of `frame`: under
/// its id, as a failure or not, and with what the call has produced.
pub open spec fn tells_end(
    events: Seq<EventV>,
    frame: ToolCallUpdateFrameV,
    failed: bool,
    now: Timestamp,
) -> bool {
    exists|k: int|
        #[trigger] only_end(events, k) && {
            &&& events[k] matches EventV::ToolCallCompleted {
                tool_call_id,
                is_error,
                content,
                output,
                completed_at,
                async_subagent,
            }
            &&& tool_call_id == frame.id
            &&& is_error == failed
            &&& completed_at == now
            &&& async_subagent <==> lifecycle::off_protocol_work(frame.content) == Some(
                OffProtocolWorkKind::AsyncAgent,
            )
            &&& match frame.content {
                Some(produced) => content == produced.text && output == produced.output,
                None => content.len() == 0 && output.len() == 0,
            }
        }
}

proof fn lemma_news_events(
    frame: ToolCallUpdateFrameV,
    profile: AgentProfileV,
    now: Timestamp,
    i: int,
)
    requires
        !keepalive(frame, profile),
        0 <= i < tool_update_events(frame, profile, now).len(),
    ensures
        ({
            let event = tool_update_events(frame, profile, now)[i];
            let last = if changes_card(frame) {
                1int
            } else {
                0
            };
            if changes_card(frame) && i == 0 {
                event == card_change(frame, now)
            } else if ended(frame) && i == last {
                event == completion(frame, now)
            } else if content_text(frame).len() > 0 && i == last {
                event == (EventV::ToolCallContent {
                    tool_call_id: frame.id,
                    content: content_text(frame),
                })
            } else {
                &&& event !is ToolCallCompleted
                &&& event !is ToolCallUpdated
                &&& event !is ToolCallContent
                &&& event !is ToolCallStarted
            }
        }),
{
    lemma_announced_wakeup(frame.title, frame.raw_input, profile, now);
    let background = if profile.supports_wakeup_tools {
        model::with_some(
            Seq::<EventV>::empty(),
            raw_input::background_item_event(frame.payload, now),
        )
    } else {
        Seq::<EventV>::empty()
    };
    assert(metadata_events(frame.payload, profile, now).len() == background.len() + 1);
}

/// The end of a tool call is told once, under the call's id, and as what it was:
/// a call that failed is shown as failed, one that was completed is not. News of a
/// call that has not ended tells of no end.
pub proof fn law_a_call_ends_as_it_did(
    frame: ToolCallUpdateFrameV,
    profile: AgentProfileV,
    now: Timestamp,
)
    requires
        !keepalive(frame, profile),
    ensures
        ({
            let events = tool_update_events(frame, profile, now);
            &&& frame.status == Some(ToolCallStatus::Failed) ==> tells_end(events, frame, true, now)
            &&& frame.status == Some(ToolCallStatus::Completed) ==> tells_end(
                events,
                frame,
                false,
                now,
            )
            &&& frame.status != Some(ToolCallStatus::Failed) && frame.status != Some(
                ToolCallStatus::Completed,
            ) ==> forall|m: int|
                0 <= m < events.len() ==> (#[trigger] events[m]) !is ToolCallCompleted
        }),
{
    let events = tool_update_events(frame, profile, now);
    assert forall|m: int|
        0 <= m < events.len() && (#[trigger] events[m]) is ToolCallCompleted implies ended(frame)
        && m == if changes_card(frame) {
        1int
    } else {
        0
    } by {
        lemma_news_events(frame, profile, now, m);
    }
    if ended(frame) {
        let k = if changes_card(frame) {
            1int
        } else {
            0
        };
        lemma_news_events(frame, profile, now, k);
        assert(only_end(events, k));
    }
}

/// What news of a tool call changes is told first, and once: the title, the
/// arguments and the changes to files that it carries, and nothing that it does
/// not carry. A call that now runs starts now.
pub proof fn law_news_changes_what_it_carries(
    frame: ToolCallUpdateFrameV,
    profile: AgentProfileV,
    now: Timestamp,
)
    requires
        !keepalive(frame, profile),
    ensures
        ({
            let events = tool_update_events(frame, profile, now);
            let runs = frame.status == Some(ToolCallStatus::InProgress);
            let args = frame.raw_input is Some && frame.raw_input->0.value !is Null;
            let files = frame.content is Some && frame.content->0.diffs.len() > 0;
            let news = frame.title is Some || args || runs || files || frame.meta_diffs is Some;
            &&& forall|m: int| 0 < m < events.len() ==> (#[trigger] events[m]) !is ToolCallUpdated
            &&& !news ==> events[0] !is ToolCallUpdated
            &&& news ==> {
                &&& events[0] matches EventV::ToolCallUpdated {
                    tool_call_id,
                    title,
                    args_preview,
                    started_at,
                    diffs,
                }
                &&& tool_call_id == frame.id
                &&& title == frame.title
                &&& args_preview == if args {
                    Some(frame.raw_input->0.preview)
                } else {
                    None
                }
                &&& started_at == if runs {
                    Some(now)
                } else {
                    None
                }
                &&& diffs == if files {
                    Some(frame.content->0.diffs)
                } else {
                    frame.meta_diffs
                }
            }
        }),
{
    let events = tool_update_events(frame, profile, now);
    assert(events.len() > 0);
    assert forall|m: int| 0 < m < events.len() implies (#[trigger] events[m]) !is ToolCallUpdated by {
        lemma_news_events(frame, profile, now, m);
    }
    lemma_news_events(frame, profile, now, 0);
}

/// What a call that goes on has produced is told as it is; the text of a call
/// that has ended comes with its end, and not twice.
pub proof fn law_what_a_call_produces_is_told(
    frame: ToolCallUpdateFrameV,
    profile: AgentProfileV,
    now: Timestamp,
)
    requires
        !keepalive(frame, profile),
    ensures
        ({
            let events = tool_update_events(frame, profile, now);
            let over = frame.status == Some(ToolCallStatus::Failed) || frame.status == Some(
                ToolCallStatus::Completed,
            );
            let text = if frame.content is Some {
                frame.content->0.text
            } else {
                Seq::empty()
            };
            let told = EventV::ToolCallContent { tool_call_id: frame.id, content: text };
            &&& events.contains(told) <==> !over && text.len() > 0
            &&& forall|m: int|
                0 <= m < events.len() ==> ((#[trigger] events[m]) is ToolCallContent ==> events[m]
                    == told)
        }),
{
    let events = tool_update_events(frame, profile, now);
    let k = if changes_card(frame) {
        1int
    } else {
        0
    };
    assert forall|m: int|
        0 <= m < events.len() && (#[trigger] events[m]) is ToolCallContent implies events[m] == (
    EventV::ToolCallContent { tool_call_id: frame.id, content: content_text(frame) }) && !ended(
        frame,
    ) && content_text(frame).len() > 0 by {
        lemma_news_events(frame, profile, now, m);
    }
    if !ended(frame) && content_text(frame).len() > 0 {
        lemma_news_events(frame, profile, now, k);
        assert(events[k] == (EventV::ToolCallContent {
            tool_call_id: frame.id,
            content: content_text(frame),
        }));
    }
}

/// Keepalives are told by their id alone, and only of an agent that sends them:
/// an id that ends in `-heartbeat-` and a number, and no other.
pub proof fn law_keepalives_are_known_by_their_id(
    prefix: Seq<char>,
    n: nat,
    frame: ToolCallUpdateFrameV,
    profile: AgentProfileV,
    now: Timestamp,
)
    ensures
        heartbeat_id(prefix + "-heartbeat-"@ + text::decimal(n)),
        frame.id.len() == 0 || !text::is_digit(frame.id.last()) ==> !keepalive(frame, profile),
        !profile.emits_heartbeat_keepalives ==> !keepalive(frame, profile),
        !text::has_text(frame.id, "-heartbeat-"@) ==> !keepalive(frame, profile),
{
    let id = prefix + "-heartbeat-"@ + text::decimal(n);
    let at = prefix.len() as int;
    text::lemma_decimal_digits(n);
    assert(id.subrange(at, at + "-heartbeat-"@.len()) =~= "-heartbeat-"@);
    assert(id.skip(at + "-heartbeat-"@.len()) =~= text::decimal(n));
    assert(heartbeat_suffix(id, at));
    if heartbeat_id(frame.id) {
        let at = choose|at: int| heartbeat_suffix(frame.id, at);
        let rest = frame.id.skip(at + "-heartbeat-"@.len());
        assert(text::is_digit(rest[rest.len() - 1]));
        assert(rest[rest.len() - 1] == frame.id.last());
    }
}

/// A tool call that is announced is shown as it is, from now on: under its id,
/// its title and its kind, with its arguments and changes to files. What it
/// recalls is shown only of an agent that recalls things.
pub proof fn law_an_announced_call_is_shown(
    frame: ToolCallFrameV,
    profile: AgentProfileV,
    now: Timestamp,
)
    ensures
        ({
            let events = tool_call_events(frame, profile, now);
            &&& events.len() > 0
            &&& events[0] matches EventV::ToolCallStarted { tool_call }
            &&& tool_call.id == frame.id
            &&& tool_call.name == frame.title
            &&& tool_call.kind == frame.kind
            &&& tool_call.args_preview == frame.args_preview
            &&& tool_call.diffs == frame.diffs
            &&& tool_call.started_at == now
            &&& tool_call.memory_recall == if profile.supports_memory_recall {
                frame.memory_recall
            } else {
                None
            }
            &&& frame.meta is None ==> tool_call.parent_tool_call_id is None
            &&& forall|m: int| 0 < m < events.len() ==> (#[trigger] events[m]) !is ToolCallStarted
        }),
{
    lemma_announced_wakeup(Some(frame.title), frame.raw_input, profile, now);
}

/// A call that is announced by a switch of the mode carries its plan along, of an
/// agent that announces plans in this way, and of no other.
pub proof fn law_a_switch_carries_its_plan(
    frame: ToolCallFrameV,
    profile: AgentProfileV,
    now: Timestamp,
    plan: PlanV,
)
    ensures
        tool_call_events(frame, profile, now).contains(EventV::PlanUpdated { plan })
            <==> profile.supports_exit_plan_mode && frame.switches_mode && frame.switch_plan
            == Some(plan),
{
    let events = tool_call_events(frame, profile, now);
    lemma_announced_wakeup(Some(frame.title), frame.raw_input, profile, now);
    if announced_plan(frame, profile) is Some {
        assert(events[1] == announced_plan(frame, profile)->0);
    }
}

/// A wakeup is told of exactly where the call is a `ScheduleWakeup`, of an agent
/// that has such tools, with a delay after which a time can be named: at that
/// time, for the reason that is given.
pub proof fn law_wakeups_are_told(
    frame: ToolCallFrameV,
    profile: AgentProfileV,
    now: Timestamp,
)
    ensures
        ({
            let events = tool_call_events(frame, profile, now);
            let asked = profile.supports_wakeup_tools && frame.title == "ScheduleWakeup"@
                && frame.raw_input is Some && frame.raw_input->0.value.get("delaySeconds"@) is Some
                && frame.raw_input->0.delay_ms is Some && frame.raw_input->0.delay_ms->0 >= 0
                && now.reaches(frame.raw_input->0.delay_ms->0 as int);
            &&& !asked ==> forall|m: int|
                0 <= m < events.len() ==> (#[trigger] events[m]) !is WakeupScheduled
            &&& asked ==> {
                &&& events.last() matches EventV::WakeupScheduled { at, reason }
                &&& at == now.later(frame.raw_input->0.delay_ms->0 as int)
                &&& reason == frame.raw_input->0.value.str_at("reason"@)
            }
        }),
{
    lemma_announced_wakeup(Some(frame.title), frame.raw_input, profile, now);
}

/// What the agent says is shown word for word, first; a compaction that it
/// announces is told after it, and one that has ended empties the plan.
pub proof fn law_what_is_said_is_shown(
    chunk: crate::wire::ContentChunkV,
    profile: AgentProfileV,
    now: Timestamp,
    seq: u64,
)
    ensures
        ({
            let events = update_events(SessionUpdateV::AgentMessageChunk(chunk), profile, now, seq);
            match chunk.content {
                ContentBlockV::Text { text, .. } => {
                    &&& events[0] == (EventV::AgentMessageChunk { text })
                    &&& events.contains(EventV::ConversationCompactionStarted) <==> text::has_text(
                        text,
                        "Compacting..."@,
                    )
                    &&& events.contains(EventV::ConversationCompacted) <==> text::has_text(
                        text,
                        "Compacting completed."@,
                    )
                    &&& text::has_text(text, "Compacting completed."@) ==> {
                        &&& events.last() matches EventV::PlanUpdated { plan }
                        &&& plan.steps.len() == 0
                        &&& plan.plan_id == "plan-"@ + text::signed_decimal(now.total_millis())
                    }
                    &&& !text::has_text(text, "Compacting completed."@) ==> forall|m: int|
                        0 <= m < events.len() ==> (#[trigger] events[m]) !is PlanUpdated
                    &&& events.len() <= 4
                },
                ContentBlockV::Other(payload) => events == seq![EventV::RawAgentUpdate { payload }],
            }
        }),
{
    if let ContentBlockV::Text { text, .. } = chunk.content {
        let events = message_events(text, now);
        if compact_start(text) {
            assert(events[1] == EventV::ConversationCompactionStarted);
        }
        if compact_completion(text) {
            assert(events[events.len() - 2] == EventV::ConversationCompacted);
        }
    }
}

/// What the user said is shown word for word, and what the agent thinks is shown
/// after the news that it thinks, unless it is blank.
pub proof fn law_words_and_thoughts_are_shown(
    chunk: crate::wire::ContentChunkV,
    profile: AgentProfileV,
    now: Timestamp,
    seq: u64,
)
    ensures
        ({
            let said = update_events(SessionUpdateV::UserMessageChunk(chunk), profile, now, seq);
            let thought = update_events(SessionUpdateV::AgentThoughtChunk(chunk), profile, now, seq);
            &&& thought[0] is ThinkingStarted
            &&& match chunk.content {
                ContentBlockV::Text { text, .. } => {
                    &&& said.len() == 1
                    &&& said[0] matches EventV::UserPromptSent {
                        text: told,
                        attachments,
                        prompt_id,
                    }
                    &&& told == text
                    &&& attachments.len() == 0
                    &&& prompt_id is None
                    &&& text::blank(text) ==> thought.len() == 1
                    &&& !text::blank(text) ==> thought.len() == 2 && thought[1]
                        == (EventV::AgentThoughtChunk { text })
                },
                ContentBlockV::Other(payload) => {
                    &&& said == seq![EventV::RawAgentUpdate { payload }]
                    &&& thought.len() == 1
                },
            }
        }),
{
    if let ContentBlockV::Text { text, .. } = chunk.content {
        text::law_trimming_cuts_white_space_only(text);
    }
}

/// The state around a conversation is told as the agent tells it: the mode by its
/// id, the usage in its numbers, the commands in their order, and the options as
/// they can be picked.
pub proof fn law_state_is_told_as_it_is(
    update: SessionUpdateV,
    profile: AgentProfileV,
    now: Timestamp,
    seq: u64,
)
    ensures
        ({
            let events = update_events(update, profile, now, seq);
            match update {
                SessionUpdateV::CurrentModeUpdate(id) => {
                    &&& events.len() == 2
                    &&& events[0] == (EventV::CurrentModeChanged { current_mode_id: id })
                    &&& events[1] is ModeChanged
                },
                SessionUpdateV::UsageUpdate(frame) => {
                    &&& events.len() == 1
                    &&& events[0] matches EventV::UsageUpdated { usage }
                    &&& usage.used == frame.used
                    &&& usage.size == frame.size
                    &&& usage.cost == frame.cost
                },
                SessionUpdateV::AvailableCommandsUpdate(offered) => {
                    &&& events.len() == 1
                    &&& events[0] matches EventV::AvailableCommandsUpdated { commands }
                    &&& commands.len() == offered.len()
                    &&& forall|k: int|
                        0 <= k < offered.len() ==> {
                            &&& (#[trigger] commands[k]).name == offered[k].name
                            &&& commands[k].description == offered[k].description
                            &&& commands[k].accepts_input <==> offered[k].input == Some(
                                CommandInput::Unstructured,
                            )
                        }
                },
                SessionUpdateV::ConfigOptionUpdate(list) => {
                    &&& events.len() == 1
                    &&& events[0] matches EventV::ConfigOptionsUpdated { options }
                    &&& config_options::shows_options(options, list)
                },
                SessionUpdateV::Other(payload) => events == seq![EventV::RawAgentUpdate { payload }],
                SessionUpdateV::SessionInfoUpdate => events.len() == 0,
                _ => true,
            }
        }),
{
    if let SessionUpdateV::ConfigOptionUpdate(list) = update {
        config_options::law_what_is_offered_is_shown(list);
    }
}

/// A mode id stands for the permissions that its agents mean by it, and for no
/// more than the default where it is not known.
pub proof fn law_modes_stand_for_their_permissions(id: Seq<char>)
    ensures
        mode_of(id) is Plan <==> id == "plan"@,
        mode_of(id) is AcceptEdits <==> id == "accept_edits"@ || id == "acceptEdits"@ || id
            == "auto_edit"@ || id == "autoEdit"@,
        mode_of(id) is BypassPermissions <==> id == "bypass_permissions"@ || id
            == "bypassPermissions"@ || id == "yolo"@,
{
    reveal_strlit("plan");
    reveal_strlit("accept_edits");
    reveal_strlit("acceptEdits");
    reveal_strlit("auto_edit");
    reveal_strlit("autoEdit");
    reveal_strlit("bypass_permissions");
    reveal_strlit("bypassPermissions");
    reveal_strlit("yolo");
    if id == "plan"@ {
        assert(id[0] == 'p' && id.len() == 4);
    }
    if id == "yolo"@ {
        assert(id[0] == 'y');
    }
    if id == "bypass_permissions"@ {
        assert(id[0] == 'b');
    }
    if id == "bypassPermissions"@ {
        assert(id[0] == 'b');
    }
    if id == "accept_edits"@ || id == "acceptEdits"@ || id == "auto_edit"@ || id == "autoEdit"@ {
        assert(id[0] == 'a');
    }
}

/// The steps of a plan have the entries' statuses, and ids that count them.
pub proof fn law_steps_keep_their_status(entries: Seq<PlanEntryV>, i: int)
    requires
        0 <= i < entries.len(),
    ensures
        plan_steps(entries)[i].status == entries[i].status,
        plan_steps(entries)[i].title == entries[i].content,
        plan_steps(entries)[i].detail is None,
        plan_steps(entries)[i].id == "step-"@ + text::decimal(i as nat),
{
}

/// The tool call that stands for a plan shows its entries as its arguments, and starts
/// and ends when the plan comes; it has no parent, changes no files and produces nothing.
pub proof fn law_a_plan_is_shown_by_its_call(entries: Seq<PlanEntryV>, now: Timestamp, seq: u64)
    ensures
        ({
            let events = plan_events(entries, now, seq);
            &&& events[0] matches EventV::ToolCallStarted { tool_call }
            &&& tool_call.kind == "think"@
            &&& tool_call.args_preview == plan_args(entries)
            &&& tool_call.started_at == now
            &&& tool_call.parent_tool_call_id is None && tool_call.memory_recall is None
            &&& tool_call.diffs.len() == 0
            &&& events[1] matches EventV::PlanUpdated { plan }
            &&& plan.version == 1
            &&& events[2] matches EventV::ToolCallCompleted {
                completed_at,
                content,
                output,
                async_subagent,
                ..
            }
            &&& completed_at == now
            &&& content.len() == 0 && output.len() == 0
            &&& !async_subagent
        }),
{
}

/// The list of things to do names each entry, in order, with its content and the
/// text of its status: a list that is longer by one entry is the same list with
/// this entry behind it.
pub proof fn law_the_list_names_every_entry(entries: Seq<PlanEntryV>, entry: PlanEntryV)
    ensures
        ({
            let named = "{\"content\":"@ + json_literal_of(entry.content) + ",\"status\":"@
                + json_literal_of(entry.status_text) + "}"@;
            let literal = |text: Seq<char>| json_literal_of(text);
            &&& plan_args(entries) == "{\"todos\":["@ + todos_text(entries, literal) + "]}"@
            &&& todos_text(entries.push(entry), literal) == if entries.len() == 0 {
                named
            } else {
                todos_text(entries, literal) + ","@ + named
            }
            &&& todos_text(Seq::empty(), literal).len() == 0
        }),
{
    assert(entries.push(entry).drop_last() =~= entries);
}

/// The pieces of one message make up the block that its copy is held against:
/// each piece is put behind those before it. Anything that is not the agent's text
/// closes the block.
pub proof fn law_pieces_make_up_a_block(
    block: Option<AgentTextBlockV>,
    chunk: crate::wire::ContentChunkV,
    piece: Seq<char>,
    other: SessionUpdateV,
)
    requires
        chunk.content matches ContentBlockV::Text { text, .. } && text == piece,
        piece.len() > 0,
        other !is AgentMessageChunk,
    ensures
        ({
            let (after, dropped) = dedup_step(block, SessionUpdateV::AgentMessageChunk(chunk));
            &&& !dropped ==> {
                &&& after matches Some(open)
                &&& open.id == chunk.message_id
                &&& open.text == if block is Some && block->0.id == chunk.message_id {
                    block->0.text + piece
                } else {
                    piece
                }
            }
            &&& dropped <==> block is Some && block->0.id != chunk.message_id && block->0.text
                == piece
            &&& dedup_step(block, other) == (None::<AgentTextBlockV>, false)
        }),
{
}

/// News that carries nothing but metadata is not lost: a sub-agent that it starts is
/// told, and else the frame itself passes through; background work that it reports
/// is told ahead of that, of an agent that has such tools.
pub proof fn law_metadata_is_not_lost(
    frame: ToolCallUpdateFrameV,
    profile: AgentProfileV,
    now: Timestamp,
)
    requires
        !keepalive(frame, profile),
        metadata_only(frame),
    ensures
        ({
            let events = tool_update_events(frame, profile, now);
            let launched = raw_input::background_agent_launched(frame.payload, now);
            let work = raw_input::background_item_event(frame.payload, now);
            let told = profile.supports_wakeup_tools && work is Some;
            let at = if told {
                1int
            } else {
                0
            };
            &&& events.len() == at + 1
            &&& told ==> events[0] == work->0
            &&& launched is Some ==> events[at] == launched->0
            &&& launched is None ==> events[at] == (EventV::RawAgentUpdate {
                payload: frame.payload,
            })
        }),
{
    lemma_announced_wakeup(frame.title, frame.raw_input, profile, now);
}

/// News of a tool call tells of a wakeup last, exactly where the call is a
/// `ScheduleWakeup` that asks for a time, of an agent that has such tools.
pub proof fn law_news_tells_of_wakeups(
    frame: ToolCallUpdateFrameV,
    profile: AgentProfileV,
    now: Timestamp,
)
    requires
        !keepalive(frame, profile),
    ensures
        ({
            let events = tool_update_events(frame, profile, now);
            let asks = profile.supports_wakeup_tools && frame.title == Some("ScheduleWakeup"@)
                && frame.raw_input is Some && raw_input::wakeup_event(
                frame.raw_input->0,
                now,
            ) is Some;
            events.last() is WakeupScheduled <==> asks
        }),
        tool_update_events(frame, profile, now).last() is WakeupScheduled ==> tool_update_events(
            frame,
            profile,
            now,
        ).last() == raw_input::wakeup_event(frame.raw_input->0, now)->0,
{
    lemma_announced_wakeup(frame.title, frame.raw_input, profile, now);
}

}
