//! What an agent sends, as far as the client reads it.

use crate::event::{
    DiffPreview, DiffPreviewV, ModeInfo, ModeInfoV, Plan, PlanStepStatus, PlanV, UsageCost,
    UsageCostV,
};
use crate::json;
use crate::json::{Json, JsonV};
use crate::model;
use crate::model::Duplicate;
use vstd::prelude::*;

verus! {

/// A piece of content: text, or the JSON form of anything else.
#[derive(Debug, PartialEq, Eq)]
pub enum ContentBlock {
    Text { text: String, annotations: Option<Json>, meta: Option<Json> },
    Other(Json),
}

/// The model of [`ContentBlock`].
#[verifier::ext_equal]
pub enum ContentBlockV {
    Text { text: Seq<char>, annotations: Option<JsonV>, meta: Option<JsonV> },
    Other(JsonV),
}

impl DeepView for ContentBlock {
    type V = ContentBlockV;

    open spec fn deep_view(&self) -> ContentBlockV {
        match self {
            ContentBlock::Text { text, annotations, meta } => {
                ContentBlockV::Text {
                    text: text.deep_view(),
                    annotations: annotations.deep_view(),
                    meta: meta.deep_view(),
                }
            },
            ContentBlock::Other(value) => ContentBlockV::Other(value.deep_view()),
        }
    }
}

impl Duplicate for ContentBlock {
    fn duplicate(&self) -> (r: Self) {
        match self {
            ContentBlock::Text { text, annotations, meta } => {
                ContentBlock::Text {
                    text: text.duplicate(),
                    annotations: annotations.duplicate(),
                    meta: meta.duplicate(),
                }
            },
            ContentBlock::Other(value) => ContentBlock::Other(value.duplicate()),
        }
    }
}

/// A piece of content that belongs to a message.
#[derive(Debug, PartialEq, Eq)]
pub struct ContentChunk {
    pub content: ContentBlock,
    pub message_id: Option<String>,
}

/// The model of [`ContentChunk`].
#[verifier::ext_equal]
pub struct ContentChunkV {
    pub content: ContentBlockV,
    pub message_id: Option<Seq<char>>,
}

impl DeepView for ContentChunk {
    type V = ContentChunkV;

    open spec fn deep_view(&self) -> ContentChunkV {
        ContentChunkV {
            content: self.content.deep_view(),
            message_id: self.message_id.deep_view(),
        }
    }
}

impl Duplicate for ContentChunk {
    fn duplicate(&self) -> (r: Self) {
        ContentChunk {
            content: self.content.duplicate(),
            message_id: self.message_id.duplicate(),
        }
    }
}

/// How far a tool call has come.
#[derive(Debug, Clone, Copy, PartialEq, Eq, Structural)]
pub enum ToolCallStatus {
    Pending,
    InProgress,
    Completed,
    Failed,
    Unknown,
}

impl DeepView for ToolCallStatus {
    type V = ToolCallStatus;

    open spec fn deep_view(&self) -> ToolCallStatus {
        *self
    }
}

impl Duplicate for ToolCallStatus {
    fn duplicate(&self) -> (r: Self) {
        *self
    }
}

/// One block of what a tool call has produced.
#[derive(Debug, PartialEq, Eq)]
pub enum ToolContentBlock {
    Text(String),
    Other,
}

/// The model of [`ToolContentBlock`].
#[verifier::ext_equal]
pub enum ToolContentBlockV {
    Text(Seq<char>),
    Other,
}

impl DeepView for ToolContentBlock {
    type V = ToolContentBlockV;

    open spec fn deep_view(&self) -> ToolContentBlockV {
        match self {
            ToolContentBlock::Text(value) => ToolContentBlockV::Text(value.deep_view()),
            ToolContentBlock::Other => ToolContentBlockV::Other,
        }
    }
}

impl Duplicate for ToolContentBlock {
    fn duplicate(&self) -> (r: Self) {
        match self {
            ToolContentBlock::Text(value) => ToolContentBlock::Text(value.duplicate()),
            ToolContentBlock::Other => ToolContentBlock::Other,
        }
    }
}

/// What a tool call has produced: its blocks, their text, the changes to
/// files among them, and the blocks in the form in which they are stored.
#[derive(Debug, PartialEq, Eq)]
pub struct ToolContent {
    pub blocks: Vec<ToolContentBlock>,
    pub text: String,
    pub diffs: Vec<DiffPreview>,
    pub output: Vec<Json>,
}

/// The model of [`ToolContent`].
#[verifier::ext_equal]
pub struct ToolContentV {
    pub blocks: Seq<ToolContentBlockV>,
    pub text: Seq<char>,
    pub diffs: Seq<DiffPreviewV>,
    pub output: Seq<JsonV>,
}

impl DeepView for ToolContent {
    type V = ToolContentV;

    open spec fn deep_view(&self) -> ToolContentV {
        ToolContentV {
            blocks: self.blocks.deep_view(),
            text: self.text.deep_view(),
            diffs: self.diffs.deep_view(),
            output: self.output.deep_view(),
        }
    }
}

impl Duplicate for ToolContent {
    fn duplicate(&self) -> (r: Self) {
        ToolContent {
            blocks: self.blocks.duplicate(),
            text: self.text.duplicate(),
            diffs: self.diffs.duplicate(),
            output: self.output.duplicate(),
        }
    }
}

/// The arguments of a tool call, a preview of them, and the number of
/// milliseconds that their `delaySeconds` stands for where it is a number
/// that is neither negative nor infinite.
#[derive(Debug, PartialEq, Eq)]
pub struct RawInput {
    pub value: Json,
    pub preview: String,
    pub delay_ms: Option<i64>,
}

/// The model of [`RawInput`].
#[verifier::ext_equal]
pub struct RawInputV {
    pub value: JsonV,
    pub preview: Seq<char>,
    pub delay_ms: Option<i64>,
}

impl DeepView for RawInput {
    type V = RawInputV;

    open spec fn deep_view(&self) -> RawInputV {
        RawInputV {
            value: self.value.deep_view(),
            preview: self.preview.deep_view(),
            delay_ms: self.delay_ms.deep_view(),
        }
    }
}

impl Duplicate for RawInput {
    fn duplicate(&self) -> (r: Self) {
        RawInput {
            value: self.value.duplicate(),
            preview: self.preview.duplicate(),
            delay_ms: self.delay_ms.duplicate(),
        }
    }
}

/// The announcement of a tool call.
#[derive(Debug, PartialEq, Eq)]
pub struct ToolCallFrame {
    pub id: String,
    pub title: String,
    pub kind: String,
    /// Whether the tool switches the session's mode.
    pub switches_mode: bool,
    pub raw_input: Option<RawInput>,
    pub args_preview: String,
    pub diffs: Vec<DiffPreview>,
    pub memory_recall: Option<Json>,
    pub meta: Option<Json>,
    /// The plan that the arguments of a mode switch carry.
    pub switch_plan: Option<Plan>,
}

/// The model of [`ToolCallFrame`].
#[verifier::ext_equal]
pub struct ToolCallFrameV {
    pub id: Seq<char>,
    pub title: Seq<char>,
    pub kind: Seq<char>,
    pub switches_mode: bool,
    pub raw_input: Option<RawInputV>,
    pub args_preview: Seq<char>,
    pub diffs: Seq<DiffPreviewV>,
    pub memory_recall: Option<JsonV>,
    pub meta: Option<JsonV>,
    pub switch_plan: Option<PlanV>,
}

impl DeepView for ToolCallFrame {
    type V = ToolCallFrameV;

    open spec fn deep_view(&self) -> ToolCallFrameV {
        ToolCallFrameV {
            id: self.id.deep_view(),
            title: self.title.deep_view(),
            kind: self.kind.deep_view(),
            switches_mode: self.switches_mode.deep_view(),
            raw_input: self.raw_input.deep_view(),
            args_preview: self.args_preview.deep_view(),
            diffs: self.diffs.deep_view(),
            memory_recall: self.memory_recall.deep_view(),
            meta: self.meta.deep_view(),
            switch_plan: self.switch_plan.deep_view(),
        }
    }
}

impl Duplicate for ToolCallFrame {
    fn duplicate(&self) -> (r: Self) {
        ToolCallFrame {
            id: self.id.duplicate(),
            title: self.title.duplicate(),
            kind: self.kind.duplicate(),
            switches_mode: self.switches_mode.duplicate(),
            raw_input: self.raw_input.duplicate(),
            args_preview: self.args_preview.duplicate(),
            diffs: self.diffs.duplicate(),
            memory_recall: self.memory_recall.duplicate(),
            meta: self.meta.duplicate(),
            switch_plan: self.switch_plan.duplicate(),
        }
    }
}

/// News of a tool call that was announced before.
#[derive(Debug, PartialEq, Eq)]
pub struct ToolCallUpdateFrame {
    pub id: String,
    pub status: Option<ToolCallStatus>,
    pub title: Option<String>,
    pub raw_input: Option<RawInput>,
    pub content: Option<ToolContent>,
    /// The changes to files that the metadata carries.
    pub meta_diffs: Option<Vec<DiffPreview>>,
    /// The whole frame as JSON.
    pub payload: Json,
}

/// The model of [`ToolCallUpdateFrame`].
#[verifier::ext_equal]
pub struct ToolCallUpdateFrameV {
    pub id: Seq<char>,
    pub status: Option<ToolCallStatus>,
    pub title: Option<Seq<char>>,
    pub raw_input: Option<RawInputV>,
    pub content: Option<ToolContentV>,
    pub meta_diffs: Option<Seq<DiffPreviewV>>,
    pub payload: JsonV,
}

impl DeepView for ToolCallUpdateFrame {
    type V = ToolCallUpdateFrameV;

    open spec fn deep_view(&self) -> ToolCallUpdateFrameV {
        ToolCallUpdateFrameV {
            id: self.id.deep_view(),
            status: self.status.deep_view(),
            title: self.title.deep_view(),
            raw_input: self.raw_input.deep_view(),
            content: self.content.deep_view(),
            meta_diffs: self.meta_diffs.deep_view(),
            payload: self.payload.deep_view(),
        }
    }
}

impl Duplicate for ToolCallUpdateFrame {
    fn duplicate(&self) -> (r: Self) {
        ToolCallUpdateFrame {
            id: self.id.duplicate(),
            status: self.status.duplicate(),
            title: self.title.duplicate(),
            raw_input: self.raw_input.duplicate(),
            content: self.content.duplicate(),
            meta_diffs: self.meta_diffs.duplicate(),
            payload: self.payload.duplicate(),
        }
    }
}

/// One entry of a plan, with its status as it is written to JSON.
#[derive(Debug, PartialEq, Eq)]
pub struct PlanEntry {
    pub content: String,
    pub status: PlanStepStatus,
    pub status_text: String,
}

/// The model of [`PlanEntry`].
#[verifier::ext_equal]
pub struct PlanEntryV {
    pub content: Seq<char>,
    pub status: PlanStepStatus,
    pub status_text: Seq<char>,
}

impl DeepView for PlanEntry {
    type V = PlanEntryV;

    open spec fn deep_view(&self) -> PlanEntryV {
        PlanEntryV {
            content: self.content.deep_view(),
            status: self.status.deep_view(),
            status_text: self.status_text.deep_view(),
        }
    }
}

impl Duplicate for PlanEntry {
    fn duplicate(&self) -> (r: Self) {
        PlanEntry {
            content: self.content.duplicate(),
            status: self.status.duplicate(),
            status_text: self.status_text.duplicate(),
        }
    }
}

/// The form of a command's input.
#[derive(Debug, Clone, Copy, PartialEq, Eq, Structural)]
pub enum CommandInput {
    Unstructured,
    Unknown,
}

impl DeepView for CommandInput {
    type V = CommandInput;

    open spec fn deep_view(&self) -> CommandInput {
        *self
    }
}

impl Duplicate for CommandInput {
    fn duplicate(&self) -> (r: Self) {
        *self
    }
}

/// A command as the agent announces it.
#[derive(Debug, PartialEq, Eq)]
pub struct CommandSpec {
    pub name: String,
    pub description: String,
    pub input: Option<CommandInput>,
}

/// The model of [`CommandSpec`].
#[verifier::ext_equal]
pub struct CommandSpecV {
    pub name: Seq<char>,
    pub description: Seq<char>,
    pub input: Option<CommandInput>,
}

impl DeepView for CommandSpec {
    type V = CommandSpecV;

    open spec fn deep_view(&self) -> CommandSpecV {
        CommandSpecV {
            name: self.name.deep_view(),
            description: self.description.deep_view(),
            input: self.input.deep_view(),
        }
    }
}

impl Duplicate for CommandSpec {
    fn duplicate(&self) -> (r: Self) {
        CommandSpec {
            name: self.name.duplicate(),
            description: self.description.duplicate(),
            input: self.input.duplicate(),
        }
    }
}

/// What a config option is about, as the agent names it.
#[derive(Debug, PartialEq, Eq)]
pub enum ConfigCategory {
    Mode,
    Model,
    ThoughtLevel,
    ModelConfig,
    Other(String),
    Unknown,
}

/// The model of [`ConfigCategory`].
#[verifier::ext_equal]
pub enum ConfigCategoryV {
    Mode,
    Model,
    ThoughtLevel,
    ModelConfig,
    Other(Seq<char>),
    Unknown,
}

impl DeepView for ConfigCategory {
    type V = ConfigCategoryV;

    open spec fn deep_view(&self) -> ConfigCategoryV {
        match self {
            ConfigCategory::Mode => ConfigCategoryV::Mode,
            ConfigCategory::Model => ConfigCategoryV::Model,
            ConfigCategory::ThoughtLevel => ConfigCategoryV::ThoughtLevel,
            ConfigCategory::ModelConfig => ConfigCategoryV::ModelConfig,
            ConfigCategory::Other(value) => ConfigCategoryV::Other(value.deep_view()),
            ConfigCategory::Unknown => ConfigCategoryV::Unknown,
        }
    }
}

impl Duplicate for ConfigCategory {
    fn duplicate(&self) -> (r: Self) {
        match self {
            ConfigCategory::Mode => ConfigCategory::Mode,
            ConfigCategory::Model => ConfigCategory::Model,
            ConfigCategory::ThoughtLevel => ConfigCategory::ThoughtLevel,
            ConfigCategory::ModelConfig => ConfigCategory::ModelConfig,
            ConfigCategory::Other(value) => ConfigCategory::Other(value.duplicate()),
            ConfigCategory::Unknown => ConfigCategory::Unknown,
        }
    }
}

/// One value that a select option can take.
#[derive(Debug, PartialEq, Eq)]
pub struct SelectOption {
    pub value: String,
    pub name: String,
    pub description: Option<String>,
}

/// The model of [`SelectOption`].
#[verifier::ext_equal]
pub struct SelectOptionV {
    pub value: Seq<char>,
    pub name: Seq<char>,
    pub description: Option<Seq<char>>,
}

impl DeepView for SelectOption {
    type V = SelectOptionV;

    open spec fn deep_view(&self) -> SelectOptionV {
        SelectOptionV {
            value: self.value.deep_view(),
            name: self.name.deep_view(),
            description: self.description.deep_view(),
        }
    }
}

impl Duplicate for SelectOption {
    fn duplicate(&self) -> (r: Self) {
        SelectOption {
            value: self.value.duplicate(),
            name: self.name.duplicate(),
            description: self.description.duplicate(),
        }
    }
}

/// The values of a select option, in groups or not.
#[derive(Debug, PartialEq, Eq)]
pub enum SelectOptions {
    Ungrouped(Vec<SelectOption>),
    Grouped(Vec<Vec<SelectOption>>),
    Unknown,
}

/// The model of [`SelectOptions`].
#[verifier::ext_equal]
pub enum SelectOptionsV {
    Ungrouped(Seq<SelectOptionV>),
    Grouped(Seq<Seq<SelectOptionV>>),
    Unknown,
}

impl DeepView for SelectOptions {
    type V = SelectOptionsV;

    open spec fn deep_view(&self) -> SelectOptionsV {
        match self {
            SelectOptions::Ungrouped(value) => SelectOptionsV::Ungrouped(value.deep_view()),
            SelectOptions::Grouped(value) => SelectOptionsV::Grouped(value.deep_view()),
            SelectOptions::Unknown => SelectOptionsV::Unknown,
        }
    }
}

impl Duplicate for SelectOptions {
    fn duplicate(&self) -> (r: Self) {
        match self {
            SelectOptions::Ungrouped(value) => SelectOptions::Ungrouped(value.duplicate()),
            SelectOptions::Grouped(value) => SelectOptions::Grouped(value.duplicate()),
            SelectOptions::Unknown => SelectOptions::Unknown,
        }
    }
}

/// The kind of a config option.
#[derive(Debug, PartialEq, Eq)]
pub enum ConfigKind {
    Select { current_value: String, options: SelectOptions },
    Unknown,
}

/// The model of [`ConfigKind`].
#[verifier::ext_equal]
pub enum ConfigKindV {
    Select { current_value: Seq<char>, options: SelectOptionsV },
    Unknown,
}

impl DeepView for ConfigKind {
    type V = ConfigKindV;

    open spec fn deep_view(&self) -> ConfigKindV {
        match self {
            ConfigKind::Select { current_value, options } => {
                ConfigKindV::Select {
                    current_value: current_value.deep_view(),
                    options: options.deep_view(),
                }
            },
            ConfigKind::Unknown => ConfigKindV::Unknown,
        }
    }
}

impl Duplicate for ConfigKind {
    fn duplicate(&self) -> (r: Self) {
        match self {
            ConfigKind::Select { current_value, options } => {
                ConfigKind::Select {
                    current_value: current_value.duplicate(),
                    options: options.duplicate(),
                }
            },
            ConfigKind::Unknown => ConfigKind::Unknown,
        }
    }
}

/// A config option as the agent announces it.
#[derive(Debug, PartialEq, Eq)]
pub struct ConfigOption {
    pub id: String,
    pub name: String,
    pub description: Option<String>,
    pub category: Option<ConfigCategory>,
    pub kind: ConfigKind,
}

/// The model of [`ConfigOption`].
#[verifier::ext_equal]
pub struct ConfigOptionV {
    pub id: Seq<char>,
    pub name: Seq<char>,
    pub description: Option<Seq<char>>,
    pub category: Option<ConfigCategoryV>,
    pub kind: ConfigKindV,
}

impl DeepView for ConfigOption {
    type V = ConfigOptionV;

    open spec fn deep_view(&self) -> ConfigOptionV {
        ConfigOptionV {
            id: self.id.deep_view(),
            name: self.name.deep_view(),
            description: self.description.deep_view(),
            category: self.category.deep_view(),
            kind: self.kind.deep_view(),
        }
    }
}

impl Duplicate for ConfigOption {
    fn duplicate(&self) -> (r: Self) {
        ConfigOption {
            id: self.id.duplicate(),
            name: self.name.duplicate(),
            description: self.description.duplicate(),
            category: self.category.duplicate(),
            kind: self.kind.duplicate(),
        }
    }
}

/// What a session has used so far.
#[derive(Debug, PartialEq, Eq)]
pub struct UsageFrame {
    pub used: u64,
    pub size: u64,
    pub cost: Option<UsageCost>,
    pub meta: Option<Json>,
}

/// The model of [`UsageFrame`].
#[verifier::ext_equal]
pub struct UsageFrameV {
    pub used: u64,
    pub size: u64,
    pub cost: Option<UsageCostV>,
    pub meta: Option<JsonV>,
}

impl DeepView for UsageFrame {
    type V = UsageFrameV;

    open spec fn deep_view(&self) -> UsageFrameV {
        UsageFrameV {
            used: self.used.deep_view(),
            size: self.size.deep_view(),
            cost: self.cost.deep_view(),
            meta: self.meta.deep_view(),
        }
    }
}

impl Duplicate for UsageFrame {
    fn duplicate(&self) -> (r: Self) {
        UsageFrame {
            used: self.used.duplicate(),
            size: self.size.duplicate(),
            cost: self.cost.duplicate(),
            meta: self.meta.duplicate(),
        }
    }
}

/// The modes that a session offers.
#[derive(Debug, PartialEq, Eq)]
pub struct SessionModes {
    pub current_mode_id: String,
    pub available_modes: Vec<ModeInfo>,
}

/// The model of [`SessionModes`].
#[verifier::ext_equal]
pub struct SessionModesV {
    pub current_mode_id: Seq<char>,
    pub available_modes: Seq<ModeInfoV>,
}

impl DeepView for SessionModes {
    type V = SessionModesV;

    open spec fn deep_view(&self) -> SessionModesV {
        SessionModesV {
            current_mode_id: self.current_mode_id.deep_view(),
            available_modes: self.available_modes.deep_view(),
        }
    }
}

impl Duplicate for SessionModes {
    fn duplicate(&self) -> (r: Self) {
        SessionModes {
            current_mode_id: self.current_mode_id.duplicate(),
            available_modes: self.available_modes.duplicate(),
        }
    }
}

/// One update of a session, as the agent sends it.
#[derive(Debug, PartialEq, Eq)]
pub enum SessionUpdate {
    AgentMessageChunk(ContentChunk),
    UserMessageChunk(ContentChunk),
    AgentThoughtChunk(ContentChunk),
    ToolCall(ToolCallFrame),
    ToolCallUpdate(ToolCallUpdateFrame),
    Plan(Vec<PlanEntry>),
    CurrentModeUpdate(String),
    UsageUpdate(UsageFrame),
    AvailableCommandsUpdate(Vec<CommandSpec>),
    ConfigOptionUpdate(Vec<ConfigOption>),
    SessionInfoUpdate,
    Other(Json),
}

/// The model of [`SessionUpdate`].
#[verifier::ext_equal]
pub enum SessionUpdateV {
    AgentMessageChunk(ContentChunkV),
    UserMessageChunk(ContentChunkV),
    AgentThoughtChunk(ContentChunkV),
    ToolCall(ToolCallFrameV),
    ToolCallUpdate(ToolCallUpdateFrameV),
    Plan(Seq<PlanEntryV>),
    CurrentModeUpdate(Seq<char>),
    UsageUpdate(UsageFrameV),
    AvailableCommandsUpdate(Seq<CommandSpecV>),
    ConfigOptionUpdate(Seq<ConfigOptionV>),
    SessionInfoUpdate,
    Other(JsonV),
}

impl DeepView for SessionUpdate {
    type V = SessionUpdateV;

    open spec fn deep_view(&self) -> SessionUpdateV {
        match self {
            SessionUpdate::AgentMessageChunk(value) => SessionUpdateV::AgentMessageChunk(value.deep_view()),
            SessionUpdate::UserMessageChunk(value) => SessionUpdateV::UserMessageChunk(value.deep_view()),
            SessionUpdate::AgentThoughtChunk(value) => SessionUpdateV::AgentThoughtChunk(value.deep_view()),
            SessionUpdate::ToolCall(value) => SessionUpdateV::ToolCall(value.deep_view()),
            SessionUpdate::ToolCallUpdate(value) => SessionUpdateV::ToolCallUpdate(value.deep_view()),
            SessionUpdate::Plan(value) => SessionUpdateV::Plan(value.deep_view()),
            SessionUpdate::CurrentModeUpdate(value) => SessionUpdateV::CurrentModeUpdate(value.deep_view()),
            SessionUpdate::UsageUpdate(value) => SessionUpdateV::UsageUpdate(value.deep_view()),
            SessionUpdate::AvailableCommandsUpdate(value) => SessionUpdateV::AvailableCommandsUpdate(value.deep_view()),
            SessionUpdate::ConfigOptionUpdate(value) => SessionUpdateV::ConfigOptionUpdate(value.deep_view()),
            SessionUpdate::SessionInfoUpdate => SessionUpdateV::SessionInfoUpdate,
            SessionUpdate::Other(value) => SessionUpdateV::Other(value.deep_view()),
        }
    }
}

impl Duplicate for SessionUpdate {
    fn duplicate(&self) -> (r: Self) {
        match self {
            SessionUpdate::AgentMessageChunk(value) => SessionUpdate::AgentMessageChunk(value.duplicate()),
            SessionUpdate::UserMessageChunk(value) => SessionUpdate::UserMessageChunk(value.duplicate()),
            SessionUpdate::AgentThoughtChunk(value) => SessionUpdate::AgentThoughtChunk(value.duplicate()),
            SessionUpdate::ToolCall(value) => SessionUpdate::ToolCall(value.duplicate()),
            SessionUpdate::ToolCallUpdate(value) => SessionUpdate::ToolCallUpdate(value.duplicate()),
            SessionUpdate::Plan(value) => SessionUpdate::Plan(value.duplicate()),
            SessionUpdate::CurrentModeUpdate(value) => SessionUpdate::CurrentModeUpdate(value.duplicate()),
            SessionUpdate::UsageUpdate(value) => SessionUpdate::UsageUpdate(value.duplicate()),
            SessionUpdate::AvailableCommandsUpdate(value) => SessionUpdate::AvailableCommandsUpdate(value.duplicate()),
            SessionUpdate::ConfigOptionUpdate(value) => SessionUpdate::ConfigOptionUpdate(value.duplicate()),
            SessionUpdate::SessionInfoUpdate => SessionUpdate::SessionInfoUpdate,
            SessionUpdate::Other(value) => SessionUpdate::Other(value.duplicate()),
        }
    }
}

/// The JSON form of a piece of content.
pub open spec fn block_json(block: ContentBlockV) -> JsonV {
    match block {
        ContentBlockV::Text { text, annotations, meta } => {
            let kind = seq![("type"@, JsonV::Text("text"@))];
            let annotated = model::with_some(
                kind,
                match annotations {
                    Some(value) => Some(("annotations"@, value)),
                    None => None,
                },
            );
            let told = annotated.push(("text"@, JsonV::Text(text)));
            JsonV::Object(
                model::with_some(
                    told,
                    match meta {
                        Some(value) => Some(("_meta"@, value)),
                        None => None,
                    },
                ),
            )
        },
        ContentBlockV::Other(value) => value,
    }
}

/// The JSON form of `block`.
pub fn block_to_json(block: &ContentBlock) -> (r: Json)
    ensures
        r.deep_view() == block_json(block.deep_view()),
{
    match block {
        ContentBlock::Text { text, annotations, meta } => {
            let mut entries = model::one(("type".to_owned(), Json::Text("text".to_owned())));
            if let Some(value) = annotations {
                model::push(&mut entries, ("annotations".to_owned(), value.duplicate()));
            }
            model::push(&mut entries, ("text".to_owned(), Json::Text(text.clone())));
            if let Some(value) = meta {
                model::push(&mut entries, ("_meta".to_owned(), value.duplicate()));
            }
            json::object(entries)
        },
        ContentBlock::Other(value) => value.duplicate(),
    }
}

/// The JSON form of a list of pieces of content.
pub open spec fn blocks_json(blocks: Seq<ContentBlockV>) -> JsonV {
    JsonV::Array(blocks.map_values(|block: ContentBlockV| block_json(block)))
}

/// The JSON form of `blocks`.
pub fn blocks_to_json(blocks: &Vec<ContentBlock>) -> (r: Json)
    ensures
        r.deep_view() == blocks_json(blocks.deep_view()),
{
    let ghost all = blocks_json(blocks.deep_view())->Array_0;
    let mut items: Vec<Json> = Vec::new();
    let mut i: usize = 0;
    while i < blocks.len()
        invariant
            i <= blocks@.len(),
            all == blocks_json(blocks.deep_view())->Array_0,
            items@.len() == i,
            forall|j: int| 0 <= j < i ==> (#[trigger] items@[j]).deep_view() == all[j],
        decreases blocks@.len() - i,
    {
        let item = block_to_json(&blocks[i]);
        assert(item.deep_view() == all[i as int]);
        items.push(item);
        i = i + 1;
    }
    proof {
        assert(items.deep_view() =~= all);
    }
    json::array(items)
}

/// A text goes out as a text, word for word, with the annotations and metadata
/// that it has; any other piece goes out as it came.
pub proof fn law_pieces_go_out_as_they_are(block: ContentBlockV)
    ensures
        match block {
            ContentBlockV::Text { text, annotations, meta } => {
                let sent = block_json(block);
                &&& sent.get("type"@) == Some(JsonV::Text("text"@))
                &&& sent.get("text"@) == Some(JsonV::Text(text))
                &&& sent.get("annotations"@) == annotations
                &&& sent.get("_meta"@) == meta
            },
            ContentBlockV::Other(value) => block_json(block) == value,
        },
{
    if let ContentBlockV::Text { text, annotations, meta } = block {
        reveal_strlit("type");
        reveal_strlit("text");
        reveal_strlit("annotations");
        reveal_strlit("_meta");
        assert("type"@[1] != "text"@[1]);
        assert("type"@.len() != "annotations"@.len());
        assert("type"@.len() != "_meta"@.len());
        assert("text"@.len() != "annotations"@.len());
        assert("text"@.len() != "_meta"@.len());
        assert("_meta"@.len() != "annotations"@.len());
        let entries = block_json(block)->Object_0;
        let at = if annotations is Some {
            2int
        } else {
            1
        };
        json::law_first_entry_counts(entries, "type"@, 0);
        json::law_first_entry_counts(entries, "text"@, at);
        json::law_first_entry_counts(
            entries,
            "annotations"@,
            if annotations is Some {
                1
            } else {
                entries.len() as int
            },
        );
        json::law_first_entry_counts(entries, "_meta"@, at + 1);
    }
}

/// A list of pieces goes out whole and in its order.
pub proof fn law_lists_go_out_whole(blocks: Seq<ContentBlockV>)
    ensures
        blocks_json(blocks) matches JsonV::Array(sent) && sent.len() == blocks.len() && forall|
            k: int,
        |
            0 <= k < blocks.len() ==> #[trigger] sent[k] == block_json(blocks[k]),
{
}

}
