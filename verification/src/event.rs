//! What a connection publishes: the events of a session and what they carry.

use crate::json::{Json, JsonNumber, JsonV};
use crate::model::Duplicate;
use crate::time::Timestamp;
use vstd::prelude::*;

verus! {

/// A change to a file, as an agent previews it.
#[derive(Debug, PartialEq, Eq)]
pub struct DiffPreview {
    pub path: String,
    pub old_text: Option<String>,
    pub new_text: Option<String>,
}

/// The model of [`DiffPreview`].
#[verifier::ext_equal]
pub struct DiffPreviewV {
    pub path: Seq<char>,
    pub old_text: Option<Seq<char>>,
    pub new_text: Option<Seq<char>>,
}

impl DeepView for DiffPreview {
    type V = DiffPreviewV;

    open spec fn deep_view(&self) -> DiffPreviewV {
        DiffPreviewV {
            path: self.path.deep_view(),
            old_text: self.old_text.deep_view(),
            new_text: self.new_text.deep_view(),
        }
    }
}

impl Duplicate for DiffPreview {
    fn duplicate(&self) -> (r: Self) {
        DiffPreview {
            path: self.path.duplicate(),
            old_text: self.old_text.duplicate(),
            new_text: self.new_text.duplicate(),
        }
    }
}

/// How far a step of a plan has come.
#[derive(Debug, Clone, Copy, PartialEq, Eq, Structural)]
pub enum PlanStepStatus {
    Pending,
    InProgress,
    Completed,
}

impl DeepView for PlanStepStatus {
    type V = PlanStepStatus;

    open spec fn deep_view(&self) -> PlanStepStatus {
        *self
    }
}

impl Duplicate for PlanStepStatus {
    fn duplicate(&self) -> (r: Self) {
        *self
    }
}

/// What a session has cost so far. The amount is given by its bits.
#[derive(Debug, PartialEq, Eq)]
pub struct UsageCost {
    pub amount_bits: u64,
    pub currency: String,
}

/// The model of [`UsageCost`].
#[verifier::ext_equal]
pub struct UsageCostV {
    pub amount_bits: u64,
    pub currency: Seq<char>,
}

impl DeepView for UsageCost {
    type V = UsageCostV;

    open spec fn deep_view(&self) -> UsageCostV {
        UsageCostV {
            amount_bits: self.amount_bits.deep_view(),
            currency: self.currency.deep_view(),
        }
    }
}

impl Duplicate for UsageCost {
    fn duplicate(&self) -> (r: Self) {
        UsageCost {
            amount_bits: self.amount_bits.duplicate(),
            currency: self.currency.duplicate(),
        }
    }
}

/// One step of a plan.
#[derive(Debug, PartialEq, Eq)]
pub struct PlanStep {
    pub id: String,
    pub title: String,
    pub detail: Option<String>,
    pub status: PlanStepStatus,
}

/// The model of [`PlanStep`].
#[verifier::ext_equal]
pub struct PlanStepV {
    pub id: Seq<char>,
    pub title: Seq<char>,
    pub detail: Option<Seq<char>>,
    pub status: PlanStepStatus,
}

impl DeepView for PlanStep {
    type V = PlanStepV;

    open spec fn deep_view(&self) -> PlanStepV {
        PlanStepV {
            id: self.id.deep_view(),
            title: self.title.deep_view(),
            detail: self.detail.deep_view(),
            status: self.status.deep_view(),
        }
    }
}

impl Duplicate for PlanStep {
    fn duplicate(&self) -> (r: Self) {
        PlanStep {
            id: self.id.duplicate(),
            title: self.title.duplicate(),
            detail: self.detail.duplicate(),
            status: self.status.duplicate(),
        }
    }
}

/// A plan that the agent has announced.
#[derive(Debug, PartialEq, Eq)]
pub struct Plan {
    pub plan_id: String,
    pub version: u32,
    pub steps: Vec<PlanStep>,
}

/// The model of [`Plan`].
#[verifier::ext_equal]
pub struct PlanV {
    pub plan_id: Seq<char>,
    pub version: u32,
    pub steps: Seq<PlanStepV>,
}

impl DeepView for Plan {
    type V = PlanV;

    open spec fn deep_view(&self) -> PlanV {
        PlanV {
            plan_id: self.plan_id.deep_view(),
            version: self.version.deep_view(),
            steps: self.steps.deep_view(),
        }
    }
}

impl Duplicate for Plan {
    fn duplicate(&self) -> (r: Self) {
        Plan {
            plan_id: self.plan_id.duplicate(),
            version: self.version.duplicate(),
            steps: self.steps.duplicate(),
        }
    }
}

/// A tool call as it is shown.
#[derive(Debug, PartialEq, Eq)]
pub struct ToolCall {
    pub id: String,
    pub name: String,
    pub kind: String,
    pub args_preview: String,
    pub started_at: Timestamp,
    pub parent_tool_call_id: Option<String>,
    pub memory_recall: Option<Json>,
    pub diffs: Vec<DiffPreview>,
}

/// The model of [`ToolCall`].
#[verifier::ext_equal]
pub struct ToolCallV {
    pub id: Seq<char>,
    pub name: Seq<char>,
    pub kind: Seq<char>,
    pub args_preview: Seq<char>,
    pub started_at: Timestamp,
    pub parent_tool_call_id: Option<Seq<char>>,
    pub memory_recall: Option<JsonV>,
    pub diffs: Seq<DiffPreviewV>,
}

impl DeepView for ToolCall {
    type V = ToolCallV;

    open spec fn deep_view(&self) -> ToolCallV {
        ToolCallV {
            id: self.id.deep_view(),
            name: self.name.deep_view(),
            kind: self.kind.deep_view(),
            args_preview: self.args_preview.deep_view(),
            started_at: self.started_at.deep_view(),
            parent_tool_call_id: self.parent_tool_call_id.deep_view(),
            memory_recall: self.memory_recall.deep_view(),
            diffs: self.diffs.deep_view(),
        }
    }
}

impl Duplicate for ToolCall {
    fn duplicate(&self) -> (r: Self) {
        ToolCall {
            id: self.id.duplicate(),
            name: self.name.duplicate(),
            kind: self.kind.duplicate(),
            args_preview: self.args_preview.duplicate(),
            started_at: self.started_at.duplicate(),
            parent_tool_call_id: self.parent_tool_call_id.duplicate(),
            memory_recall: self.memory_recall.duplicate(),
            diffs: self.diffs.duplicate(),
        }
    }
}

/// The permission modes that the view tells apart.
#[derive(Debug, Clone, Copy, PartialEq, Eq, Structural)]
pub enum SessionMode {
    Default,
    Plan,
    AcceptEdits,
    BypassPermissions,
}

impl DeepView for SessionMode {
    type V = SessionMode;

    open spec fn deep_view(&self) -> SessionMode {
        *self
    }
}

impl Duplicate for SessionMode {
    fn duplicate(&self) -> (r: Self) {
        *self
    }
}

/// How much of the context window is used, and at what cost.
#[derive(Debug, PartialEq, Eq)]
pub struct SessionUsage {
    pub used: u64,
    pub size: u64,
    pub cost: Option<UsageCost>,
}

/// The model of [`SessionUsage`].
#[verifier::ext_equal]
pub struct SessionUsageV {
    pub used: u64,
    pub size: u64,
    pub cost: Option<UsageCostV>,
}

impl DeepView for SessionUsage {
    type V = SessionUsageV;

    open spec fn deep_view(&self) -> SessionUsageV {
        SessionUsageV {
            used: self.used.deep_view(),
            size: self.size.deep_view(),
            cost: self.cost.deep_view(),
        }
    }
}

impl Duplicate for SessionUsage {
    fn duplicate(&self) -> (r: Self) {
        SessionUsage {
            used: self.used.duplicate(),
            size: self.size.duplicate(),
            cost: self.cost.duplicate(),
        }
    }
}

/// A command that the agent offers.
#[derive(Debug, PartialEq, Eq)]
pub struct AvailableCommand {
    pub name: String,
    pub description: String,
    pub accepts_input: bool,
}

/// The model of [`AvailableCommand`].
#[verifier::ext_equal]
pub struct AvailableCommandV {
    pub name: Seq<char>,
    pub description: Seq<char>,
    pub accepts_input: bool,
}

impl DeepView for AvailableCommand {
    type V = AvailableCommandV;

    open spec fn deep_view(&self) -> AvailableCommandV {
        AvailableCommandV {
            name: self.name.deep_view(),
            description: self.description.deep_view(),
            accepts_input: self.accepts_input.deep_view(),
        }
    }
}

impl Duplicate for AvailableCommand {
    fn duplicate(&self) -> (r: Self) {
        AvailableCommand {
            name: self.name.duplicate(),
            description: self.description.duplicate(),
            accepts_input: self.accepts_input.duplicate(),
        }
    }
}

/// What a config option is about.
#[derive(Debug, PartialEq, Eq)]
pub enum ConfigOptionCategory {
    Mode,
    Model,
    ThoughtLevel,
    Other(String),
}

/// The model of [`ConfigOptionCategory`].
#[verifier::ext_equal]
pub enum ConfigOptionCategoryV {
    Mode,
    Model,
    ThoughtLevel,
    Other(Seq<char>),
}

impl DeepView for ConfigOptionCategory {
    type V = ConfigOptionCategoryV;

    open spec fn deep_view(&self) -> ConfigOptionCategoryV {
        match self {
            ConfigOptionCategory::Mode => ConfigOptionCategoryV::Mode,
            ConfigOptionCategory::Model => ConfigOptionCategoryV::Model,
            ConfigOptionCategory::ThoughtLevel => ConfigOptionCategoryV::ThoughtLevel,
            ConfigOptionCategory::Other(value) => ConfigOptionCategoryV::Other(value.deep_view()),
        }
    }
}

impl Duplicate for ConfigOptionCategory {
    fn duplicate(&self) -> (r: Self) {
        match self {
            ConfigOptionCategory::Mode => ConfigOptionCategory::Mode,
            ConfigOptionCategory::Model => ConfigOptionCategory::Model,
            ConfigOptionCategory::ThoughtLevel => ConfigOptionCategory::ThoughtLevel,
            ConfigOptionCategory::Other(value) => ConfigOptionCategory::Other(value.duplicate()),
        }
    }
}

/// One value that a config option can take.
#[derive(Debug, PartialEq, Eq)]
pub struct ConfigOptionChoice {
    pub value: String,
    pub name: String,
    pub description: Option<String>,
}

/// The model of [`ConfigOptionChoice`].
#[verifier::ext_equal]
pub struct ConfigOptionChoiceV {
    pub value: Seq<char>,
    pub name: Seq<char>,
    pub description: Option<Seq<char>>,
}

impl DeepView for ConfigOptionChoice {
    type V = ConfigOptionChoiceV;

    open spec fn deep_view(&self) -> ConfigOptionChoiceV {
        ConfigOptionChoiceV {
            value: self.value.deep_view(),
            name: self.name.deep_view(),
            description: self.description.deep_view(),
        }
    }
}

impl Duplicate for ConfigOptionChoice {
    fn duplicate(&self) -> (r: Self) {
        ConfigOptionChoice {
            value: self.value.duplicate(),
            name: self.name.duplicate(),
            description: self.description.duplicate(),
        }
    }
}

/// A config option as it is shown.
#[derive(Debug, PartialEq, Eq)]
pub struct ConfigOptionDescriptor {
    pub id: String,
    pub name: String,
    pub description: Option<String>,
    pub category: ConfigOptionCategory,
    pub current_value: String,
    pub options: Vec<ConfigOptionChoice>,
}

/// The model of [`ConfigOptionDescriptor`].
#[verifier::ext_equal]
pub struct ConfigOptionDescriptorV {
    pub id: Seq<char>,
    pub name: Seq<char>,
    pub description: Option<Seq<char>>,
    pub category: ConfigOptionCategoryV,
    pub current_value: Seq<char>,
    pub options: Seq<ConfigOptionChoiceV>,
}

impl DeepView for ConfigOptionDescriptor {
    type V = ConfigOptionDescriptorV;

    open spec fn deep_view(&self) -> ConfigOptionDescriptorV {
        ConfigOptionDescriptorV {
            id: self.id.deep_view(),
            name: self.name.deep_view(),
            description: self.description.deep_view(),
            category: self.category.deep_view(),
            current_value: self.current_value.deep_view(),
            options: self.options.deep_view(),
        }
    }
}

impl Duplicate for ConfigOptionDescriptor {
    fn duplicate(&self) -> (r: Self) {
        ConfigOptionDescriptor {
            id: self.id.duplicate(),
            name: self.name.duplicate(),
            description: self.description.duplicate(),
            category: self.category.duplicate(),
            current_value: self.current_value.duplicate(),
            options: self.options.duplicate(),
        }
    }
}

/// A mode that the agent offers.
#[derive(Debug, PartialEq, Eq)]
pub struct ModeInfo {
    pub id: String,
    pub name: String,
    pub description: Option<String>,
}

/// The model of [`ModeInfo`].
#[verifier::ext_equal]
pub struct ModeInfoV {
    pub id: Seq<char>,
    pub name: Seq<char>,
    pub description: Option<Seq<char>>,
}

impl DeepView for ModeInfo {
    type V = ModeInfoV;

    open spec fn deep_view(&self) -> ModeInfoV {
        ModeInfoV {
            id: self.id.deep_view(),
            name: self.name.deep_view(),
            description: self.description.deep_view(),
        }
    }
}

impl Duplicate for ModeInfo {
    fn duplicate(&self) -> (r: Self) {
        ModeInfo {
            id: self.id.duplicate(),
            name: self.name.duplicate(),
            description: self.description.duplicate(),
        }
    }
}

/// Kinds of work that goes on in the background.
#[derive(Debug, Clone, Copy, PartialEq, Eq, Structural)]
pub enum BackgroundKind {
    Monitor,
    Shell,
    Workflow,
}

impl DeepView for BackgroundKind {
    type V = BackgroundKind;

    open spec fn deep_view(&self) -> BackgroundKind {
        *self
    }
}

impl Duplicate for BackgroundKind {
    fn duplicate(&self) -> (r: Self) {
        *self
    }
}

/// Why background work ended.
#[derive(Debug, Clone, Copy, PartialEq, Eq, Structural)]
pub enum BackgroundEndReason {
    Stopped,
    Finished,
}

impl DeepView for BackgroundEndReason {
    type V = BackgroundEndReason;

    open spec fn deep_view(&self) -> BackgroundEndReason {
        *self
    }
}

impl Duplicate for BackgroundEndReason {
    fn duplicate(&self) -> (r: Self) {
        *self
    }
}

/// A limit that the provider has put on the session.
#[derive(Debug, PartialEq, Eq)]
pub struct RateLimitInfo {
    pub resets_at: Option<Timestamp>,
    pub detail: Json,
}

/// The model of [`RateLimitInfo`].
#[verifier::ext_equal]
pub struct RateLimitInfoV {
    pub resets_at: Option<Timestamp>,
    pub detail: JsonV,
}

impl DeepView for RateLimitInfo {
    type V = RateLimitInfoV;

    open spec fn deep_view(&self) -> RateLimitInfoV {
        RateLimitInfoV {
            resets_at: self.resets_at.deep_view(),
            detail: self.detail.deep_view(),
        }
    }
}

impl Duplicate for RateLimitInfo {
    fn duplicate(&self) -> (r: Self) {
        RateLimitInfo {
            resets_at: self.resets_at.duplicate(),
            detail: self.detail.duplicate(),
        }
    }
}

/// How a field of a question card is filled in.
#[derive(Debug, Clone, Copy, PartialEq, Eq, Structural)]
pub enum ElicitationFieldKind {
    SingleSelect,
    MultiSelect,
    FreeText,
}

impl DeepView for ElicitationFieldKind {
    type V = ElicitationFieldKind;

    open spec fn deep_view(&self) -> ElicitationFieldKind {
        *self
    }
}

impl Duplicate for ElicitationFieldKind {
    fn duplicate(&self) -> (r: Self) {
        *self
    }
}

/// One choice of a select field.
#[derive(Debug, PartialEq, Eq)]
pub struct ElicitationOption {
    pub value: String,
    pub label: String,
    pub description: Option<String>,
}

/// The model of [`ElicitationOption`].
#[verifier::ext_equal]
pub struct ElicitationOptionV {
    pub value: Seq<char>,
    pub label: Seq<char>,
    pub description: Option<Seq<char>>,
}

impl DeepView for ElicitationOption {
    type V = ElicitationOptionV;

    open spec fn deep_view(&self) -> ElicitationOptionV {
        ElicitationOptionV {
            value: self.value.deep_view(),
            label: self.label.deep_view(),
            description: self.description.deep_view(),
        }
    }
}

impl Duplicate for ElicitationOption {
    fn duplicate(&self) -> (r: Self) {
        ElicitationOption {
            value: self.value.duplicate(),
            label: self.label.duplicate(),
            description: self.description.duplicate(),
        }
    }
}

/// One field of a question card.
#[derive(Debug, PartialEq, Eq)]
pub struct ElicitationQuestion {
    pub field_key: String,
    pub title: Option<String>,
    pub description: Option<String>,
    pub required: bool,
    pub kind: ElicitationFieldKind,
    pub options: Vec<ElicitationOption>,
    pub min_items: Option<u64>,
    pub max_items: Option<u64>,
    pub min_length: Option<u64>,
    pub max_length: Option<u64>,
    pub pattern: Option<String>,
    pub format: Option<String>,
    pub minimum: Option<JsonNumber>,
    pub maximum: Option<JsonNumber>,
    pub default: Option<Json>,
}

/// The model of [`ElicitationQuestion`].
#[verifier::ext_equal]
pub struct ElicitationQuestionV {
    pub field_key: Seq<char>,
    pub title: Option<Seq<char>>,
    pub description: Option<Seq<char>>,
    pub required: bool,
    pub kind: ElicitationFieldKind,
    pub options: Seq<ElicitationOptionV>,
    pub min_items: Option<u64>,
    pub max_items: Option<u64>,
    pub min_length: Option<u64>,
    pub max_length: Option<u64>,
    pub pattern: Option<Seq<char>>,
    pub format: Option<Seq<char>>,
    pub minimum: Option<JsonNumber>,
    pub maximum: Option<JsonNumber>,
    pub default: Option<JsonV>,
}

impl DeepView for ElicitationQuestion {
    type V = ElicitationQuestionV;

    open spec fn deep_view(&self) -> ElicitationQuestionV {
        ElicitationQuestionV {
            field_key: self.field_key.deep_view(),
            title: self.title.deep_view(),
            description: self.description.deep_view(),
            required: self.required.deep_view(),
            kind: self.kind.deep_view(),
            options: self.options.deep_view(),
            min_items: self.min_items.deep_view(),
            max_items: self.max_items.deep_view(),
            min_length: self.min_length.deep_view(),
            max_length: self.max_length.deep_view(),
            pattern: self.pattern.deep_view(),
            format: self.format.deep_view(),
            minimum: self.minimum.deep_view(),
            maximum: self.maximum.deep_view(),
            default: self.default.deep_view(),
        }
    }
}

impl Duplicate for ElicitationQuestion {
    fn duplicate(&self) -> (r: Self) {
        ElicitationQuestion {
            field_key: self.field_key.duplicate(),
            title: self.title.duplicate(),
            description: self.description.duplicate(),
            required: self.required.duplicate(),
            kind: self.kind.duplicate(),
            options: self.options.duplicate(),
            min_items: self.min_items.duplicate(),
            max_items: self.max_items.duplicate(),
            min_length: self.min_length.duplicate(),
            max_length: self.max_length.duplicate(),
            pattern: self.pattern.duplicate(),
            format: self.format.duplicate(),
            minimum: self.minimum.duplicate(),
            maximum: self.maximum.duplicate(),
            default: self.default.duplicate(),
        }
    }
}

/// How a question card was closed.
#[derive(Debug, Clone, Copy, PartialEq, Eq, Structural)]
pub enum ElicitationOutcome {
    Accepted,
    Declined,
    Cancelled,
}

impl DeepView for ElicitationOutcome {
    type V = ElicitationOutcome;

    open spec fn deep_view(&self) -> ElicitationOutcome {
        *self
    }
}

impl Duplicate for ElicitationOutcome {
    fn duplicate(&self) -> (r: Self) {
        *self
    }
}

/// One answered question, for display.
#[derive(Debug, PartialEq, Eq)]
pub struct AnsweredQuestion {
    pub question: String,
    pub answer: String,
}

/// The model of [`AnsweredQuestion`].
#[verifier::ext_equal]
pub struct AnsweredQuestionV {
    pub question: Seq<char>,
    pub answer: Seq<char>,
}

impl DeepView for AnsweredQuestion {
    type V = AnsweredQuestionV;

    open spec fn deep_view(&self) -> AnsweredQuestionV {
        AnsweredQuestionV {
            question: self.question.deep_view(),
            answer: self.answer.deep_view(),
        }
    }
}

impl Duplicate for AnsweredQuestion {
    fn duplicate(&self) -> (r: Self) {
        AnsweredQuestion {
            question: self.question.duplicate(),
            answer: self.answer.duplicate(),
        }
    }
}

/// A question card.
#[derive(Debug, PartialEq, Eq)]
pub struct Elicitation {
    pub nonce: String,
    pub message: String,
    pub title: Option<String>,
    pub description: Option<String>,
    pub tool_call_id: Option<String>,
    pub questions: Vec<ElicitationQuestion>,
    pub requested_at: Timestamp,
    pub resolved: Option<ElicitationOutcome>,
}

/// The model of [`Elicitation`].
#[verifier::ext_equal]
pub struct ElicitationV {
    pub nonce: Seq<char>,
    pub message: Seq<char>,
    pub title: Option<Seq<char>>,
    pub description: Option<Seq<char>>,
    pub tool_call_id: Option<Seq<char>>,
    pub questions: Seq<ElicitationQuestionV>,
    pub requested_at: Timestamp,
    pub resolved: Option<ElicitationOutcome>,
}

impl DeepView for Elicitation {
    type V = ElicitationV;

    open spec fn deep_view(&self) -> ElicitationV {
        ElicitationV {
            nonce: self.nonce.deep_view(),
            message: self.message.deep_view(),
            title: self.title.deep_view(),
            description: self.description.deep_view(),
            tool_call_id: self.tool_call_id.deep_view(),
            questions: self.questions.deep_view(),
            requested_at: self.requested_at.deep_view(),
            resolved: self.resolved.deep_view(),
        }
    }
}

impl Duplicate for Elicitation {
    fn duplicate(&self) -> (r: Self) {
        Elicitation {
            nonce: self.nonce.duplicate(),
            message: self.message.duplicate(),
            title: self.title.duplicate(),
            description: self.description.duplicate(),
            tool_call_id: self.tool_call_id.duplicate(),
            questions: self.questions.duplicate(),
            requested_at: self.requested_at.duplicate(),
            resolved: self.resolved.duplicate(),
        }
    }
}

/// What a connection tells its session, in the order in which it happened.
#[derive(Debug, PartialEq, Eq)]
#[allow(inconsistent_fields)]
pub enum Event {
    AgentMessageChunk { text: String },
    AgentThoughtChunk { text: String },
    ThinkingStarted,
    UserPromptSent { text: String, attachments: Vec<Json>, prompt_id: Option<String> },
    ConversationCompactionStarted,
    ConversationCompacted,
    PlanUpdated { plan: Plan },
    ToolCallStarted { tool_call: ToolCall },
    ToolCallUpdated {
        tool_call_id: String,
        title: Option<String>,
        args_preview: Option<String>,
        started_at: Option<Timestamp>,
        diffs: Option<Vec<DiffPreview>>,
    },
    ToolCallContent { tool_call_id: String, content: String },
    ToolCallCompleted {
        tool_call_id: String,
        is_error: bool,
        content: String,
        output: Vec<Json>,
        completed_at: Timestamp,
        async_subagent: bool,
    },
    WakeupScheduled { at: Timestamp, reason: Option<String> },
    BackgroundAgentLaunched {
        agent_id: String,
        tool_call_id: String,
        description: String,
        prompt: String,
        model: String,
        output_file: String,
        started_at: Timestamp,
    },
    BackgroundItemStarted {
        kind: BackgroundKind,
        id: String,
        tool_call_id: Option<String>,
        label: Option<String>,
        started_at: Timestamp,
        expires_at: Option<Timestamp>,
    },
    BackgroundItemEnded {
        id: String,
        reason: BackgroundEndReason,
        cause: Option<String>,
        at: Timestamp,
    },
    CurrentModeChanged { current_mode_id: String },
    ModeChanged { mode: SessionMode },
    ModeSwitchFailed { mode_id: String, reason: String },
    ModesAvailable { current_mode_id: String, modes: Vec<ModeInfo> },
    UsageUpdated { usage: SessionUsage },
    AvailableCommandsUpdated { commands: Vec<AvailableCommand> },
    ConfigOptionsUpdated { options: Vec<ConfigOptionDescriptor> },
    ConfigOptionSwitchFailed { config_id: String, value: String, reason: String },
    PromptCapabilities {
        image: bool,
        audio: bool,
        embedded_context: bool,
        load_session: Option<bool>,
        steering: bool,
    },
    AcpSessionAssigned { acp_session_id: String },
    SessionContextReset { reason: String },
    SessionCleared,
    RateLimit { info: RateLimitInfo },
    CancelRequested { escalates_at: Timestamp },
    PromptRejected { reason: String, text: String },
    PromptRuntimeError { message: String },
    Stopped { reason: String },
    AgentStartupError { message: String },
    ElicitationRequested { elicitation: Elicitation },
    ElicitationResolved {
        nonce: String,
        outcome: ElicitationOutcome,
        answers: Vec<AnsweredQuestion>,
    },
    RawAgentUpdate { payload: Json },
}

/// The model of [`Event`].
#[verifier::ext_equal]
#[allow(inconsistent_fields)]
pub enum EventV {
    AgentMessageChunk { text: Seq<char> },
    AgentThoughtChunk { text: Seq<char> },
    ThinkingStarted,
    UserPromptSent {
        text: Seq<char>,
        attachments: Seq<JsonV>,
        prompt_id: Option<Seq<char>>,
    },
    ConversationCompactionStarted,
    ConversationCompacted,
    PlanUpdated { plan: PlanV },
    ToolCallStarted { tool_call: ToolCallV },
    ToolCallUpdated {
        tool_call_id: Seq<char>,
        title: Option<Seq<char>>,
        args_preview: Option<Seq<char>>,
        started_at: Option<Timestamp>,
        diffs: Option<Seq<DiffPreviewV>>,
    },
    ToolCallContent { tool_call_id: Seq<char>, content: Seq<char> },
    ToolCallCompleted {
        tool_call_id: Seq<char>,
        is_error: bool,
        content: Seq<char>,
        output: Seq<JsonV>,
        completed_at: Timestamp,
        async_subagent: bool,
    },
    WakeupScheduled { at: Timestamp, reason: Option<Seq<char>> },
    BackgroundAgentLaunched {
        agent_id: Seq<char>,
        tool_call_id: Seq<char>,
        description: Seq<char>,
        prompt: Seq<char>,
        model: Seq<char>,
        output_file: Seq<char>,
        started_at: Timestamp,
    },
    BackgroundItemStarted {
        kind: BackgroundKind,
        id: Seq<char>,
        tool_call_id: Option<Seq<char>>,
        label: Option<Seq<char>>,
        started_at: Timestamp,
        expires_at: Option<Timestamp>,
    },
    BackgroundItemEnded {
        id: Seq<char>,
        reason: BackgroundEndReason,
        cause: Option<Seq<char>>,
        at: Timestamp,
    },
    CurrentModeChanged { current_mode_id: Seq<char> },
    ModeChanged { mode: SessionMode },
    ModeSwitchFailed { mode_id: Seq<char>, reason: Seq<char> },
    ModesAvailable { current_mode_id: Seq<char>, modes: Seq<ModeInfoV> },
    UsageUpdated { usage: SessionUsageV },
    AvailableCommandsUpdated { commands: Seq<AvailableCommandV> },
    ConfigOptionsUpdated { options: Seq<ConfigOptionDescriptorV> },
    ConfigOptionSwitchFailed { config_id: Seq<char>, value: Seq<char>, reason: Seq<char> },
    PromptCapabilities {
        image: bool,
        audio: bool,
        embedded_context: bool,
        load_session: Option<bool>,
        steering: bool,
    },
    AcpSessionAssigned { acp_session_id: Seq<char> },
    SessionContextReset { reason: Seq<char> },
    SessionCleared,
    RateLimit { info: RateLimitInfoV },
    CancelRequested { escalates_at: Timestamp },
    PromptRejected { reason: Seq<char>, text: Seq<char> },
    PromptRuntimeError { message: Seq<char> },
    Stopped { reason: Seq<char> },
    AgentStartupError { message: Seq<char> },
    ElicitationRequested { elicitation: ElicitationV },
    ElicitationResolved {
        nonce: Seq<char>,
        outcome: ElicitationOutcome,
        answers: Seq<AnsweredQuestionV>,
    },
    RawAgentUpdate { payload: JsonV },
}

impl DeepView for Event {
    type V = EventV;

    open spec fn deep_view(&self) -> EventV {
        match self {
            Event::AgentMessageChunk { text } => {
                EventV::AgentMessageChunk {
                    text: text.deep_view(),
                }
            },
            Event::AgentThoughtChunk { text } => {
                EventV::AgentThoughtChunk {
                    text: text.deep_view(),
                }
            },
            Event::ThinkingStarted => EventV::ThinkingStarted,
            Event::UserPromptSent { text, attachments, prompt_id } => {
                EventV::UserPromptSent {
                    text: text.deep_view(),
                    attachments: attachments.deep_view(),
                    prompt_id: prompt_id.deep_view(),
                }
            },
            Event::ConversationCompactionStarted => EventV::ConversationCompactionStarted,
            Event::ConversationCompacted => EventV::ConversationCompacted,
            Event::PlanUpdated { plan } => EventV::PlanUpdated { plan: plan.deep_view() },
            Event::ToolCallStarted { tool_call } => {
                EventV::ToolCallStarted {
                    tool_call: tool_call.deep_view(),
                }
            },
            Event::ToolCallUpdated { tool_call_id, title, args_preview, started_at, diffs } => {
                EventV::ToolCallUpdated {
                    tool_call_id: tool_call_id.deep_view(),
                    title: title.deep_view(),
                    args_preview: args_preview.deep_view(),
                    started_at: started_at.deep_view(),
                    diffs: diffs.deep_view(),
                }
            },
            Event::ToolCallContent { tool_call_id, content } => {
                EventV::ToolCallContent {
                    tool_call_id: tool_call_id.deep_view(),
                    content: content.deep_view(),
                }
            },
            Event::ToolCallCompleted { tool_call_id, is_error, content, output, completed_at, async_subagent } => {
                EventV::ToolCallCompleted {
                    tool_call_id: tool_call_id.deep_view(),
                    is_error: is_error.deep_view(),
                    content: content.deep_view(),
                    output: output.deep_view(),
                    completed_at: completed_at.deep_view(),
                    async_subagent: async_subagent.deep_view(),
                }
            },
            Event::WakeupScheduled { at, reason } => {
                EventV::WakeupScheduled {
                    at: at.deep_view(),
                    reason: reason.deep_view(),
                }
            },
            Event::BackgroundAgentLaunched { agent_id, tool_call_id, description, prompt, model, output_file, started_at } => {
                EventV::BackgroundAgentLaunched {
                    agent_id: agent_id.deep_view(),
                    tool_call_id: tool_call_id.deep_view(),
                    description: description.deep_view(),
                    prompt: prompt.deep_view(),
                    model: model.deep_view(),
                    output_file: output_file.deep_view(),
                    started_at: started_at.deep_view(),
                }
            },
            Event::BackgroundItemStarted { kind, id, tool_call_id, label, started_at, expires_at } => {
                EventV::BackgroundItemStarted {
                    kind: kind.deep_view(),
                    id: id.deep_view(),
                    tool_call_id: tool_call_id.deep_view(),
                    label: label.deep_view(),
                    started_at: started_at.deep_view(),
                    expires_at: expires_at.deep_view(),
                }
            },
            Event::BackgroundItemEnded { id, reason, cause, at } => {
                EventV::BackgroundItemEnded {
                    id: id.deep_view(),
                    reason: reason.deep_view(),
                    cause: cause.deep_view(),
                    at: at.deep_view(),
                }
            },
            Event::CurrentModeChanged { current_mode_id } => {
                EventV::CurrentModeChanged {
                    current_mode_id: current_mode_id.deep_view(),
                }
            },
            Event::ModeChanged { mode } => EventV::ModeChanged { mode: mode.deep_view() },
            Event::ModeSwitchFailed { mode_id, reason } => {
                EventV::ModeSwitchFailed {
                    mode_id: mode_id.deep_view(),
                    reason: reason.deep_view(),
                }
            },
            Event::ModesAvailable { current_mode_id, modes } => {
                EventV::ModesAvailable {
                    current_mode_id: current_mode_id.deep_view(),
                    modes: modes.deep_view(),
                }
            },
            Event::UsageUpdated { usage } => EventV::UsageUpdated { usage: usage.deep_view() },
            Event::AvailableCommandsUpdated { commands } => {
                EventV::AvailableCommandsUpdated {
                    commands: commands.deep_view(),
                }
            },
            Event::ConfigOptionsUpdated { options } => {
                EventV::ConfigOptionsUpdated {
                    options: options.deep_view(),
                }
            },
            Event::ConfigOptionSwitchFailed { config_id, value, reason } => {
                EventV::ConfigOptionSwitchFailed {
                    config_id: config_id.deep_view(),
                    value: value.deep_view(),
                    reason: reason.deep_view(),
                }
            },
            Event::PromptCapabilities { image, audio, embedded_context, load_session, steering } => {
                EventV::PromptCapabilities {
                    image: image.deep_view(),
                    audio: audio.deep_view(),
                    embedded_context: embedded_context.deep_view(),
                    load_session: load_session.deep_view(),
                    steering: steering.deep_view(),
                }
            },
            Event::AcpSessionAssigned { acp_session_id } => {
                EventV::AcpSessionAssigned {
                    acp_session_id: acp_session_id.deep_view(),
                }
            },
            Event::SessionContextReset { reason } => {
                EventV::SessionContextReset {
                    reason: reason.deep_view(),
                }
            },
            Event::SessionCleared => EventV::SessionCleared,
            Event::RateLimit { info } => EventV::RateLimit { info: info.deep_view() },
            Event::CancelRequested { escalates_at } => {
                EventV::CancelRequested {
                    escalates_at: escalates_at.deep_view(),
                }
            },
            Event::PromptRejected { reason, text } => {
                EventV::PromptRejected {
                    reason: reason.deep_view(),
                    text: text.deep_view(),
                }
            },
            Event::PromptRuntimeError { message } => {
                EventV::PromptRuntimeError {
                    message: message.deep_view(),
                }
            },
            Event::Stopped { reason } => EventV::Stopped { reason: reason.deep_view() },
            Event::AgentStartupError { message } => {
                EventV::AgentStartupError {
                    message: message.deep_view(),
                }
            },
            Event::ElicitationRequested { elicitation } => {
                EventV::ElicitationRequested {
                    elicitation: elicitation.deep_view(),
                }
            },
            Event::ElicitationResolved { nonce, outcome, answers } => {
                EventV::ElicitationResolved {
                    nonce: nonce.deep_view(),
                    outcome: outcome.deep_view(),
                    answers: answers.deep_view(),
                }
            },
            Event::RawAgentUpdate { payload } => {
                EventV::RawAgentUpdate {
                    payload: payload.deep_view(),
                }
            },
        }
    }
}

impl Duplicate for Event {
    fn duplicate(&self) -> (r: Self) {
        match self {
            Event::AgentMessageChunk { text } => {
                Event::AgentMessageChunk {
                    text: text.duplicate(),
                }
            },
            Event::AgentThoughtChunk { text } => {
                Event::AgentThoughtChunk {
                    text: text.duplicate(),
                }
            },
            Event::ThinkingStarted => Event::ThinkingStarted,
            Event::UserPromptSent { text, attachments, prompt_id } => {
                Event::UserPromptSent {
                    text: text.duplicate(),
                    attachments: attachments.duplicate(),
                    prompt_id: prompt_id.duplicate(),
                }
            },
            Event::ConversationCompactionStarted => Event::ConversationCompactionStarted,
            Event::ConversationCompacted => Event::ConversationCompacted,
            Event::PlanUpdated { plan } => Event::PlanUpdated { plan: plan.duplicate() },
            Event::ToolCallStarted { tool_call } => {
                Event::ToolCallStarted {
                    tool_call: tool_call.duplicate(),
                }
            },
            Event::ToolCallUpdated { tool_call_id, title, args_preview, started_at, diffs } => {
                Event::ToolCallUpdated {
                    tool_call_id: tool_call_id.duplicate(),
                    title: title.duplicate(),
                    args_preview: args_preview.duplicate(),
                    started_at: started_at.duplicate(),
                    diffs: diffs.duplicate(),
                }
            },
            Event::ToolCallContent { tool_call_id, content } => {
                Event::ToolCallContent {
                    tool_call_id: tool_call_id.duplicate(),
                    content: content.duplicate(),
                }
            },
            Event::ToolCallCompleted { tool_call_id, is_error, content, output, completed_at, async_subagent } => {
                Event::ToolCallCompleted {
                    tool_call_id: tool_call_id.duplicate(),
                    is_error: is_error.duplicate(),
                    content: content.duplicate(),
                    output: output.duplicate(),
                    completed_at: completed_at.duplicate(),
                    async_subagent: async_subagent.duplicate(),
                }
            },
            Event::WakeupScheduled { at, reason } => {
                Event::WakeupScheduled {
                    at: at.duplicate(),
                    reason: reason.duplicate(),
                }
            },
            Event::BackgroundAgentLaunched { agent_id, tool_call_id, description, prompt, model, output_file, started_at } => {
                Event::BackgroundAgentLaunched {
                    agent_id: agent_id.duplicate(),
                    tool_call_id: tool_call_id.duplicate(),
                    description: description.duplicate(),
                    prompt: prompt.duplicate(),
                    model: model.duplicate(),
                    output_file: output_file.duplicate(),
                    started_at: started_at.duplicate(),
                }
            },
            Event::BackgroundItemStarted { kind, id, tool_call_id, label, started_at, expires_at } => {
                Event::BackgroundItemStarted {
                    kind: kind.duplicate(),
                    id: id.duplicate(),
                    tool_call_id: tool_call_id.duplicate(),
                    label: label.duplicate(),
                    started_at: started_at.duplicate(),
                    expires_at: expires_at.duplicate(),
                }
            },
            Event::BackgroundItemEnded { id, reason, cause, at } => {
                Event::BackgroundItemEnded {
                    id: id.duplicate(),
                    reason: reason.duplicate(),
                    cause: cause.duplicate(),
                    at: at.duplicate(),
                }
            },
            Event::CurrentModeChanged { current_mode_id } => {
                Event::CurrentModeChanged {
                    current_mode_id: current_mode_id.duplicate(),
                }
            },
            Event::ModeChanged { mode } => Event::ModeChanged { mode: mode.duplicate() },
            Event::ModeSwitchFailed { mode_id, reason } => {
                Event::ModeSwitchFailed {
                    mode_id: mode_id.duplicate(),
                    reason: reason.duplicate(),
                }
            },
            Event::ModesAvailable { current_mode_id, modes } => {
                Event::ModesAvailable {
                    current_mode_id: current_mode_id.duplicate(),
                    modes: modes.duplicate(),
                }
            },
            Event::UsageUpdated { usage } => Event::UsageUpdated { usage: usage.duplicate() },
            Event::AvailableCommandsUpdated { commands } => {
                Event::AvailableCommandsUpdated {
                    commands: commands.duplicate(),
                }
            },
            Event::ConfigOptionsUpdated { options } => {
                Event::ConfigOptionsUpdated {
                    options: options.duplicate(),
                }
            },
            Event::ConfigOptionSwitchFailed { config_id, value, reason } => {
                Event::ConfigOptionSwitchFailed {
                    config_id: config_id.duplicate(),
                    value: value.duplicate(),
                    reason: reason.duplicate(),
                }
            },
            Event::PromptCapabilities { image, audio, embedded_context, load_session, steering } => {
                Event::PromptCapabilities {
                    image: image.duplicate(),
                    audio: audio.duplicate(),
                    embedded_context: embedded_context.duplicate(),
                    load_session: load_session.duplicate(),
                    steering: steering.duplicate(),
                }
            },
            Event::AcpSessionAssigned { acp_session_id } => {
                Event::AcpSessionAssigned {
                    acp_session_id: acp_session_id.duplicate(),
                }
            },
            Event::SessionContextReset { reason } => {
                Event::SessionContextReset {
                    reason: reason.duplicate(),
                }
            },
            Event::SessionCleared => Event::SessionCleared,
            Event::RateLimit { info } => Event::RateLimit { info: info.duplicate() },
            Event::CancelRequested { escalates_at } => {
                Event::CancelRequested {
                    escalates_at: escalates_at.duplicate(),
                }
            },
            Event::PromptRejected { reason, text } => {
                Event::PromptRejected {
                    reason: reason.duplicate(),
                    text: text.duplicate(),
                }
            },
            Event::PromptRuntimeError { message } => {
                Event::PromptRuntimeError {
                    message: message.duplicate(),
                }
            },
            Event::Stopped { reason } => Event::Stopped { reason: reason.duplicate() },
            Event::AgentStartupError { message } => {
                Event::AgentStartupError {
                    message: message.duplicate(),
                }
            },
            Event::ElicitationRequested { elicitation } => {
                Event::ElicitationRequested {
                    elicitation: elicitation.duplicate(),
                }
            },
            Event::ElicitationResolved { nonce, outcome, answers } => {
                Event::ElicitationResolved {
                    nonce: nonce.duplicate(),
                    outcome: outcome.duplicate(),
                    answers: answers.duplicate(),
                }
            },
            Event::RawAgentUpdate { payload } => {
                Event::RawAgentUpdate {
                    payload: payload.duplicate(),
                }
            },
        }
    }
}

}
