//! Grok's questions to the user.
//!
//! The agent calls the client's method `x.ai/ask_user_question` and waits for
//! an object with an `outcome`. Each question becomes two fields of a card: a
//! choice, and a box for anything else. The filled card becomes the agent's
//! answer. Skipping and cancelling both answer `cancelled`.

use crate::event::{
    AnsweredQuestion, AnsweredQuestionV, Elicitation, ElicitationFieldKind, ElicitationOption,
    ElicitationOptionV, ElicitationOutcome, ElicitationQuestion, ElicitationQuestionV, ElicitationV,
    Event, EventV,
};
use crate::json;
use crate::json::{Json, JsonV};
use crate::model;
use crate::model::Duplicate;
use crate::text;
use crate::time::Timestamp;
use vstd::prelude::*;

verus! {

/// The mode in which the agent asks. The card is the same in both.
#[derive(Debug, Clone, Copy, PartialEq, Eq, Structural)]
pub enum GrokAskMode {
    Default,
    Plan,
}

impl DeepView for GrokAskMode {
    type V = GrokAskMode;

    open spec fn deep_view(&self) -> GrokAskMode {
        *self
    }
}

impl Duplicate for GrokAskMode {
    fn duplicate(&self) -> (r: Self) {
        *self
    }
}

/// One choice of a question.
#[derive(Debug, PartialEq, Eq)]
pub struct GrokOption {
    pub label: String,
    pub description: String,
    pub preview: Option<String>,
}

/// The model of [`GrokOption`].
#[verifier::ext_equal]
pub struct GrokOptionV {
    pub label: Seq<char>,
    pub description: Seq<char>,
    pub preview: Option<Seq<char>>,
}

impl DeepView for GrokOption {
    type V = GrokOptionV;

    open spec fn deep_view(&self) -> GrokOptionV {
        GrokOptionV {
            label: self.label.deep_view(),
            description: self.description.deep_view(),
            preview: self.preview.deep_view(),
        }
    }
}

impl Duplicate for GrokOption {
    fn duplicate(&self) -> (r: Self) {
        GrokOption {
            label: self.label.duplicate(),
            description: self.description.duplicate(),
            preview: self.preview.duplicate(),
        }
    }
}

/// One question.
#[derive(Debug, PartialEq, Eq)]
pub struct GrokQuestion {
    pub question: String,
    pub options: Vec<GrokOption>,
    pub multi_select: Option<bool>,
}

/// The model of [`GrokQuestion`].
#[verifier::ext_equal]
pub struct GrokQuestionV {
    pub question: Seq<char>,
    pub options: Seq<GrokOptionV>,
    pub multi_select: Option<bool>,
}

impl DeepView for GrokQuestion {
    type V = GrokQuestionV;

    open spec fn deep_view(&self) -> GrokQuestionV {
        GrokQuestionV {
            question: self.question.deep_view(),
            options: self.options.deep_view(),
            multi_select: self.multi_select.deep_view(),
        }
    }
}

impl Duplicate for GrokQuestion {
    fn duplicate(&self) -> (r: Self) {
        GrokQuestion {
            question: self.question.duplicate(),
            options: self.options.duplicate(),
            multi_select: self.multi_select.duplicate(),
        }
    }
}

/// The questions of one call.
#[derive(Debug, PartialEq, Eq)]
pub struct GrokAskUserQuestionRequest {
    pub session_id: String,
    pub tool_call_id: String,
    pub questions: Vec<GrokQuestion>,
    pub mode: GrokAskMode,
}

/// The model of [`GrokAskUserQuestionRequest`].
#[verifier::ext_equal]
pub struct GrokAskUserQuestionRequestV {
    pub session_id: Seq<char>,
    pub tool_call_id: Seq<char>,
    pub questions: Seq<GrokQuestionV>,
    pub mode: GrokAskMode,
}

impl DeepView for GrokAskUserQuestionRequest {
    type V = GrokAskUserQuestionRequestV;

    open spec fn deep_view(&self) -> GrokAskUserQuestionRequestV {
        GrokAskUserQuestionRequestV {
            session_id: self.session_id.deep_view(),
            tool_call_id: self.tool_call_id.deep_view(),
            questions: self.questions.deep_view(),
            mode: self.mode.deep_view(),
        }
    }
}

impl Duplicate for GrokAskUserQuestionRequest {
    fn duplicate(&self) -> (r: Self) {
        GrokAskUserQuestionRequest {
            session_id: self.session_id.duplicate(),
            tool_call_id: self.tool_call_id.duplicate(),
            questions: self.questions.duplicate(),
            mode: self.mode.duplicate(),
        }
    }
}

/// What a field of a card was filled in with.
#[derive(Debug, PartialEq, Eq)]
pub enum ElicitationContentValue {
    Text(String),
    TextList(Vec<String>),
    Other,
}

/// The model of [`ElicitationContentValue`].
#[verifier::ext_equal]
pub enum ElicitationContentValueV {
    Text(Seq<char>),
    TextList(Seq<Seq<char>>),
    Other,
}

impl DeepView for ElicitationContentValue {
    type V = ElicitationContentValueV;

    open spec fn deep_view(&self) -> ElicitationContentValueV {
        match self {
            ElicitationContentValue::Text(value) => ElicitationContentValueV::Text(value.deep_view()),
            ElicitationContentValue::TextList(value) => ElicitationContentValueV::TextList(value.deep_view()),
            ElicitationContentValue::Other => ElicitationContentValueV::Other,
        }
    }
}

impl Duplicate for ElicitationContentValue {
    fn duplicate(&self) -> (r: Self) {
        match self {
            ElicitationContentValue::Text(value) => ElicitationContentValue::Text(value.duplicate()),
            ElicitationContentValue::TextList(value) => ElicitationContentValue::TextList(value.duplicate()),
            ElicitationContentValue::Other => ElicitationContentValue::Other,
        }
    }
}

/// How a card was closed, and what it was filled in with.
#[derive(Debug, PartialEq, Eq)]
pub enum ElicitationAction {
    Accept { content: Option<Vec<(String, ElicitationContentValue)>> },
    Decline,
    Cancel,
}

/// The model of [`ElicitationAction`].
#[verifier::ext_equal]
pub enum ElicitationActionV {
    Accept {
        content: Option<Seq<(Seq<char>, ElicitationContentValueV)>>,
    },
    Decline,
    Cancel,
}

impl DeepView for ElicitationAction {
    type V = ElicitationActionV;

    open spec fn deep_view(&self) -> ElicitationActionV {
        match self {
            ElicitationAction::Accept { content } => {
                ElicitationActionV::Accept {
                    content: content.deep_view(),
                }
            },
            ElicitationAction::Decline => ElicitationActionV::Decline,
            ElicitationAction::Cancel => ElicitationActionV::Cancel,
        }
    }
}

impl Duplicate for ElicitationAction {
    fn duplicate(&self) -> (r: Self) {
        match self {
            ElicitationAction::Accept { content } => {
                ElicitationAction::Accept {
                    content: content.duplicate(),
                }
            },
            ElicitationAction::Decline => ElicitationAction::Decline,
            ElicitationAction::Cancel => ElicitationAction::Cancel,
        }
    }
}

/// How a card was closed, for the agent and for display.
#[derive(Debug, PartialEq, Eq)]
pub struct ElicitationResolution {
    pub action: ElicitationAction,
    pub outcome: ElicitationOutcome,
    pub answers: Vec<AnsweredQuestion>,
}

/// The model of [`ElicitationResolution`].
#[verifier::ext_equal]
pub struct ElicitationResolutionV {
    pub action: ElicitationActionV,
    pub outcome: ElicitationOutcome,
    pub answers: Seq<AnsweredQuestionV>,
}

impl DeepView for ElicitationResolution {
    type V = ElicitationResolutionV;

    open spec fn deep_view(&self) -> ElicitationResolutionV {
        ElicitationResolutionV {
            action: self.action.deep_view(),
            outcome: self.outcome.deep_view(),
            answers: self.answers.deep_view(),
        }
    }
}

impl Duplicate for ElicitationResolution {
    fn duplicate(&self) -> (r: Self) {
        ElicitationResolution {
            action: self.action.duplicate(),
            outcome: self.outcome.duplicate(),
            answers: self.answers.duplicate(),
        }
    }
}

/// What a call of the agent leads to.
#[derive(Debug, PartialEq, Eq)]
pub enum GrokAskStep {
    /// The card is shown, and the agent waits.
    Show(Elicitation),
    /// The agent is answered at once.
    Answer(Json),
}

/// The model of [`GrokAskStep`].
#[verifier::ext_equal]
pub enum GrokAskStepV {
    Show(ElicitationV),
    Answer(JsonV),
}

impl DeepView for GrokAskStep {
    type V = GrokAskStepV;

    open spec fn deep_view(&self) -> GrokAskStepV {
        match self {
            GrokAskStep::Show(value) => GrokAskStepV::Show(value.deep_view()),
            GrokAskStep::Answer(value) => GrokAskStepV::Answer(value.deep_view()),
        }
    }
}

impl Duplicate for GrokAskStep {
    fn duplicate(&self) -> (r: Self) {
        match self {
            GrokAskStep::Show(value) => GrokAskStep::Show(value.duplicate()),
            GrokAskStep::Answer(value) => GrokAskStep::Answer(value.duplicate()),
        }
    }
}

impl GrokAskUserQuestionRequest {
    /// The method that the agent calls.
    pub fn method() -> (r: &'static str)
        ensures
            r@ == "x.ai/ask_user_question"@,
    {
        "x.ai/ask_user_question"
    }

    /// Whether `method` is that method.
    pub fn matches_method(method: &str) -> (r: bool)
        ensures
            r == (method@ == "x.ai/ask_user_question"@),
    {
        text::same(method, "x.ai/ask_user_question")
    }
}

/// The key of a question's choice.
pub open spec fn select_field(index: nat) -> Seq<char> {
    "question_"@ + text::decimal(index)
}

/// The key of a question's box for anything else.
pub open spec fn custom_field(index: nat) -> Seq<char> {
    select_field(index) + "_custom"@
}

fn select_key(index: usize) -> (r: String)
    ensures
        r@ == select_field(index as nat),
{
    let number = text::decimal_text(index as u64);
    text::cat("question_", number.as_str())
}

fn custom_key(index: usize) -> (r: String)
    ensures
        r@ == custom_field(index as nat),
{
    let key = select_key(index);
    text::cat(key.as_str(), "_custom")
}

/// A field that asks for nothing in particular.
pub open spec fn blank_field(
    field_key: Seq<char>,
    kind: ElicitationFieldKind,
) -> ElicitationQuestionV {
    ElicitationQuestionV {
        field_key,
        title: None,
        description: None,
        required: false,
        kind,
        options: seq![],
        min_items: None,
        max_items: None,
        min_length: None,
        max_length: None,
        pattern: None,
        format: None,
        minimum: None,
        maximum: None,
        default: None,
    }
}

fn blank_question(field_key: String, kind: ElicitationFieldKind) -> (r: ElicitationQuestion)
    ensures
        r.deep_view() == blank_field(field_key@, kind),
{
    ElicitationQuestion {
        field_key,
        title: None,
        description: None,
        required: false,
        kind,
        options: model::empty(),
        min_items: None,
        max_items: None,
        min_length: None,
        max_length: None,
        pattern: None,
        format: None,
        minimum: None,
        maximum: None,
        default: None,
    }
}

/// The choices of a question, as the card shows them.
pub open spec fn card_options(options: Seq<GrokOptionV>) -> Seq<ElicitationOptionV> {
    options.map_values(
        |option: GrokOptionV|
            ElicitationOptionV {
                value: option.label,
                label: option.label,
                description: text::nonempty_text(option.description),
            },
    )
}

/// Whether several choices of a question may be picked.
pub open spec fn is_multi(question: GrokQuestionV) -> bool {
    question.multi_select == Some(true)
}

/// The field for a question's choice. It is not required, since the box for
/// anything else may be used instead.
pub open spec fn select_question(question: GrokQuestionV, index: nat) -> ElicitationQuestionV {
    ElicitationQuestionV {
        title: Some(question.question),
        options: card_options(question.options),
        ..blank_field(
            select_field(index),
            if is_multi(question) {
                ElicitationFieldKind::MultiSelect
            } else {
                ElicitationFieldKind::SingleSelect
            },
        )
    }
}

/// A question's box for anything else.
pub open spec fn custom_question(index: nat) -> ElicitationQuestionV {
    ElicitationQuestionV {
        title: Some("Other"@),
        ..blank_field(custom_field(index), ElicitationFieldKind::FreeText)
    }
}

/// The fields of a card: two for each question, in order.
pub open spec fn card_questions(questions: Seq<GrokQuestionV>) -> Seq<ElicitationQuestionV>
    decreases questions.len(),
{
    if questions.len() == 0 {
        seq![]
    } else {
        let index = (questions.len() - 1) as nat;
        card_questions(questions.drop_last()).push(
            select_question(questions.last(), index),
        ).push(custom_question(index))
    }
}

/// The card for the questions of a call.
pub open spec fn card(
    nonce: Seq<char>,
    request: GrokAskUserQuestionRequestV,
    requested_at: Timestamp,
) -> ElicitationV {
    ElicitationV {
        nonce,
        message: if request.questions.len() == 1 {
            request.questions[0].question
        } else {
            "The agent has a few questions."@
        },
        title: None,
        description: None,
        tool_call_id: Some(request.tool_call_id),
        questions: card_questions(request.questions),
        requested_at,
        resolved: None,
    }
}

fn map_options(options: &Vec<GrokOption>) -> (r: Vec<ElicitationOption>)
    ensures
        r.deep_view() == card_options(options.deep_view()),
{
    let ghost all = card_options(options.deep_view());
    let mut r: Vec<ElicitationOption> = Vec::new();
    let mut i: usize = 0;
    while i < options.len()
        invariant
            i <= options@.len(),
            all == card_options(options.deep_view()),
            r@.len() == i,
            forall|j: int| 0 <= j < i ==> (#[trigger] r@[j]).deep_view() == all[j],
        decreases options@.len() - i,
    {
        let option = &options[i];
        let shown = ElicitationOption {
            value: option.label.clone(),
            label: option.label.clone(),
            description: text::nonempty(option.description.as_str()),
        };
        assert(shown.deep_view() == all[i as int]);
        r.push(shown);
        i = i + 1;
    }
    proof {
        assert(r.deep_view() =~= all);
    }
    r
}

/// Makes the card for the questions of a call.
pub fn elicitation_from_grok(
    nonce: String,
    request: &GrokAskUserQuestionRequest,
    requested_at: Timestamp,
) -> (r: Elicitation)
    ensures
        r.deep_view() == card(nonce@, request.deep_view(), requested_at),
{
    let ghost all = request.questions.deep_view();
    let mut questions: Vec<ElicitationQuestion> = model::empty();
    let mut i: usize = 0;
    while i < request.questions.len()
        invariant
            i <= request.questions@.len(),
            all == request.questions.deep_view(),
            questions.deep_view() == card_questions(all.take(i as int)),
        decreases request.questions@.len() - i,
    {
        let question = &request.questions[i];
        let multi = match question.multi_select {
            Some(flag) => flag,
            None => false,
        };
        proof {
            assert(all.take(i + 1).drop_last() =~= all.take(i as int));
            assert(all.take(i + 1).last() == question.deep_view());
        }
        let mut select = blank_question(
            select_key(i),
            if multi {
                ElicitationFieldKind::MultiSelect
            } else {
                ElicitationFieldKind::SingleSelect
            },
        );
        select.title = Some(question.question.clone());
        select.options = map_options(&question.options);
        assert(select.deep_view() == select_question(question.deep_view(), i as nat));
        let mut other = blank_question(custom_key(i), ElicitationFieldKind::FreeText);
        other.title = Some("Other".to_owned());
        assert(other.deep_view() == custom_question(i as nat));
        model::push(&mut questions, select);
        model::push(&mut questions, other);
        i = i + 1;
    }
    proof {
        assert(all.take(i as int) =~= all);
    }
    let message = if request.questions.len() == 1 {
        request.questions[0].question.clone()
    } else {
        "The agent has a few questions.".to_owned()
    };
    Elicitation {
        nonce,
        message,
        title: None,
        description: None,
        tool_call_id: Some(request.tool_call_id.clone()),
        questions,
        requested_at,
        resolved: None,
    }
}

/// The answer that declines.
pub open spec fn cancelled_json() -> JsonV {
    JsonV::Object(seq![("outcome"@, JsonV::Text("cancelled"@))])
}

fn cancelled() -> (r: Json)
    ensures
        r.deep_view() == cancelled_json(),
{
    json::object_of("outcome", Json::Text("cancelled".to_owned()))
}

/// What the field with the key `key` was filled in with.
pub open spec fn filled(
    content: Seq<(Seq<char>, ElicitationContentValueV)>,
    key: Seq<char>,
) -> Option<ElicitationContentValueV>
    decreases content.len(),
{
    if content.len() == 0 {
        None
    } else if content[0].0 == key {
        Some(content[0].1)
    } else {
        filled(content.drop_first(), key)
    }
}

/// The texts of a list that are not blank, trimmed.
pub open spec fn nonempty_texts(values: Seq<Seq<char>>) -> Seq<Seq<char>>
    decreases values.len(),
{
    if values.len() == 0 {
        seq![]
    } else {
        model::with_some(
            nonempty_texts(values.drop_last()),
            text::nonempty_text(values.last()),
        )
    }
}

/// The choices that were picked.
pub open spec fn labels(value: Option<ElicitationContentValueV>) -> Seq<Seq<char>> {
    match value {
        Some(ElicitationContentValueV::Text(text)) => model::with_some(
            seq![],
            text::nonempty_text(text),
        ),
        Some(ElicitationContentValueV::TextList(values)) => nonempty_texts(values),
        _ => seq![],
    }
}

/// What was written into a box for anything else.
pub open spec fn notes(value: Option<ElicitationContentValueV>) -> Option<Seq<char>> {
    match value {
        Some(ElicitationContentValueV::Text(text)) => text::nonempty_text(text),
        _ => None,
    }
}

/// The preview of the first choice with the label `label`.
pub open spec fn preview_of(options: Seq<GrokOptionV>, label: Seq<char>) -> Option<Seq<char>>
    decreases options.len(),
{
    if options.len() == 0 {
        None
    } else if options[0].label == label {
        match options[0].preview {
            Some(preview) => text::nonempty_text(preview),
            None => None,
        }
    } else {
        preview_of(options.drop_first(), label)
    }
}

/// The labels that a question is answered with: those that were picked, and
/// `Other` where only the box was used.
pub open spec fn answer_labels(picked: Seq<Seq<char>>) -> Seq<Seq<char>> {
    if picked.len() == 0 {
        seq!["Other"@]
    } else {
        picked
    }
}

/// The preview that an answer echoes: that of the one choice that was picked
/// where only one can be.
pub open spec fn answer_preview(
    question: GrokQuestionV,
    given: Seq<Seq<char>>,
) -> Option<Seq<char>> {
    if !is_multi(question) && given.len() == 1 {
        preview_of(question.options, given[0])
    } else {
        None
    }
}

/// What is noted beside an answer.
pub open spec fn annotation(preview: Option<Seq<char>>, written: Option<Seq<char>>) -> JsonV {
    let echoed = model::with_some(
        Seq::<(Seq<char>, JsonV)>::empty(),
        match preview {
            Some(preview) => Some(("preview"@, JsonV::Text(preview))),
            None => None,
        },
    );
    JsonV::Object(
        model::with_some(
            echoed,
            match written {
                Some(written) => Some(("notes"@, JsonV::Text(written))),
                None => None,
            },
        ),
    )
}

/// The JSON form of a list of texts.
pub open spec fn texts_json(texts: Seq<Seq<char>>) -> JsonV {
    JsonV::Array(texts.map_values(|text: Seq<char>| JsonV::Text(text)))
}

/// The answers and annotations collected from the first questions.
#[verifier::ext_equal]
pub struct Collected {
    pub answers: Seq<(Seq<char>, JsonV)>,
    pub annotations: Seq<(Seq<char>, JsonV)>,
}

/// What is collected once a question with the picked choices `picked` and the
/// written notes `written` is added. A question that was left blank adds
/// nothing.
pub open spec fn collect(
    before: Collected,
    question: GrokQuestionV,
    picked: Seq<Seq<char>>,
    written: Option<Seq<char>>,
) -> Collected {
    if picked.len() == 0 && written is None {
        before
    } else {
        let given = answer_labels(picked);
        let preview = answer_preview(question, given);
        Collected {
            answers: json::with_entry(before.answers, question.question, texts_json(given)),
            annotations: if preview is Some || written is Some {
                json::with_entry(
                    before.annotations,
                    question.question,
                    annotation(preview, written),
                )
            } else {
                before.annotations
            },
        }
    }
}

/// What is collected from a list of questions.
pub open spec fn collect_all(
    questions: Seq<GrokQuestionV>,
    content: Seq<(Seq<char>, ElicitationContentValueV)>,
) -> Collected
    decreases questions.len(),
{
    if questions.len() == 0 {
        Collected { answers: seq![], annotations: seq![] }
    } else {
        let index = (questions.len() - 1) as nat;
        collect(
            collect_all(questions.drop_last(), content),
            questions.last(),
            labels(filled(content, select_field(index))),
            notes(filled(content, custom_field(index))),
        )
    }
}

/// The agent's answer for a card that was filled in.
pub open spec fn accepted_json(collected: Collected) -> JsonV {
    let told = seq![
        ("outcome"@, JsonV::Text("accepted"@)),
        ("answers"@, JsonV::Object(collected.answers)),
    ];
    JsonV::Object(
        if collected.annotations.len() > 0 {
            told.push(("annotations"@, JsonV::Object(collected.annotations)))
        } else {
            told
        },
    )
}

/// The agent's answer: the answers keyed by the text of their question, with
/// previews and notes beside them, or a cancellation.
pub open spec fn grok_response(
    request: GrokAskUserQuestionRequestV,
    action: ElicitationActionV,
) -> JsonV {
    match action {
        ElicitationActionV::Accept { content } => accepted_json(
            collect_all(
                request.questions,
                match content {
                    Some(content) => content,
                    None => seq![],
                },
            ),
        ),
        _ => cancelled_json(),
    }
}

fn find_filled<'a>(
    content: &'a Vec<(String, ElicitationContentValue)>,
    key: &str,
) -> (r: Option<&'a ElicitationContentValue>)
    ensures
        match r {
            Some(value) => filled(content.deep_view(), key@) == Some(value.deep_view()),
            None => filled(content.deep_view(), key@) is None,
        },
{
    let ghost all = content.deep_view();
    let mut i: usize = 0;
    proof {
        assert(all.skip(0) =~= all);
    }
    while i < content.len()
        invariant
            i <= content@.len(),
            all == content.deep_view(),
            filled(all, key@) == filled(all.skip(i as int), key@),
        decreases content@.len() - i,
    {
        proof {
            assert(all.skip(i as int)[0] == content@[i as int].deep_view());
            assert(all.skip(i as int).drop_first() =~= all.skip(i + 1));
        }
        if text::same(content[i].0.as_str(), key) {
            return Some(&content[i].1);
        }
        i = i + 1;
    }
    None
}

fn nonempty_list(values: &Vec<String>) -> (r: Vec<String>)
    ensures
        r.deep_view() == nonempty_texts(values.deep_view()),
{
    let ghost all = values.deep_view();
    let mut r: Vec<String> = model::empty();
    let mut i: usize = 0;
    while i < values.len()
        invariant
            i <= values@.len(),
            all == values.deep_view(),
            r.deep_view() == nonempty_texts(all.take(i as int)),
        decreases values@.len() - i,
    {
        proof {
            assert(all.take(i + 1).drop_last() =~= all.take(i as int));
            assert(all.take(i + 1).last() == values@[i as int]@);
        }
        model::push_some(&mut r, text::nonempty(values[i].as_str()));
        i = i + 1;
    }
    proof {
        assert(all.take(i as int) =~= all);
    }
    r
}

fn labels_of(content: &Vec<(String, ElicitationContentValue)>, key: &str) -> (r: Vec<String>)
    ensures
        r.deep_view() == labels(filled(content.deep_view(), key@)),
{
    match find_filled(content, key) {
        Some(ElicitationContentValue::Text(text)) => {
            let mut r: Vec<String> = model::empty();
            model::push_some(&mut r, text::nonempty(text.as_str()));
            r
        },
        Some(ElicitationContentValue::TextList(values)) => nonempty_list(values),
        _ => model::empty(),
    }
}

fn notes_of(content: &Vec<(String, ElicitationContentValue)>, key: &str) -> (r: Option<String>)
    ensures
        r.deep_view() == notes(filled(content.deep_view(), key@)),
{
    match find_filled(content, key) {
        Some(ElicitationContentValue::Text(text)) => text::nonempty(text.as_str()),
        _ => None,
    }
}

fn find_preview(options: &Vec<GrokOption>, label: &str) -> (r: Option<String>)
    ensures
        r.deep_view() == preview_of(options.deep_view(), label@),
{
    let ghost all = options.deep_view();
    let mut i: usize = 0;
    proof {
        assert(all.skip(0) =~= all);
    }
    while i < options.len()
        invariant
            i <= options@.len(),
            all == options.deep_view(),
            preview_of(all, label@) == preview_of(all.skip(i as int), label@),
        decreases options@.len() - i,
    {
        proof {
            assert(all.skip(i as int)[0] == options@[i as int].deep_view());
            assert(all.skip(i as int).drop_first() =~= all.skip(i + 1));
        }
        if text::same(options[i].label.as_str(), label) {
            return match &options[i].preview {
                Some(preview) => text::nonempty(preview.as_str()),
                None => None,
            };
        }
        i = i + 1;
    }
    None
}

fn write_annotation(preview: Option<String>, written: Option<String>) -> (r: Json)
    ensures
        r.deep_view() == annotation(preview.deep_view(), written.deep_view()),
{
    let mut entries: Vec<(String, Json)> = model::empty();
    if let Some(preview) = preview {
        model::push(&mut entries, ("preview".to_owned(), Json::Text(preview)));
    }
    if let Some(written) = written {
        model::push(&mut entries, ("notes".to_owned(), Json::Text(written)));
    }
    json::object(entries)
}

fn write_texts(texts: Vec<String>) -> (r: Json)
    ensures
        r.deep_view() == texts_json(texts.deep_view()),
{
    let ghost all = texts_json(texts.deep_view())->Array_0;
    let mut items: Vec<Json> = Vec::new();
    let mut i: usize = 0;
    while i < texts.len()
        invariant
            i <= texts@.len(),
            all == texts_json(texts.deep_view())->Array_0,
            items@.len() == i,
            forall|j: int| 0 <= j < i ==> (#[trigger] items@[j]).deep_view() == all[j],
        decreases texts@.len() - i,
    {
        let item = Json::Text(texts[i].clone());
        assert(item.deep_view() == all[i as int]);
        items.push(item);
        i = i + 1;
    }
    proof {
        assert(items.deep_view() =~= all);
    }
    json::array(items)
}

fn add_answer(
    question: &GrokQuestion,
    picked: Vec<String>,
    written: Option<String>,
    answers: &mut Vec<(String, Json)>,
    annotations: &mut Vec<(String, Json)>,
)
    ensures
        (Collected {
            answers: final(answers).deep_view(),
            annotations: final(annotations).deep_view(),
        }) == collect(
            Collected {
                answers: old(answers).deep_view(),
                annotations: old(annotations).deep_view(),
            },
            question.deep_view(),
            picked.deep_view(),
            written.deep_view(),
        ),
{
    if picked.len() == 0 && written.is_none() {
        return;
    }
    let given = if picked.len() == 0 {
        model::one("Other".to_owned())
    } else {
        picked
    };
    let multi = match question.multi_select {
        Some(flag) => flag,
        None => false,
    };
    let preview = if !multi && given.len() == 1 {
        assert(given.deep_view()[0] == given@[0]@);
        find_preview(&question.options, given[0].as_str())
    } else {
        None
    };
    if preview.is_some() || written.is_some() {
        json::put(annotations, question.question.clone(), write_annotation(preview, written));
    }
    json::put(answers, question.question.clone(), write_texts(given));
}

/// The agent's answer to a card that was closed by `action`.
pub fn grok_response_from_elicitation(
    request: &GrokAskUserQuestionRequest,
    action: &ElicitationAction,
) -> (r: Json)
    ensures
        r.deep_view() == grok_response(request.deep_view(), action.deep_view()),
{
    let content = match action {
        ElicitationAction::Accept { content } => match content {
            Some(content) => content.duplicate(),
            None => model::empty(),
        },
        _ => return cancelled(),
    };
    let ghost all = request.questions.deep_view();
    let ghost given = content.deep_view();
    let mut answers: Vec<(String, Json)> = model::empty();
    let mut annotations: Vec<(String, Json)> = model::empty();
    let mut i: usize = 0;
    while i < request.questions.len()
        invariant
            i <= request.questions@.len(),
            all == request.questions.deep_view(),
            given == content.deep_view(),
            (Collected {
                answers: answers.deep_view(),
                annotations: annotations.deep_view(),
            }) == collect_all(all.take(i as int), given),
        decreases request.questions@.len() - i,
    {
        let question = &request.questions[i];
        proof {
            assert(all.take(i + 1).drop_last() =~= all.take(i as int));
            assert(all.take(i + 1).last() == question.deep_view());
        }
        let select = select_key(i);
        let custom = custom_key(i);
        let picked = labels_of(&content, select.as_str());
        let written = notes_of(&content, custom.as_str());
        add_answer(question, picked, written, &mut answers, &mut annotations);
        i = i + 1;
    }
    proof {
        assert(all.take(i as int) =~= all);
        assert(annotations.deep_view().len() == annotations@.len());
    }
    let annotated = annotations.len() > 0;
    let mut body = model::two(
        ("outcome".to_owned(), Json::Text("accepted".to_owned())),
        ("answers".to_owned(), json::object(answers)),
    );
    if annotated {
        model::push(&mut body, ("annotations".to_owned(), json::object(annotations)));
    }
    json::object(body)
}

/// What a call of the agent leads to: a call without questions is answered
/// at once, and any other is shown.
pub fn handle_grok_ask_request(
    request: &GrokAskUserQuestionRequest,
    nonce: String,
    requested_at: Timestamp,
) -> (r: GrokAskStep)
    ensures
        r.deep_view() == (if request.deep_view().questions.len() == 0 {
            GrokAskStepV::Answer(cancelled_json())
        } else {
            GrokAskStepV::Show(card(nonce@, request.deep_view(), requested_at))
        }),
{
    proof {
        assert(request.deep_view().questions.len() == request.questions@.len());
    }
    if request.questions.len() == 0 {
        GrokAskStep::Answer(cancelled())
    } else {
        GrokAskStep::Show(elicitation_from_grok(nonce, request, requested_at))
    }
}

/// The answer to a call whose card could not be shown.
pub fn grok_ask_not_shown() -> (r: Json)
    ensures
        r.deep_view() == cancelled_json(),
{
    cancelled()
}

/// How a card counts as closed: one that nobody closed counts as cancelled.
pub open spec fn closed(resolution: Option<ElicitationResolutionV>) -> ElicitationResolutionV {
    match resolution {
        Some(resolution) => resolution,
        None => ElicitationResolutionV {
            action: ElicitationActionV::Cancel,
            outcome: ElicitationOutcome::Cancelled,
            answers: seq![],
        },
    }
}

/// What follows once a card was closed: the event that clears it, and the
/// agent's answer. `None` where whoever was to close it has gone.
pub fn grok_ask_closed(
    request: &GrokAskUserQuestionRequest,
    nonce: String,
    resolution: Option<ElicitationResolution>,
) -> (r: (Event, Json))
    ensures
        r.0.deep_view() == (EventV::ElicitationResolved {
            nonce: nonce@,
            outcome: closed(resolution.deep_view()).outcome,
            answers: closed(resolution.deep_view()).answers,
        }),
        r.1.deep_view() == grok_response(
            request.deep_view(),
            closed(resolution.deep_view()).action,
        ),
{
    let resolution = match resolution {
        Some(resolution) => resolution,
        None => ElicitationResolution {
            action: ElicitationAction::Cancel,
            outcome: ElicitationOutcome::Cancelled,
            answers: model::empty(),
        },
    };
    let reply = grok_response_from_elicitation(request, &resolution.action);
    (
        Event::ElicitationResolved {
            nonce,
            outcome: resolution.outcome,
            answers: resolution.answers,
        },
        reply,
    )
}

/// Whatever closes a card other than an acceptance, and nobody closing it,
/// declines.
pub proof fn law_only_acceptance_answers(
    request: GrokAskUserQuestionRequestV,
    resolution: Option<ElicitationResolutionV>,
)
    requires
        !(closed(resolution).action is Accept),
    ensures
        grok_response(request, closed(resolution).action) == cancelled_json(),
{
}

/// A card has two fields for each question: field `2 * i` is the choice of
/// question `i` and field `2 * i + 1` its box. None of them is required.
pub proof fn law_two_fields_per_question(questions: Seq<GrokQuestionV>)
    ensures
        card_questions(questions).len() == 2 * questions.len(),
        forall|i: int| 0 <= i < questions.len() ==> #[trigger] fields_of(questions, i),
    decreases questions.len(),
{
    if questions.len() > 0 {
        let before = questions.drop_last();
        law_two_fields_per_question(before);
        assert forall|i: int| 0 <= i < questions.len() implies #[trigger] fields_of(
            questions,
            i,
        ) by {
            if i < questions.len() - 1 {
                assert(fields_of(before, i));
                assert(before[i] == questions[i]);
                assert(card_questions(questions)[2 * i] == card_questions(before)[2 * i]);
                assert(card_questions(questions)[2 * i + 1] == card_questions(before)[2 * i + 1]);
            }
        }
    }
}

/// Question `i` has its two fields, and neither is required.
pub open spec fn fields_of(questions: Seq<GrokQuestionV>, i: int) -> bool {
    let fields = card_questions(questions);
    &&& fields[2 * i] == select_question(questions[i], i as nat)
    &&& fields[2 * i + 1] == custom_question(i as nat)
    &&& !fields[2 * i].required
    &&& !fields[2 * i + 1].required
}

/// Every answered question is one that was asked.
pub proof fn law_answers_are_to_questions(
    questions: Seq<GrokQuestionV>,
    content: Seq<(Seq<char>, ElicitationContentValueV)>,
    i: int,
)
    requires
        0 <= i < collect_all(questions, content).answers.len(),
    ensures
        exists|j: int|
            0 <= j < questions.len() && (#[trigger] questions[j]).question == collect_all(
                questions,
                content,
            ).answers[i].0,
    decreases questions.len(),
{
    let before = questions.drop_last();
    let earlier = collect_all(before, content).answers;
    let now = collect_all(questions, content).answers;
    let last = questions.last();
    json::lemma_position_range(earlier, last.question);
    if i < earlier.len() && now[i].0 == earlier[i].0 {
        law_answers_are_to_questions(before, content, i);
        let j = choose|j: int|
            0 <= j < before.len() && (#[trigger] before[j]).question == earlier[i].0;
        assert(questions[j].question == now[i].0);
    } else {
        assert(now[i].0 == last.question);
        assert(questions[questions.len() - 1].question == now[i].0);
    }
}

/// What question `i` of a call was answered with; nothing where it was left
/// blank.
pub open spec fn answer_to(
    questions: Seq<GrokQuestionV>,
    content: Seq<(Seq<char>, ElicitationContentValueV)>,
    i: int,
) -> Option<(Seq<char>, JsonV)> {
    let picked = labels(filled(content, select_field(i as nat)));
    let written = notes(filled(content, custom_field(i as nat)));
    if picked.len() == 0 && written is None {
        None
    } else {
        Some((questions[i].question, texts_json(answer_labels(picked))))
    }
}

/// The answers to the first `n` questions of a call, in their order.
pub open spec fn answers_in_order(
    questions: Seq<GrokQuestionV>,
    content: Seq<(Seq<char>, ElicitationContentValueV)>,
    n: int,
) -> Seq<(Seq<char>, JsonV)>
    decreases n,
{
    if n <= 0 {
        seq![]
    } else {
        model::with_some(
            answers_in_order(questions, content, n - 1),
            answer_to(questions, content, n - 1),
        )
    }
}

/// Where no two questions have the same text, the answers stand in the order
/// of the questions, and the questions that were left blank are missing.
pub proof fn law_answers_keep_the_order_of_questions(
    questions: Seq<GrokQuestionV>,
    content: Seq<(Seq<char>, ElicitationContentValueV)>,
    n: int,
)
    requires
        0 <= n <= questions.len(),
        forall|i: int, j: int|
            0 <= i < j < questions.len() ==> (#[trigger] questions[i]).question != (
            #[trigger] questions[j]).question,
    ensures
        collect_all(questions.take(n), content).answers == answers_in_order(questions, content, n),
    decreases n,
{
    if n > 0 {
        law_answers_keep_the_order_of_questions(questions, content, n - 1);
        let first = questions.take(n);
        let before = questions.take(n - 1);
        assert(first.drop_last() =~= before);
        assert(first.last() == questions[n - 1]);
        let earlier = collect_all(before, content).answers;
        let key = questions[n - 1].question;
        json::lemma_position_range(earlier, key);
        let at = json::position(earlier, key);
        if at < earlier.len() {
            law_answers_are_to_questions(before, content, at);
            let j = choose|j: int|
                0 <= j < before.len() && (#[trigger] before[j]).question == earlier[at].0;
            assert(questions[j].question == key);
        }
    } else {
        assert(questions.take(0).len() == 0);
    }
}

/// Whether the field with the key `key` was filled in with `value`: the first
/// entry with the key counts.
pub open spec fn holds_value(
    content: Seq<(Seq<char>, ElicitationContentValueV)>,
    key: Seq<char>,
    value: ElicitationContentValueV,
) -> bool {
    exists|at: int| first_under(content, key, at) && content[at].1 == value
}

/// The entry at `at` is the first with the key `key`.
pub open spec fn first_under(
    content: Seq<(Seq<char>, ElicitationContentValueV)>,
    key: Seq<char>,
    at: int,
) -> bool {
    &&& 0 <= at < content.len()
    &&& content[at].0 == key
    &&& forall|k: int| 0 <= k < at ==> (#[trigger] content[k]).0 != key
}

proof fn lemma_filled_is_first(
    content: Seq<(Seq<char>, ElicitationContentValueV)>,
    key: Seq<char>,
    at: int,
)
    requires
        first_under(content, key, at),
    ensures
        filled(content, key) == Some(content[at].1),
    decreases at,
{
    if at > 0 {
        let rest = content.drop_first();
        assert forall|k: int| 0 <= k < at - 1 implies (#[trigger] rest[k]).0 != key by {
            assert(rest[k] == content[k + 1]);
        }
        assert(content[0].0 != key);
        assert(rest[at - 1] == content[at]);
        lemma_filled_is_first(rest, key, at - 1);
    }
}

proof fn lemma_not_filled(content: Seq<(Seq<char>, ElicitationContentValueV)>, key: Seq<char>)
    requires
        forall|k: int| 0 <= k < content.len() ==> (#[trigger] content[k]).0 != key,
    ensures
        filled(content, key) is None,
    decreases content.len(),
{
    if content.len() > 0 {
        let rest = content.drop_first();
        assert forall|k: int| 0 <= k < rest.len() implies (#[trigger] rest[k]).0 != key by {
            assert(rest[k] == content[k + 1]);
        }
        assert(content[0].0 != key);
        lemma_not_filled(rest, key);
    }
}

/// What is picked from a field that was filled in with `value`: its text, or
/// its texts in their order, trimmed and without the blank ones.
pub open spec fn picked_texts(value: ElicitationContentValueV) -> Seq<Seq<char>> {
    let all = match value {
        ElicitationContentValueV::Text(text) => seq![text],
        ElicitationContentValueV::TextList(texts) => texts,
        ElicitationContentValueV::Other => seq![],
    };
    all.filter(|text: Seq<char>| !text::blank(text)).map_values(
        |text: Seq<char>| text::trimmed(text),
    )
}

proof fn lemma_nonempty_texts(values: Seq<Seq<char>>)
    ensures
        nonempty_texts(values) == picked_texts(ElicitationContentValueV::TextList(values)),
    decreases values.len(),
{
    reveal(Seq::filter);
    if values.len() > 0 {
        lemma_nonempty_texts(values.drop_last());
        text::law_blank_texts_are_none(values.last());
    }
    assert(nonempty_texts(values) =~= picked_texts(ElicitationContentValueV::TextList(values)));
}

proof fn lemma_labels_are_picked(value: ElicitationContentValueV)
    ensures
        labels(Some(value)) == picked_texts(value),
{
    match value {
        ElicitationContentValueV::Text(text) => {
            lemma_nonempty_texts(seq![text]);
            assert(seq![text].drop_last() =~= Seq::<Seq<char>>::empty());
            assert(nonempty_texts(Seq::<Seq<char>>::empty()) =~= Seq::<Seq<char>>::empty());
            assert(nonempty_texts(seq![text]) =~= labels(Some(value)));
        },
        ElicitationContentValueV::TextList(values) => {
            lemma_nonempty_texts(values);
        },
        ElicitationContentValueV::Other => {
            lemma_nonempty_texts(Seq::<Seq<char>>::empty());
            assert(labels(Some(value)) =~= picked_texts(value));
        },
    }
}

/// Whether no two questions have the same text.
pub open spec fn texts_differ(questions: Seq<GrokQuestionV>) -> bool {
    forall|i: int, j: int|
        0 <= i < j < questions.len() ==> (#[trigger] questions[i]).question != (
        #[trigger] questions[j]).question
}

proof fn lemma_questions_are_collected(
    questions: Seq<GrokQuestionV>,
    content: Seq<(Seq<char>, ElicitationContentValueV)>,
    n: int,
    i: int,
)
    requires
        0 <= n <= questions.len(),
        0 <= i < questions.len(),
        texts_differ(questions),
    ensures
        ({
            let all = collect_all(questions.take(n), content);
            let key = questions[i].question;
            let picked = labels(filled(content, select_field(i as nat)));
            let written = notes(filled(content, custom_field(i as nat)));
            let preview = answer_preview(questions[i], answer_labels(picked));
            let answered = i < n && (picked.len() > 0 || written is Some);
            &&& JsonV::Object(all.answers).get(key) == if answered {
                Some(texts_json(answer_labels(picked)))
            } else {
                None
            }
            &&& JsonV::Object(all.annotations).get(key) == if answered && (preview is Some
                || written is Some) {
                Some(annotation(preview, written))
            } else {
                None
            }
        }),
    decreases n,
{
    let first = questions.take(n);
    let key = questions[i].question;
    if n > 0 {
        lemma_questions_are_collected(questions, content, n - 1, i);
        let before = questions.take(n - 1);
        assert(first.drop_last() =~= before);
        assert(first.last() == questions[n - 1]);
        let earlier = collect_all(before, content);
        let index = (n - 1) as nat;
        let last = questions[n - 1];
        let picked = labels(filled(content, select_field(index)));
        let written = notes(filled(content, custom_field(index)));
        let given = answer_labels(picked);
        json::law_set_keys_hold_their_value(earlier.answers, last.question, texts_json(given), key);
        json::law_set_keys_hold_their_value(
            earlier.annotations,
            last.question,
            annotation(answer_preview(last, given), written),
            key,
        );
        if i < n - 1 {
            assert(questions[i].question != questions[n - 1].question);
        } else if i > n - 1 {
            assert(questions[n - 1].question != questions[i].question);
        }
    } else {
        assert(first.len() == 0);
    }
}

/// The keys of the fields of question `i`.
pub open spec fn choice_key(i: int) -> Seq<char> {
    "question_"@ + text::decimal(i as nat)
}

/// The key of the box of question `i`.
pub open spec fn box_key(i: int) -> Seq<char> {
    "question_"@ + text::decimal(i as nat) + "_custom"@
}

proof fn lemma_accepted_json_is_read(collected: Collected, key: Seq<char>)
    ensures
        ({
            let answer = accepted_json(collected);
            &&& answer.get("outcome"@) == Some(JsonV::Text("accepted"@))
            &&& answer.get2("answers"@, key) == JsonV::Object(collected.answers).get(key)
            &&& answer.get2("annotations"@, key) == JsonV::Object(collected.annotations).get(key)
            &&& answer.get("annotations"@) is Some <==> collected.annotations.len() > 0
        }),
{
    reveal_strlit("outcome");
    reveal_strlit("answers");
    reveal_strlit("annotations");
    assert("outcome"@.len() != "annotations"@.len());
    assert("answers"@.len() != "annotations"@.len());
    assert("outcome"@[0] != "answers"@[0]);
    let entries = accepted_json(collected)->Object_0;
    json::law_first_entry_counts(entries, "outcome"@, 0);
    json::law_first_entry_counts(entries, "answers"@, 1);
    json::law_first_entry_counts(entries, "annotations"@, 2);
    if collected.annotations.len() == 0 {
        assert(JsonV::Object(collected.annotations).get(key) is None);
    }
}

proof fn lemma_annotation_is_read(preview: Option<Seq<char>>, written: Option<Seq<char>>)
    ensures
        annotation(preview, written).get("notes"@) == match written {
            Some(text) => Some(JsonV::Text(text)),
            None => None,
        },
        annotation(preview, written).get("preview"@) == match preview {
            Some(text) => Some(JsonV::Text(text)),
            None => None,
        },
{
    reveal_strlit("notes");
    reveal_strlit("preview");
    assert("notes"@.len() != "preview"@.len());
    let entries = annotation(preview, written)->Object_0;
    json::law_first_entry_counts(
        entries,
        "preview"@,
        if preview is Some {
            0
        } else {
            entries.len() as int
        },
    );
    json::law_first_entry_counts(
        entries,
        "notes"@,
        if written is None {
            entries.len() as int
        } else if preview is Some {
            1
        } else {
            0
        },
    );
}

/// What a user writes into the box of a question reaches the agent: trimmed, as
/// the notes under the text of the question, whether or not a choice was picked
/// too, and whether or not that choice has a preview. A blank box leaves no
/// notes.
pub proof fn law_what_is_written_reaches_the_agent(
    request: GrokAskUserQuestionRequestV,
    content: Seq<(Seq<char>, ElicitationContentValueV)>,
    i: int,
    written: Seq<char>,
)
    requires
        0 <= i < request.questions.len(),
        texts_differ(request.questions),
        holds_value(content, box_key(i), ElicitationContentValueV::Text(written)),
    ensures
        ({
            let action = ElicitationActionV::Accept { content: Some(content) };
            let answer = grok_response(request, action);
            let beside = answer.get2("annotations"@, request.questions[i].question);
            if !text::blank(written) {
                &&& beside is Some
                &&& beside->0.get("notes"@) == Some(JsonV::Text(text::trimmed(written)))
                &&& answer.get2("answers"@, request.questions[i].question) is Some
            } else {
                beside is Some ==> beside->0.get("notes"@) is None
            }
        }),
{
    let at = choose|at: int|
        first_under(content, box_key(i), at) && content[at].1 == ElicitationContentValueV::Text(
            written,
        );
    lemma_filled_is_first(content, box_key(i), at);
    text::law_blank_texts_are_none(written);
    let questions = request.questions;
    lemma_questions_are_collected(questions, content, questions.len() as int, i);
    assert(questions.take(questions.len() as int) =~= questions);
    lemma_accepted_json_is_read(collect_all(questions, content), questions[i].question);
    let picked = labels(filled(content, select_field(i as nat)));
    lemma_annotation_is_read(
        answer_preview(questions[i], answer_labels(picked)),
        notes(filled(content, custom_field(i as nat))),
    );
}

/// What a user picks is what the agent is told: the texts that were picked, in
/// their order, trimmed and without blank ones, under the text of the question.
pub proof fn law_what_is_picked_reaches_the_agent(
    request: GrokAskUserQuestionRequestV,
    content: Seq<(Seq<char>, ElicitationContentValueV)>,
    i: int,
    value: ElicitationContentValueV,
)
    requires
        0 <= i < request.questions.len(),
        texts_differ(request.questions),
        holds_value(content, choice_key(i), value),
        picked_texts(value).len() > 0,
    ensures
        ({
            let action = ElicitationActionV::Accept { content: Some(content) };
            let answer = grok_response(request, action);
            let given = answer.get2("answers"@, request.questions[i].question);
            &&& given matches Some(JsonV::Array(items))
            &&& items.len() == picked_texts(value).len()
            &&& forall|k: int|
                0 <= k < items.len() ==> #[trigger] items[k] == JsonV::Text(picked_texts(value)[k])
        }),
{
    let at = choose|at: int| first_under(content, choice_key(i), at) && content[at].1 == value;
    lemma_filled_is_first(content, choice_key(i), at);
    lemma_labels_are_picked(value);
    let questions = request.questions;
    lemma_questions_are_collected(questions, content, questions.len() as int, i);
    assert(questions.take(questions.len() as int) =~= questions);
    lemma_accepted_json_is_read(collect_all(questions, content), questions[i].question);
}

/// Where nothing is picked, a question is answered with `Other` alone if its box
/// was written into; a question that was left blank has no answer and nothing
/// beside it.
pub proof fn law_unpicked_questions(
    request: GrokAskUserQuestionRequestV,
    content: Seq<(Seq<char>, ElicitationContentValueV)>,
    i: int,
)
    requires
        0 <= i < request.questions.len(),
        texts_differ(request.questions),
        forall|k: int| 0 <= k < content.len() ==> (#[trigger] content[k]).0 != choice_key(i),
    ensures
        ({
            let action = ElicitationActionV::Accept { content: Some(content) };
            let answer = grok_response(request, action);
            let key = request.questions[i].question;
            let written = exists|text: Seq<char>|
                !text::blank(text) && #[trigger] holds_value(
                    content,
                    box_key(i),
                    ElicitationContentValueV::Text(text),
                );
            if written {
                answer.get2("answers"@, key) == Some(JsonV::Array(seq![JsonV::Text("Other"@)]))
            } else {
                answer.get2("answers"@, key) is None && answer.get2("annotations"@, key) is None
            }
        }),
{
    let questions = request.questions;
    lemma_not_filled(content, choice_key(i));
    lemma_questions_are_collected(questions, content, questions.len() as int, i);
    assert(questions.take(questions.len() as int) =~= questions);
    lemma_accepted_json_is_read(collect_all(questions, content), questions[i].question);
    lemma_filled_somewhere(content, box_key(i));
    assert(texts_json(seq!["Other"@]) == JsonV::Array(seq![JsonV::Text("Other"@)])) by {
        assert(seq!["Other"@].map_values(|text: Seq<char>| JsonV::Text(text)) =~= seq![
            JsonV::Text("Other"@),
        ]);
    }
    assert forall|text: Seq<char>|
        #[trigger] holds_value(
            content,
            box_key(i),
            ElicitationContentValueV::Text(text),
        ) implies filled(content, box_key(i)) == Some(ElicitationContentValueV::Text(text)) by {
        let at = choose|at: int|
            first_under(content, box_key(i), at) && content[at].1
                == ElicitationContentValueV::Text(text);
        lemma_filled_is_first(content, box_key(i), at);
    }
    if let Some(ElicitationContentValueV::Text(text)) = filled(content, box_key(i)) {
        text::law_blank_texts_are_none(text);
        assert(holds_value(content, box_key(i), ElicitationContentValueV::Text(text)));
    }
}

proof fn lemma_filled_somewhere(
    content: Seq<(Seq<char>, ElicitationContentValueV)>,
    key: Seq<char>,
)
    ensures
        filled(content, key) matches Some(value) ==> holds_value(content, key, value),
    decreases content.len(),
{
    if content.len() > 0 {
        if content[0].0 == key {
            assert(first_under(content, key, 0));
        } else if filled(content, key) is Some {
            let rest = content.drop_first();
            lemma_filled_somewhere(rest, key);
            let value = filled(content, key)->0;
            let at = choose|at: int| first_under(rest, key, at) && rest[at].1 == value;
            assert forall|k: int| 0 <= k < at + 1 implies (#[trigger] content[k]).0 != key by {
                if k > 0 {
                    assert(rest[k - 1] == content[k]);
                }
            }
            assert(first_under(content, key, at + 1));
        }
    }
}

/// The preview of the one choice that was picked is echoed beside the answer to
/// a question that takes one choice, trimmed. Nothing is echoed of a question
/// that takes several, nor of a choice without a preview.
pub proof fn law_the_preview_of_a_choice_is_echoed(
    request: GrokAskUserQuestionRequestV,
    content: Seq<(Seq<char>, ElicitationContentValueV)>,
    i: int,
    picked: Seq<char>,
    at: int,
)
    requires
        0 <= i < request.questions.len(),
        texts_differ(request.questions),
        holds_value(content, choice_key(i), ElicitationContentValueV::Text(picked)),
        !text::blank(picked),
        0 <= at < request.questions[i].options.len(),
        request.questions[i].options[at].label == text::trimmed(picked),
        forall|k: int|
            0 <= k < at ==> (#[trigger] request.questions[i].options[k]).label != text::trimmed(
                picked,
            ),
    ensures
        ({
            let action = ElicitationActionV::Accept { content: Some(content) };
            let answer = grok_response(request, action);
            let beside = answer.get2("annotations"@, request.questions[i].question);
            let preview = request.questions[i].options[at].preview;
            if request.questions[i].multi_select != Some(true) && preview is Some && !text::blank(
                preview->0,
            ) {
                beside is Some && beside->0.get("preview"@) == Some(
                    JsonV::Text(text::trimmed(preview->0)),
                )
            } else {
                beside is Some ==> beside->0.get("preview"@) is None
            }
        }),
{
    let value = ElicitationContentValueV::Text(picked);
    let found = choose|found: int|
        first_under(content, choice_key(i), found) && content[found].1 == value;
    lemma_filled_is_first(content, choice_key(i), found);
    text::law_blank_texts_are_none(picked);
    let questions = request.questions;
    let options = questions[i].options;
    lemma_first_preview(options, text::trimmed(picked), at);
    if let Some(preview) = options[at].preview {
        text::law_blank_texts_are_none(preview);
    }
    lemma_questions_are_collected(questions, content, questions.len() as int, i);
    assert(questions.take(questions.len() as int) =~= questions);
    lemma_accepted_json_is_read(collect_all(questions, content), questions[i].question);
    let given = labels(Some(value));
    assert(given =~= seq![text::trimmed(picked)]);
    lemma_annotation_is_read(
        answer_preview(questions[i], answer_labels(given)),
        notes(filled(content, custom_field(i as nat))),
    );
}

proof fn lemma_first_preview(options: Seq<GrokOptionV>, label: Seq<char>, at: int)
    requires
        0 <= at < options.len(),
        options[at].label == label,
        forall|k: int| 0 <= k < at ==> (#[trigger] options[k]).label != label,
    ensures
        preview_of(options, label) == match options[at].preview {
            Some(preview) => text::nonempty_text(preview),
            None => None,
        },
    decreases at,
{
    if at > 0 {
        let rest = options.drop_first();
        assert forall|k: int| 0 <= k < at - 1 implies (#[trigger] rest[k]).label != label by {
            assert(rest[k] == options[k + 1]);
        }
        assert(options[0].label != label);
        assert(rest[at - 1] == options[at]);
        lemma_first_preview(rest, label, at - 1);
    }
}

/// An accepted card is answered as accepted, with the answers; any other end of
/// it as cancelled, with nothing besides. Without content an accepted card has
/// no answers.
pub proof fn law_the_outcome_is_told(
    request: GrokAskUserQuestionRequestV,
    action: ElicitationActionV,
    key: Seq<char>,
)
    ensures
        ({
            let answer = grok_response(request, action);
            &&& answer is Object
            &&& action is Accept ==> answer.get("outcome"@) == Some(JsonV::Text("accepted"@))
                && answer.get("answers"@) is Some
            &&& action !is Accept ==> answer == JsonV::Object(
                seq![("outcome"@, JsonV::Text("cancelled"@))],
            )
        }),
{
    if let ElicitationActionV::Accept { content } = action {
        let filled_in = match content {
            Some(content) => content,
            None => seq![],
        };
        let collected = collect_all(request.questions, filled_in);
        lemma_accepted_json_is_read(collected, key);
        reveal_strlit("outcome");
        reveal_strlit("answers");
        assert("outcome"@[0] != "answers"@[0]);
        json::law_first_entry_counts(accepted_json(collected)->Object_0, "answers"@, 1);
    }
}

/// Whether a field has no limits, no default and nothing said of it.
pub open spec fn asks_for_nothing_more(field: ElicitationQuestionV) -> bool {
    &&& field.description is None
    &&& field.min_items is None && field.max_items is None
    &&& field.min_length is None && field.max_length is None
    &&& field.minimum is None && field.maximum is None
    &&& field.pattern is None && field.format is None && field.default is None
}

/// The card shows each question as it was asked: its text, its choices in their
/// order under their labels with what is said of them, one or several of which
/// can be picked as was asked, and a box of its own, under the keys from which
/// the answer is read.
pub proof fn law_the_card_shows_what_is_asked(
    nonce: Seq<char>,
    request: GrokAskUserQuestionRequestV,
    requested_at: Timestamp,
    i: int,
)
    requires
        0 <= i < request.questions.len(),
    ensures
        ({
            let shown = card(nonce, request, requested_at);
            let question = request.questions[i];
            let field = shown.questions[2 * i];
            let other = shown.questions[2 * i + 1];
            &&& shown.questions.len() == 2 * request.questions.len()
            &&& field.field_key == choice_key(i)
            &&& field.title == Some(question.question)
            &&& field.kind is MultiSelect <==> question.multi_select == Some(true)
            &&& field.kind is SingleSelect <==> question.multi_select != Some(true)
            &&& !field.required && !other.required
            &&& field.options.len() == question.options.len()
            &&& forall|k: int|
                0 <= k < question.options.len() ==> {
                    &&& (#[trigger] field.options[k]).value == question.options[k].label
                    &&& field.options[k].label == question.options[k].label
                    &&& field.options[k].description == if text::blank(
                        question.options[k].description,
                    ) {
                        None
                    } else {
                        Some(text::trimmed(question.options[k].description))
                    }
                }
            &&& other.field_key == box_key(i)
            &&& other.title == Some("Other"@)
            &&& other.kind is FreeText
            &&& other.options.len() == 0
            &&& asks_for_nothing_more(field) && asks_for_nothing_more(other)
        }),
{
    law_two_fields_per_question(request.questions);
    assert(fields_of(request.questions, i));
    let question = request.questions[i];
    let field = card(nonce, request, requested_at).questions[2 * i];
    assert forall|k: int| 0 <= k < question.options.len() implies {
        &&& (#[trigger] field.options[k]).value == question.options[k].label
        &&& field.options[k].label == question.options[k].label
        &&& field.options[k].description == if text::blank(question.options[k].description) {
            None
        } else {
            Some(text::trimmed(question.options[k].description))
        }
    } by {
        text::law_blank_texts_are_none(question.options[k].description);
    }
}

/// The card stands for the agent's call, is open, and is headed by the question
/// where there is just one.
pub proof fn law_the_card_stands_for_its_call(
    nonce: Seq<char>,
    request: GrokAskUserQuestionRequestV,
    requested_at: Timestamp,
)
    ensures
        ({
            let shown = card(nonce, request, requested_at);
            &&& shown.nonce == nonce
            &&& shown.tool_call_id == Some(request.tool_call_id)
            &&& shown.requested_at == requested_at
            &&& shown.resolved is None
            &&& request.questions.len() == 1 ==> shown.message == request.questions[0].question
            &&& request.questions.len() != 1 ==> shown.message
                == "The agent has a few questions."@
        }),
{
}

/// A card that somebody closed counts as closed in just that way; one that
/// nobody closed counts as cancelled, without answers.
pub proof fn law_a_card_counts_as_it_was_closed(resolution: Option<ElicitationResolutionV>)
    ensures
        match resolution {
            Some(own) => closed(resolution) == own,
            None => closed(resolution).action is Cancel && closed(resolution).outcome is Cancelled
                && closed(resolution).answers.len() == 0,
        },
{
}

}
