//! Mid-turn steering: the request that hands new input to a running turn, and
//! what the agent did with it.

use crate::json;
use crate::json::{Json, JsonV};
use crate::model;
use crate::model::Duplicate;
use crate::text;
use crate::wire;
use crate::wire::{ContentBlock, ContentBlockV};
use vstd::prelude::*;

verus! {

/// What the agent did with a steered message. The agent decides whether a
/// turn was still running when the message arrived.
#[derive(Debug, Clone, Copy, PartialEq, Eq, Structural)]
pub enum SteerOutcome {
    /// The running turn took it.
    Injected,
    /// The turn had ended, and the message was left alone: it has to be sent
    /// as a prompt of its own.
    PromptRequired,
    /// The message was consumed by a turn that nobody asked for. It must not
    /// be sent again.
    StartedNewTurn,
    /// Anything else. Whether the message arrived is not known, so it is not
    /// sent again either.
    Unknown,
}

impl DeepView for SteerOutcome {
    type V = SteerOutcome;

    open spec fn deep_view(&self) -> SteerOutcome {
        *self
    }
}

impl Duplicate for SteerOutcome {
    fn duplicate(&self) -> (r: Self) {
        *self
    }
}

/// A message for a running turn.
#[derive(Debug, PartialEq, Eq)]
pub struct SteerRequest {
    pub session_id: String,
    pub prompt: Vec<ContentBlock>,
    pub meta: Json,
}

/// The model of [`SteerRequest`].
#[verifier::ext_equal]
pub struct SteerRequestV {
    pub session_id: Seq<char>,
    pub prompt: Seq<ContentBlockV>,
    pub meta: JsonV,
}

impl DeepView for SteerRequest {
    type V = SteerRequestV;

    open spec fn deep_view(&self) -> SteerRequestV {
        SteerRequestV {
            session_id: self.session_id.deep_view(),
            prompt: self.prompt.deep_view(),
            meta: self.meta.deep_view(),
        }
    }
}

impl Duplicate for SteerRequest {
    fn duplicate(&self) -> (r: Self) {
        SteerRequest {
            session_id: self.session_id.duplicate(),
            prompt: self.prompt.duplicate(),
            meta: self.meta.duplicate(),
        }
    }
}

/// A message for a running turn of an agent that takes one underscore off the
/// name of a method before it looks the method up.
#[derive(Debug, PartialEq, Eq)]
pub struct GrokSteerRequest {
    pub session_id: String,
    pub prompt: Vec<ContentBlock>,
    pub meta: Json,
}

/// The model of [`GrokSteerRequest`].
#[verifier::ext_equal]
pub struct GrokSteerRequestV {
    pub session_id: Seq<char>,
    pub prompt: Seq<ContentBlockV>,
    pub meta: JsonV,
}

impl DeepView for GrokSteerRequest {
    type V = GrokSteerRequestV;

    open spec fn deep_view(&self) -> GrokSteerRequestV {
        GrokSteerRequestV {
            session_id: self.session_id.deep_view(),
            prompt: self.prompt.deep_view(),
            meta: self.meta.deep_view(),
        }
    }
}

impl Duplicate for GrokSteerRequest {
    fn duplicate(&self) -> (r: Self) {
        GrokSteerRequest {
            session_id: self.session_id.duplicate(),
            prompt: self.prompt.duplicate(),
            meta: self.meta.duplicate(),
        }
    }
}

/// What asks the agent to leave a message alone where no turn is running.
pub open spec fn opt_in() -> JsonV {
    JsonV::Object(
        seq![
            (
                "steering"@,
                JsonV::Object(seq![("idleBehavior"@, JsonV::Text("promptRequired"@))]),
            ),
        ],
    )
}

fn steer_meta() -> (r: Json)
    ensures
        r.deep_view() == opt_in(),
{
    json::object_of(
        "steering",
        json::object_of("idleBehavior", Json::Text("promptRequired".to_owned())),
    )
}

/// The JSON form of a message for a running turn.
pub open spec fn steer_json(
    session_id: Seq<char>,
    prompt: Seq<ContentBlockV>,
    meta: JsonV,
) -> JsonV {
    JsonV::Object(
        seq![
            ("sessionId"@, JsonV::Text(session_id)),
            ("prompt"@, wire::blocks_json(prompt)),
            ("_meta"@, meta),
        ],
    )
}

fn write_steer(session_id: &String, prompt: &Vec<ContentBlock>, meta: &Json) -> (r: Json)
    ensures
        r.deep_view() == steer_json(session_id@, prompt.deep_view(), meta.deep_view()),
{
    let mut entries = model::two(
        ("sessionId".to_owned(), Json::Text(session_id.clone())),
        ("prompt".to_owned(), wire::blocks_to_json(prompt)),
    );
    model::push(&mut entries, ("_meta".to_owned(), meta.duplicate()));
    proof {
        assert(entries.deep_view() =~= seq![
            ("sessionId"@, JsonV::Text(session_id@)),
            ("prompt"@, wire::blocks_json(prompt.deep_view())),
            ("_meta"@, meta.deep_view()),
        ]);
    }
    json::object(entries)
}

impl SteerRequest {
    /// A message for the running turn of a session. It always asks the agent
    /// to leave the message alone where no turn is running.
    pub fn new(session_id: String, prompt: Vec<ContentBlock>) -> (r: Self)
        ensures
            r.deep_view() == (SteerRequestV {
                session_id: session_id@,
                prompt: prompt.deep_view(),
                meta: opt_in(),
            }),
    {
        SteerRequest { session_id, prompt, meta: steer_meta() }
    }

    /// The method under which the message is sent.
    pub fn method() -> (r: &'static str)
        ensures
            r@ == "_session/steering"@,
    {
        "_session/steering"
    }

    /// Whether `method` is that method.
    pub fn matches_method(method: &str) -> (r: bool)
        ensures
            r == (method@ == "_session/steering"@),
    {
        text::same(method, "_session/steering")
    }

    /// The JSON form of the message.
    pub fn to_json(&self) -> (r: Json)
        ensures
            r.deep_view() == steer_json(self.session_id@, self.prompt.deep_view(), self.meta.deep_view()),
    {
        write_steer(&self.session_id, &self.prompt, &self.meta)
    }
}

impl GrokSteerRequest {
    /// A message for the running turn of a session.
    pub fn new(session_id: String, prompt: Vec<ContentBlock>) -> (r: Self)
        ensures
            r.deep_view() == (GrokSteerRequestV {
                session_id: session_id@,
                prompt: prompt.deep_view(),
                meta: opt_in(),
            }),
    {
        GrokSteerRequest { session_id, prompt, meta: steer_meta() }
    }

    /// The method under which the message is sent. One of its underscores is
    /// taken off on the way.
    pub fn method() -> (r: &'static str)
        ensures
            r@ == "__session/steering"@,
    {
        "__session/steering"
    }

    /// Whether `method` is that method.
    pub fn matches_method(method: &str) -> (r: bool)
        ensures
            r == (method@ == "__session/steering"@),
    {
        text::same(method, "__session/steering")
    }

    /// The JSON form of the message.
    pub fn to_json(&self) -> (r: Json)
        ensures
            r.deep_view() == steer_json(self.session_id@, self.prompt.deep_view(), self.meta.deep_view()),
    {
        write_steer(&self.session_id, &self.prompt, &self.meta)
    }
}

/// The text of the first text block, or no text.
pub open spec fn first_text(blocks: Seq<ContentBlockV>) -> Seq<char>
    decreases blocks.len(),
{
    if blocks.len() == 0 {
        seq![]
    } else {
        match blocks[0] {
            ContentBlockV::Text { text, .. } => text,
            ContentBlockV::Other(_) => first_text(blocks.drop_first()),
        }
    }
}

/// The text of the first text block: what a refused prompt can be retried
/// with.
pub fn first_text_block(blocks: &Vec<ContentBlock>) -> (r: String)
    ensures
        r@ == first_text(blocks.deep_view()),
{
    let ghost all = blocks.deep_view();
    let mut i: usize = 0;
    proof {
        assert(all.skip(0) =~= all);
    }
    while i < blocks.len()
        invariant
            i <= blocks@.len(),
            all == blocks.deep_view(),
            first_text(all) == first_text(all.skip(i as int)),
        decreases blocks@.len() - i,
    {
        proof {
            assert(all.skip(i as int)[0] == blocks@[i as int].deep_view());
            assert(all.skip(i as int).drop_first() =~= all.skip(i + 1));
        }
        match &blocks[i] {
            ContentBlock::Text { text, .. } => {
                return text.clone();
            },
            ContentBlock::Other(_) => {},
        }
        i = i + 1;
    }
    let r = String::new();
    proof {
        assert(r@ =~= Seq::<char>::empty());
    }
    r
}

/// What an answer to a steered message says.
pub open spec fn outcome_of(value: JsonV) -> SteerOutcome {
    match value.str_at("outcome"@) {
        Some(outcome) => if outcome == "injected"@ {
            SteerOutcome::Injected
        } else if outcome == "promptRequired"@ {
            SteerOutcome::PromptRequired
        } else if outcome == "startedNewTurn"@ {
            SteerOutcome::StartedNewTurn
        } else {
            SteerOutcome::Unknown
        },
        None => SteerOutcome::Unknown,
    }
}

impl SteerOutcome {
    /// What an answer to a steered message says. An answer that is not
    /// understood is never taken for a success.
    pub fn from_response(value: &Json) -> (r: SteerOutcome)
        ensures
            r == outcome_of(value.deep_view()),
    {
        if value.has_text("outcome", "injected") {
            SteerOutcome::Injected
        } else if value.has_text("outcome", "promptRequired") {
            SteerOutcome::PromptRequired
        } else if value.has_text("outcome", "startedNewTurn") {
            SteerOutcome::StartedNewTurn
        } else {
            SteerOutcome::Unknown
        }
    }
}

/// An answer without a text under `outcome` is unknown, whatever else it
/// holds.
pub proof fn law_malformed_answers_are_unknown(value: JsonV)
    requires
        value.str_at("outcome"@) is None,
    ensures
        outcome_of(value) == SteerOutcome::Unknown,
{
}

/// A message for a running turn goes to its session with all of its pieces, in
/// their order, and with the metadata that it has.
pub proof fn law_a_steered_message_is_sent_whole(
    session_id: Seq<char>,
    prompt: Seq<ContentBlockV>,
    meta: JsonV,
)
    ensures
        ({
            let sent = steer_json(session_id, prompt, meta);
            &&& sent.get("sessionId"@) == Some(JsonV::Text(session_id))
            &&& sent.get("_meta"@) == Some(meta)
            &&& sent.get("prompt"@) matches Some(JsonV::Array(blocks))
            &&& blocks.len() == prompt.len()
            &&& forall|k: int|
                0 <= k < prompt.len() ==> #[trigger] blocks[k] == wire::block_json(prompt[k])
        }),
{
    reveal_strlit("sessionId");
    reveal_strlit("prompt");
    reveal_strlit("_meta");
    assert("sessionId"@.len() != "prompt"@.len());
    assert("sessionId"@.len() != "_meta"@.len());
    assert("prompt"@.len() != "_meta"@.len());
    let entries = steer_json(session_id, prompt, meta)->Object_0;
    json::law_first_entry_counts(entries, "sessionId"@, 0);
    json::law_first_entry_counts(entries, "prompt"@, 1);
    json::law_first_entry_counts(entries, "_meta"@, 2);
}

/// The agent is asked to leave a message alone where no turn is running.
pub proof fn law_an_idle_agent_is_left_alone(
    session_id: Seq<char>,
    prompt: Seq<ContentBlockV>,
)
    ensures
        ({
            let meta = steer_json(session_id, prompt, opt_in()).get("_meta"@);
            &&& meta matches Some(meta)
            &&& meta.get2("steering"@, "idleBehavior"@) == Some(JsonV::Text("promptRequired"@))
        }),
{
    law_a_steered_message_is_sent_whole(session_id, prompt, opt_in());
    let entries = opt_in()->Object_0;
    json::law_first_entry_counts(entries, "steering"@, 0);
    json::law_first_entry_counts(entries[0].1->Object_0, "idleBehavior"@, 0);
}

/// The text of a message is that of its first piece with a text.
pub proof fn law_the_first_text_stands_for_a_message(blocks: Seq<ContentBlockV>, at: int)
    requires
        0 <= at <= blocks.len(),
        forall|k: int| 0 <= k < at ==> (#[trigger] blocks[k]) !is Text,
        at < blocks.len() ==> blocks[at] is Text,
    ensures
        first_text(blocks) == if at < blocks.len() {
            blocks[at]->Text_text
        } else {
            Seq::empty()
        },
    decreases at,
{
    if at > 0 {
        let rest = blocks.drop_first();
        assert forall|k: int| 0 <= k < at - 1 implies (#[trigger] rest[k]) !is Text by {
            assert(rest[k] == blocks[k + 1]);
        }
        assert(blocks[0] !is Text);
        law_the_first_text_stands_for_a_message(rest, at - 1);
    }
}

/// An answer means what its outcome says, and nothing is read into any other.
pub proof fn law_an_answer_means_what_it_says(value: JsonV)
    ensures
        outcome_of(value) is Injected <==> value.str_at("outcome"@) == Some("injected"@),
        outcome_of(value) is PromptRequired <==> value.str_at("outcome"@) == Some(
            "promptRequired"@,
        ),
        outcome_of(value) is StartedNewTurn <==> value.str_at("outcome"@) == Some(
            "startedNewTurn"@,
        ),
{
    reveal_strlit("injected");
    reveal_strlit("promptRequired");
    reveal_strlit("startedNewTurn");
    assert("injected"@.len() != "promptRequired"@.len());
    assert("injected"@.len() != "startedNewTurn"@.len());
    assert("promptRequired"@[0] != "startedNewTurn"@[0]);
}

}
