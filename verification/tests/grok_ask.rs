//! Questions that an agent asks through its own method.

use acp_client::event::{AnsweredQuestion, ElicitationFieldKind, ElicitationOutcome, Event};
use acp_client::grok_ask::{
    elicitation_from_grok, grok_ask_closed, grok_ask_not_shown, grok_response_from_elicitation,
    handle_grok_ask_request, ElicitationAction, ElicitationContentValue, ElicitationResolution,
    GrokAskMode, GrokAskStep, GrokAskUserQuestionRequest, GrokOption, GrokQuestion,
};
use acp_client::json::Json;
use acp_client::time::Timestamp;

const ASK_METHOD: &str = "x.ai/ask_user_question";

const RECIPE_DSL_QUESTION: &str = "recipe-dsl 0.13.0 is released: main 0ee5c5b matches origin, signed tag v0.13.0 is on the remote, and the PyPI wheel matches the local file. The 0.13.1 items were left as candidates. Which should I start?";

fn now() -> Timestamp {
    Timestamp { secs: 1_790_386_748, nanos: 0 }
}

fn option(label: &str, description: &str, preview: Option<&str>) -> GrokOption {
    GrokOption {
        label: label.to_string(),
        description: description.to_string(),
        preview: preview.map(str::to_string),
    }
}

fn question(text: &str, options: Vec<GrokOption>, multi_select: Option<bool>) -> GrokQuestion {
    GrokQuestion { question: text.to_string(), options, multi_select }
}

fn request_of(questions: Vec<GrokQuestion>) -> GrokAskUserQuestionRequest {
    GrokAskUserQuestionRequest {
        session_id: "s".to_string(),
        tool_call_id: "t".to_string(),
        questions,
        mode: GrokAskMode::Default,
    }
}

fn recipe_dsl_request() -> GrokAskUserQuestionRequest {
    GrokAskUserQuestionRequest {
        session_id: "01a0db57-53d8-7381-a471-da914492a50d".to_string(),
        tool_call_id: "call-add62236-bde7-4b91-865e-db4b2359716b-30".to_string(),
        questions: vec![question(
            RECIPE_DSL_QUESTION,
            vec![
                option(
                    "Leave 0.13.0 (Recommended)",
                    "No code changes. I stay idle until a bug report or until you pick a 0.13.1 item.",
                    None,
                ),
                option(
                    "IF() outside SET",
                    "The gap the 0.13.0 changelog already names: IF() in LOG and other non-SET positions still uses the old name rules.",
                    None,
                ),
                option(
                    "Null-page OUTPUT",
                    "OUTPUT of the page binding after a null page still emits a null row.",
                    None,
                ),
                option(
                    "DateCheck scalar gap",
                    "DateCheck in a scalar context is still not detected by the stream gate.",
                    None,
                ),
            ],
            None,
        )],
        mode: GrokAskMode::Default,
    }
}

fn picked(text: &str) -> ElicitationContentValue {
    ElicitationContentValue::Text(text.to_string())
}

fn content_of(pairs: Vec<(&str, ElicitationContentValue)>) -> ElicitationAction {
    ElicitationAction::Accept {
        content: Some(pairs.into_iter().map(|(key, value)| (key.to_string(), value)).collect()),
    }
}

fn labels(items: &[&str]) -> Json {
    Json::Array(items.iter().map(|item| Json::Text(item.to_string())).collect())
}

fn cancelled() -> Json {
    Json::Object(vec![("outcome".to_string(), Json::Text("cancelled".to_string()))])
}

#[test]
fn method_is_the_grok_ext_method() {
    assert!(GrokAskUserQuestionRequest::matches_method(ASK_METHOD));
    assert!(!GrokAskUserQuestionRequest::matches_method("elicitation/create"));
    assert_eq!(GrokAskUserQuestionRequest::method(), ASK_METHOD);
}

#[test]
fn recipe_dsl_fixture_becomes_a_single_select_card_with_other() {
    let request = recipe_dsl_request();
    let card = elicitation_from_grok("nonce".to_string(), &request, now());

    assert_eq!(
        card.tool_call_id.as_deref(),
        Some("call-add62236-bde7-4b91-865e-db4b2359716b-30")
    );
    assert_eq!(card.message, RECIPE_DSL_QUESTION);
    assert_eq!(card.questions.len(), 2);

    let select = &card.questions[0];
    assert_eq!(select.field_key, "question_0");
    assert_eq!(select.kind, ElicitationFieldKind::SingleSelect);
    assert_eq!(select.title.as_deref(), Some(RECIPE_DSL_QUESTION));
    assert!(!select.required);
    let labels: Vec<_> = select.options.iter().map(|option| option.label.as_str()).collect();
    assert_eq!(
        labels,
        [
            "Leave 0.13.0 (Recommended)",
            "IF() outside SET",
            "Null-page OUTPUT",
            "DateCheck scalar gap",
        ]
    );
    assert_eq!(
        select.options[0].description.as_deref(),
        Some("No code changes. I stay idle until a bug report or until you pick a 0.13.1 item.")
    );
    assert_eq!(select.options[0].value, "Leave 0.13.0 (Recommended)");

    let other = &card.questions[1];
    assert_eq!(other.field_key, "question_0_custom");
    assert_eq!(other.kind, ElicitationFieldKind::FreeText);
    assert_eq!(other.title.as_deref(), Some("Other"));
    assert!(!other.required);
}

#[test]
fn recipe_dsl_choice_is_keyed_by_the_question_text() {
    let request = recipe_dsl_request();
    let response = content_of(vec![("question_0", picked("Leave 0.13.0 (Recommended)"))]);
    let wire = grok_response_from_elicitation(&request, &response);
    assert_eq!(wire.get("outcome").unwrap().as_str(), Some("accepted"));
    assert!(wire.get("annotations").is_none());
    assert_eq!(
        wire.get2("answers", RECIPE_DSL_QUESTION).unwrap(),
        &labels(&["Leave 0.13.0 (Recommended)"])
    );
}

#[test]
fn freeform_only_is_other_plus_notes() {
    let request = recipe_dsl_request();
    let response = content_of(vec![("question_0_custom", picked("  start the IF() gap  "))]);
    let wire = grok_response_from_elicitation(&request, &response);
    assert_eq!(wire.get2("answers", RECIPE_DSL_QUESTION).unwrap(), &labels(&["Other"]));
    let annotation = wire.get2("annotations", RECIPE_DSL_QUESTION).unwrap();
    assert_eq!(annotation.get("notes").unwrap().as_str(), Some("start the IF() gap"));
    assert!(annotation.get("preview").is_none());
}

#[test]
fn selected_option_keeps_preview_and_typed_notes() {
    let request = request_of(vec![question(
        "Which layout?",
        vec![option("Grid", "rows", Some("<div>grid</div>")), option("Flex", "line", None)],
        None,
    )]);
    let response = content_of(vec![
        ("question_0", picked("Grid")),
        ("question_0_custom", picked("use the header row")),
    ]);
    let wire = grok_response_from_elicitation(&request, &response);
    assert_eq!(wire.get2("answers", "Which layout?").unwrap(), &labels(&["Grid"]));
    let annotation = wire.get2("annotations", "Which layout?").unwrap();
    assert_eq!(annotation.get("preview").unwrap().as_str(), Some("<div>grid</div>"));
    assert_eq!(annotation.get("notes").unwrap().as_str(), Some("use the header row"));
}

#[test]
fn multi_select_is_a_list_and_drops_preview() {
    let request = request_of(vec![question(
        "Which checks?",
        vec![option("Lint", "", Some("nope")), option("Tests", "the suite", None)],
        Some(true),
    )]);
    let card = elicitation_from_grok("nonce".to_string(), &request, now());
    assert_eq!(card.questions[0].kind, ElicitationFieldKind::MultiSelect);
    assert_eq!(card.message, "Which checks?");
    assert!(card.questions[0].options[0].description.is_none());

    let response = content_of(vec![(
        "question_0",
        ElicitationContentValue::TextList(vec!["Tests".to_string(), "Lint".to_string()]),
    )]);
    let wire = grok_response_from_elicitation(&request, &response);
    assert_eq!(wire.get2("answers", "Which checks?").unwrap(), &labels(&["Tests", "Lint"]));
    assert!(wire.get("annotations").is_none());
}

#[test]
fn plan_mode_still_parses_as_the_same_card() {
    let mut request = recipe_dsl_request();
    request.mode = GrokAskMode::Plan;
    let card = elicitation_from_grok("nonce".to_string(), &request, now());
    assert_eq!(card.questions.len(), 2);
    assert_eq!(card.message, RECIPE_DSL_QUESTION);
}

#[test]
fn skip_and_cancel_are_cancelled() {
    let request = recipe_dsl_request();
    for action in [ElicitationAction::Decline, ElicitationAction::Cancel] {
        let wire = grok_response_from_elicitation(&request, &action);
        assert_eq!(wire, cancelled());
    }
}

#[test]
fn several_questions_keep_answer_order_and_omit_blanks() {
    let request = request_of(vec![
        question("First?", vec![option("A", "a", None)], None),
        question("Second?", vec![option("B", "b", None)], None),
        question("Third?", vec![option("C", "c", None)], None),
    ]);
    let card = elicitation_from_grok("nonce".to_string(), &request, now());
    assert_eq!(card.message, "The agent has a few questions.");
    let keys: Vec<_> = card.questions.iter().map(|q| q.field_key.as_str()).collect();
    assert_eq!(
        keys,
        [
            "question_0",
            "question_0_custom",
            "question_1",
            "question_1_custom",
            "question_2",
            "question_2_custom",
        ]
    );

    let response =
        content_of(vec![("question_2", picked("C")), ("question_0", picked("A"))]);
    let wire = grok_response_from_elicitation(&request, &response);
    let keys: Vec<String> = match wire.get("answers").unwrap() {
        Json::Object(entries) => entries.iter().map(|(key, _)| key.clone()).collect(),
        other => panic!("answers are an object, got {other:?}"),
    };
    assert_eq!(keys, ["First?", "Third?"]);
}

#[test]
fn handler_shows_the_recipe_dsl_card_and_returns_the_picked_label() {
    let request = recipe_dsl_request();
    let elicitation = match handle_grok_ask_request(&request, "nonce".to_string(), now()) {
        GrokAskStep::Show(elicitation) => elicitation,
        GrokAskStep::Answer(json) => panic!("unexpected answer {json:?}"),
    };
    assert_eq!(elicitation.questions[0].options[2].label, "Null-page OUTPUT");

    let (event, wire) = grok_ask_closed(
        &request,
        elicitation.nonce.clone(),
        Some(ElicitationResolution {
            action: content_of(vec![("question_0", picked("IF() outside SET"))]),
            outcome: ElicitationOutcome::Accepted,
            answers: vec![AnsweredQuestion {
                question: RECIPE_DSL_QUESTION.to_string(),
                answer: "IF() outside SET".to_string(),
            }],
        }),
    );
    assert_eq!(wire.get("outcome").unwrap().as_str(), Some("accepted"));
    assert_eq!(
        wire.get2("answers", RECIPE_DSL_QUESTION).unwrap(),
        &labels(&["IF() outside SET"])
    );
    match event {
        Event::ElicitationResolved { nonce: got, answers, .. } => {
            assert_eq!(got, elicitation.nonce);
            assert_eq!(answers[0].question, RECIPE_DSL_QUESTION);
            assert_eq!(answers[0].answer, "IF() outside SET");
        }
        other => panic!("unexpected event {other:?}"),
    }
}

#[test]
fn empty_question_list_cancels_without_a_card() {
    let request = request_of(vec![]);
    assert_eq!(
        handle_grok_ask_request(&request, "nonce".to_string(), now()),
        GrokAskStep::Answer(cancelled())
    );
}

#[test]
fn dropped_resolver_cancels_and_clears_the_card() {
    let request = recipe_dsl_request();
    let (event, wire) = grok_ask_closed(&request, "nonce".to_string(), None);
    assert_eq!(wire, cancelled());
    match event {
        Event::ElicitationResolved { nonce, answers, outcome } => {
            assert_eq!(nonce, "nonce");
            assert!(answers.is_empty());
            assert_eq!(outcome, ElicitationOutcome::Cancelled);
        }
        other => panic!("unexpected {other:?}"),
    }
}

#[test]
fn a_card_that_cannot_be_shown_is_cancelled() {
    assert_eq!(grok_ask_not_shown(), cancelled());
}

#[test]
fn ten_questions_have_keys_of_their_own() {
    let questions: Vec<GrokQuestion> = (0..11)
        .map(|i| question(&format!("Q{i}?"), vec![option("A", "a", None)], None))
        .collect();
    let card = elicitation_from_grok("nonce".to_string(), &request_of(questions), now());
    assert_eq!(card.questions[20].field_key, "question_10");
    assert_eq!(card.questions[21].field_key, "question_10_custom");
    assert_eq!(card.requested_at, now());
}

#[test]
fn an_acceptance_without_content_answers_nothing() {
    let request = recipe_dsl_request();
    let wire =
        grok_response_from_elicitation(&request, &ElicitationAction::Accept { content: None });
    assert_eq!(wire.get("outcome").unwrap().as_str(), Some("accepted"));
    assert_eq!(wire.get("answers").unwrap(), &Json::Object(vec![]));
}
