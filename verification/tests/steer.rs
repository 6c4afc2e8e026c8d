//! Messages for a running turn.

use acp_client::json::{Json, JsonNumber};
use acp_client::steer::{first_text_block, GrokSteerRequest, SteerOutcome, SteerRequest};
use acp_client::wire::ContentBlock;

fn text_block(text: &str) -> ContentBlock {
    ContentBlock::Text { text: text.to_string(), annotations: None, meta: None }
}

fn object(entries: Vec<(&str, Json)>) -> Json {
    Json::Object(entries.into_iter().map(|(k, v)| (k.to_string(), v)).collect())
}

fn text(value: &str) -> Json {
    Json::Text(value.to_string())
}

#[test]
fn steer_request_carries_the_prompt_required_opt_in() {
    let req = SteerRequest::new("sess-1".to_string(), vec![text_block("also check the tests")]);
    let wire = req.to_json();
    assert_eq!(wire.get("sessionId").unwrap().as_str(), Some("sess-1"));
    assert_eq!(
        wire.get2("_meta", "steering").unwrap().get("idleBehavior").unwrap().as_str(),
        Some("promptRequired")
    );
    match wire.get("prompt").unwrap() {
        Json::Array(blocks) => {
            assert_eq!(blocks[0].get("text").unwrap().as_str(), Some("also check the tests"));
            assert_eq!(blocks[0].get("type").unwrap().as_str(), Some("text"));
        }
        other => panic!("a prompt is a list, got {other:?}"),
    }
}

#[test]
fn grok_steer_keeps_the_underscore_its_handler_matches() {
    assert!(SteerRequest::matches_method("_session/steering"));
    assert!(!SteerRequest::matches_method("__session/steering"));
    assert!(GrokSteerRequest::matches_method("__session/steering"));
    assert!(!GrokSteerRequest::matches_method("_session/steering"));
    let req = GrokSteerRequest::new("sess-1".to_string(), Vec::new());
    let wire = req.to_json();
    assert_eq!(
        wire.get2("_meta", "steering").unwrap().get("idleBehavior").unwrap().as_str(),
        Some("promptRequired")
    );
}

#[test]
fn steer_outcome_maps_every_wire_form() {
    for (value, expected) in [
        (object(vec![("outcome", text("injected"))]), SteerOutcome::Injected),
        (
            object(vec![
                ("outcome", text("promptRequired")),
                ("reason", text("noRunningTurn")),
            ]),
            SteerOutcome::PromptRequired,
        ),
        (object(vec![("outcome", text("startedNewTurn"))]), SteerOutcome::StartedNewTurn),
        // Forward-compat and malformed shapes both fall to Unknown.
        (object(vec![("outcome", text("teleported"))]), SteerOutcome::Unknown),
        (
            object(vec![("outcome", Json::Number(JsonNumber::PosInt(7)))]),
            SteerOutcome::Unknown,
        ),
        (object(vec![]), SteerOutcome::Unknown),
        (Json::Null, SteerOutcome::Unknown),
    ] {
        assert_eq!(SteerOutcome::from_response(&value), expected, "{value:?}");
    }
}

#[test]
fn the_first_text_of_a_prompt_is_found_behind_other_blocks() {
    let blocks = vec![
        ContentBlock::Other(object(vec![("type", text("image"))])),
        text_block("look at this"),
        text_block("and this"),
    ];
    assert_eq!(first_text_block(&blocks), "look at this");
    assert_eq!(first_text_block(&vec![]), "");
}
