//! The handshake.

use acp_client::errors::AcpError;
use acp_client::event::RateLimitInfo;
use acp_client::handshake::{
    build_initialize_request, local_io_listed, should_fork, uses_local_io, wait_for_handshake,
    with_stderr, ChildAction, HandshakeWait,
};
use acp_client::json::Json;
use agent_client_protocol::schema::v1::{ForkSessionResponse, SessionCapabilities};

#[test]
fn initialize_request_carries_non_empty_client_info() {
    let req = build_initialize_request(false, "1.2.3");
    let info = req.client_info.expect("client_info must be set");
    assert_eq!(info.name, "agent-of-empires");
    assert!(!info.version.is_empty());
    assert_eq!(info.version, "1.2.3");
}

#[test]
fn delegating_agents_are_offered_fs_and_terminal() {
    let caps = build_initialize_request(false, "1.2.3").client_capabilities;
    assert!(caps.terminal);
    assert!(caps.fs.read_text_file && caps.fs.write_text_file);
    assert!(caps.elicitation.is_some());
}

#[test]
fn local_io_agents_are_offered_neither_but_keep_elicitation() {
    let caps = build_initialize_request(true, "1.2.3").client_capabilities;
    assert!(!caps.terminal);
    assert!(!caps.fs.read_text_file && !caps.fs.write_text_file);
    assert!(caps.elicitation.is_some());
}

#[test]
fn local_io_matches_agent_key_or_tool_exactly() {
    let listed = vec!["grok".to_string()];
    assert!(local_io_listed(&listed, &["default", "grok"]));
    assert!(local_io_listed(&listed, &["grok", ""]));
    assert!(!local_io_listed(&listed, &["codex", "codex"]));
    assert!(!local_io_listed(&listed, &["grok-build", "groks"]));
    assert!(!local_io_listed(&[], &["grok"]));
    assert!(!local_io_listed(&["".to_string()], &["", ""]));
}

#[test]
fn should_fork_requires_capability_and_parent() {
    assert!(should_fork(Some("parent"), true));
    assert!(!should_fork(Some("parent"), false));
    assert!(!should_fork(None, true));
    assert!(!should_fork(Some(""), true));
}

#[test]
fn acp_fork_capability_and_response_wire_keys_are_stable() {
    let caps: SessionCapabilities = serde_json::from_str(r#"{"fork": {}}"#).expect("caps parse");
    assert!(
        caps.fork.is_some(),
        "the `fork` capability key must deserialize into SessionCapabilities.fork"
    );
    let no_fork: SessionCapabilities = serde_json::from_str("{}").expect("empty caps parse");
    assert!(no_fork.fork.is_none());
    let resp: ForkSessionResponse =
        serde_json::from_str(r#"{"sessionId": "child-123"}"#).expect("fork response parse");
    assert_eq!(resp.session_id.0.as_ref(), "child-123");
}

#[test]
fn without_a_configuration_no_agent_does_its_own_io() {
    let listed = vec!["grok".to_string()];
    assert!(uses_local_io(Some(&listed), &["grok"]));
    assert!(!uses_local_io(None, &["grok"]));
}

#[test]
fn the_wait_for_the_handshake_ends_in_one_of_four_ways() {
    let (ready, child) = wait_for_handshake(HandshakeWait::Ready, None, None);
    assert_eq!((ready, child), (Ok(()), ChildAction::Keep));

    let (failed, child) = wait_for_handshake(
        HandshakeWait::Failed(AcpError::Spawn("no".to_string())),
        None,
        None,
    );
    assert_eq!((failed, child), (Err(AcpError::Spawn("no".to_string())), ChildAction::Inspect));

    let (dropped, child) = wait_for_handshake(HandshakeWait::Dropped, None, None);
    assert_eq!(child, ChildAction::Keep);
    assert_eq!(
        dropped,
        Err(AcpError::Spawn(
            "ACP connection task ended before completing the initialize handshake".to_string()
        ))
    );

    let (late, child) =
        wait_for_handshake(HandshakeWait::TimedOut, Some("npm i -g adapter".to_string()), None);
    assert_eq!(child, ChildAction::Kill);
    assert_eq!(
        late,
        Err(AcpError::Spawn(
            "agent did not complete the ACP initialize handshake within 30s. Common causes: \
             the adapter is still downloading on first run, or the configured agent command \
             isn't a real ACP server. Try `npm i -g adapter` and re-run."
                .to_string()
        ))
    );
}

#[test]
fn an_agent_that_dies_in_the_handshake_shows_its_stderr() {
    let died = || Some("adapter: node not found".to_string());
    let spawn = |message: &str| AcpError::Spawn(message.to_string());
    let (failed, child) = wait_for_handshake(HandshakeWait::Failed(spawn("no")), None, died());
    assert_eq!(failed, Err(spawn("no\nadapter: node not found")));
    assert_eq!(child, ChildAction::Inspect);
    for wait in [HandshakeWait::Dropped, HandshakeWait::TimedOut] {
        match wait_for_handshake(wait, None, died()).0 {
            Err(AcpError::Spawn(message)) => {
                assert!(message.ends_with("\nadapter: node not found"), "{message}")
            }
            other => panic!("expected an error, got {other:?}"),
        }
    }
    assert_eq!(wait_for_handshake(HandshakeWait::Ready, None, died()).0, Ok(()));

    assert_eq!(with_stderr(spawn("no"), None), spawn("no"));
    let unfit = |message: &str| AcpError::IncompatibleAgent {
        detail: Json::Null,
        message: message.to_string(),
    };
    assert_eq!(with_stderr(unfit("too old"), died()), unfit("too old\nadapter: node not found"));
    let limit = || AcpError::RateLimited(RateLimitInfo { resets_at: None, detail: Json::Null });
    assert_eq!(with_stderr(limit(), died()), limit());
}
