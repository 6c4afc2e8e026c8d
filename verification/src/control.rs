//! The control channel to a runner: attaching to it, and carrying the calls
//! of both sides across it.
//!
//! The runner owns the agent and the turn. Everything else that the client
//! and the agent say to each other crosses the channel as calls. Two id
//! spaces meet here, and neither side sees the other's: a call of the runner
//! is handed to the client under a synthetic id, and a call of the client is
//! handed to the runner under a call id.

use crate::errors::{RpcError, RpcErrorV, SessionError, SessionErrorV};
use crate::event::{Event, EventV, RateLimitInfo, RateLimitInfoV};
use crate::json;
use crate::json::{Json, JsonNumber, JsonV};
use crate::lifecycle::TerminalClaim;
use crate::model;
use crate::model::Duplicate;
use crate::text;
use agent_client_protocol::schema::v1 as schema;
use std::collections::HashMap;
use vstd::prelude::*;
use vstd::string::*;

verus! {

broadcast use vstd::std_specs::hash::group_hash_axioms;

/// Why a turn ended, as an agent says it.
#[derive(Debug, Clone, Copy, PartialEq, Eq, Structural)]
pub enum StopReason {
    EndTurn,
    MaxTokens,
    MaxTurnRequests,
    Refusal,
    Cancelled,
}

impl DeepView for StopReason {
    type V = StopReason;

    open spec fn deep_view(&self) -> StopReason {
        *self
    }
}

impl Duplicate for StopReason {
    fn duplicate(&self) -> (r: Self) {
        *self
    }
}

/// How a prompt ended, as the runner says it.
#[derive(Debug, PartialEq, Eq)]
pub enum PromptOutcome {
    Completed { stop_reason: Option<String> },
    Error { code: i32, message: String, data: Option<Json> },
    /// The runner has lost the agent.
    Aborted,
}

/// The model of [`PromptOutcome`].
#[verifier::ext_equal]
pub enum PromptOutcomeV {
    Completed { stop_reason: Option<Seq<char>> },
    Error { code: i32, message: Seq<char>, data: Option<JsonV> },
    Aborted,
}

impl DeepView for PromptOutcome {
    type V = PromptOutcomeV;

    open spec fn deep_view(&self) -> PromptOutcomeV {
        match self {
            PromptOutcome::Completed { stop_reason } => {
                PromptOutcomeV::Completed {
                    stop_reason: stop_reason.deep_view(),
                }
            },
            PromptOutcome::Error { code, message, data } => {
                PromptOutcomeV::Error {
                    code: code.deep_view(),
                    message: message.deep_view(),
                    data: data.deep_view(),
                }
            },
            PromptOutcome::Aborted => PromptOutcomeV::Aborted,
        }
    }
}

impl Duplicate for PromptOutcome {
    fn duplicate(&self) -> (r: Self) {
        match self {
            PromptOutcome::Completed { stop_reason } => {
                PromptOutcome::Completed {
                    stop_reason: stop_reason.duplicate(),
                }
            },
            PromptOutcome::Error { code, message, data } => {
                PromptOutcome::Error {
                    code: code.duplicate(),
                    message: message.duplicate(),
                    data: data.duplicate(),
                }
            },
            PromptOutcome::Aborted => PromptOutcome::Aborted,
        }
    }
}

/// A frame of the control channel.
#[derive(Debug, PartialEq, Eq)]
pub enum ControlBody {
    Hello { control_protocol_version: u32, session_id: String },
    Attach { control_protocol_version: u32 },
    Initialize { request: Json },
    Initialized { result: Json },
    EstablishSession { method: String, request: Json },
    ResumeSession,
    SessionReady { acp_session_id: String, result: Json },
    HandshakeFailed { error: Json },
    Prompt { request: Json },
    PromptStarted { prompt_req_id: i64 },
    PromptCompleted { prompt_req_id: i64, outcome: PromptOutcome },
    Cancel,
    /// A call of the agent, for the client.
    ServerCall { call_id: u64, method: String, params: Json },
    ServerResult { call_id: u64, result: Json },
    ServerError { call_id: u64, error: Json },
    /// A call of the client, for the agent.
    AgentCall { call_id: u64, method: String, params: Json },
    AgentResult { call_id: u64, result: Json },
    AgentError { call_id: u64, error: Json },
    Notify { method: String, params: Json },
    Other,
}

/// The model of [`ControlBody`].
#[verifier::ext_equal]
pub enum ControlBodyV {
    Hello { control_protocol_version: u32, session_id: Seq<char> },
    Attach { control_protocol_version: u32 },
    Initialize { request: JsonV },
    Initialized { result: JsonV },
    EstablishSession { method: Seq<char>, request: JsonV },
    ResumeSession,
    SessionReady { acp_session_id: Seq<char>, result: JsonV },
    HandshakeFailed { error: JsonV },
    Prompt { request: JsonV },
    PromptStarted { prompt_req_id: i64 },
    PromptCompleted { prompt_req_id: i64, outcome: PromptOutcomeV },
    Cancel,
    ServerCall { call_id: u64, method: Seq<char>, params: JsonV },
    ServerResult { call_id: u64, result: JsonV },
    ServerError { call_id: u64, error: JsonV },
    AgentCall { call_id: u64, method: Seq<char>, params: JsonV },
    AgentResult { call_id: u64, result: JsonV },
    AgentError { call_id: u64, error: JsonV },
    Notify { method: Seq<char>, params: JsonV },
    Other,
}

impl DeepView for ControlBody {
    type V = ControlBodyV;

    open spec fn deep_view(&self) -> ControlBodyV {
        match self {
            ControlBody::Hello { control_protocol_version, session_id } => {
                ControlBodyV::Hello {
                    control_protocol_version: control_protocol_version.deep_view(),
                    session_id: session_id.deep_view(),
                }
            },
            ControlBody::Attach { control_protocol_version } => {
                ControlBodyV::Attach {
                    control_protocol_version: control_protocol_version.deep_view(),
                }
            },
            ControlBody::Initialize { request } => {
                ControlBodyV::Initialize {
                    request: request.deep_view(),
                }
            },
            ControlBody::Initialized { result } => {
                ControlBodyV::Initialized {
                    result: result.deep_view(),
                }
            },
            ControlBody::EstablishSession { method, request } => {
                ControlBodyV::EstablishSession {
                    method: method.deep_view(),
                    request: request.deep_view(),
                }
            },
            ControlBody::ResumeSession => ControlBodyV::ResumeSession,
            ControlBody::SessionReady { acp_session_id, result } => {
                ControlBodyV::SessionReady {
                    acp_session_id: acp_session_id.deep_view(),
                    result: result.deep_view(),
                }
            },
            ControlBody::HandshakeFailed { error } => {
                ControlBodyV::HandshakeFailed {
                    error: error.deep_view(),
                }
            },
            ControlBody::Prompt { request } => {
                ControlBodyV::Prompt {
                    request: request.deep_view(),
                }
            },
            ControlBody::PromptStarted { prompt_req_id } => {
                ControlBodyV::PromptStarted {
                    prompt_req_id: prompt_req_id.deep_view(),
                }
            },
            ControlBody::PromptCompleted { prompt_req_id, outcome } => {
                ControlBodyV::PromptCompleted {
                    prompt_req_id: prompt_req_id.deep_view(),
                    outcome: outcome.deep_view(),
                }
            },
            ControlBody::Cancel => ControlBodyV::Cancel,
            ControlBody::ServerCall { call_id, method, params } => {
                ControlBodyV::ServerCall {
                    call_id: call_id.deep_view(),
                    method: method.deep_view(),
                    params: params.deep_view(),
                }
            },
            ControlBody::ServerResult { call_id, result } => {
                ControlBodyV::ServerResult {
                    call_id: call_id.deep_view(),
                    result: result.deep_view(),
                }
            },
            ControlBody::ServerError { call_id, error } => {
                ControlBodyV::ServerError {
                    call_id: call_id.deep_view(),
                    error: error.deep_view(),
                }
            },
            ControlBody::AgentCall { call_id, method, params } => {
                ControlBodyV::AgentCall {
                    call_id: call_id.deep_view(),
                    method: method.deep_view(),
                    params: params.deep_view(),
                }
            },
            ControlBody::AgentResult { call_id, result } => {
                ControlBodyV::AgentResult {
                    call_id: call_id.deep_view(),
                    result: result.deep_view(),
                }
            },
            ControlBody::AgentError { call_id, error } => {
                ControlBodyV::AgentError {
                    call_id: call_id.deep_view(),
                    error: error.deep_view(),
                }
            },
            ControlBody::Notify { method, params } => {
                ControlBodyV::Notify {
                    method: method.deep_view(),
                    params: params.deep_view(),
                }
            },
            ControlBody::Other => ControlBodyV::Other,
        }
    }
}

impl Duplicate for ControlBody {
    fn duplicate(&self) -> (r: Self) {
        match self {
            ControlBody::Hello { control_protocol_version, session_id } => {
                ControlBody::Hello {
                    control_protocol_version: control_protocol_version.duplicate(),
                    session_id: session_id.duplicate(),
                }
            },
            ControlBody::Attach { control_protocol_version } => {
                ControlBody::Attach {
                    control_protocol_version: control_protocol_version.duplicate(),
                }
            },
            ControlBody::Initialize { request } => {
                ControlBody::Initialize {
                    request: request.duplicate(),
                }
            },
            ControlBody::Initialized { result } => {
                ControlBody::Initialized {
                    result: result.duplicate(),
                }
            },
            ControlBody::EstablishSession { method, request } => {
                ControlBody::EstablishSession {
                    method: method.duplicate(),
                    request: request.duplicate(),
                }
            },
            ControlBody::ResumeSession => ControlBody::ResumeSession,
            ControlBody::SessionReady { acp_session_id, result } => {
                ControlBody::SessionReady {
                    acp_session_id: acp_session_id.duplicate(),
                    result: result.duplicate(),
                }
            },
            ControlBody::HandshakeFailed { error } => {
                ControlBody::HandshakeFailed {
                    error: error.duplicate(),
                }
            },
            ControlBody::Prompt { request } => ControlBody::Prompt { request: request.duplicate() },
            ControlBody::PromptStarted { prompt_req_id } => {
                ControlBody::PromptStarted {
                    prompt_req_id: prompt_req_id.duplicate(),
                }
            },
            ControlBody::PromptCompleted { prompt_req_id, outcome } => {
                ControlBody::PromptCompleted {
                    prompt_req_id: prompt_req_id.duplicate(),
                    outcome: outcome.duplicate(),
                }
            },
            ControlBody::Cancel => ControlBody::Cancel,
            ControlBody::ServerCall { call_id, method, params } => {
                ControlBody::ServerCall {
                    call_id: call_id.duplicate(),
                    method: method.duplicate(),
                    params: params.duplicate(),
                }
            },
            ControlBody::ServerResult { call_id, result } => {
                ControlBody::ServerResult {
                    call_id: call_id.duplicate(),
                    result: result.duplicate(),
                }
            },
            ControlBody::ServerError { call_id, error } => {
                ControlBody::ServerError {
                    call_id: call_id.duplicate(),
                    error: error.duplicate(),
                }
            },
            ControlBody::AgentCall { call_id, method, params } => {
                ControlBody::AgentCall {
                    call_id: call_id.duplicate(),
                    method: method.duplicate(),
                    params: params.duplicate(),
                }
            },
            ControlBody::AgentResult { call_id, result } => {
                ControlBody::AgentResult {
                    call_id: call_id.duplicate(),
                    result: result.duplicate(),
                }
            },
            ControlBody::AgentError { call_id, error } => {
                ControlBody::AgentError {
                    call_id: call_id.duplicate(),
                    error: error.duplicate(),
                }
            },
            ControlBody::Notify { method, params } => {
                ControlBody::Notify {
                    method: method.duplicate(),
                    params: params.duplicate(),
                }
            },
            ControlBody::Other => ControlBody::Other,
        }
    }
}

/// What the two ends of the channel have agreed on.
#[derive(Debug, PartialEq, Eq)]
pub struct ControlProtocol {
    pub version: u32,
    /// The code of an internal error.
    pub internal_error: i64,
    /// The code of an error that says that the channel is gone.
    pub daemon_gone: i64,
    /// The field that says how many bytes an update took on the channel.
    pub frame_bytes_field: String,
}

/// The model of [`ControlProtocol`].
#[verifier::ext_equal]
pub struct ControlProtocolV {
    pub version: u32,
    pub internal_error: i64,
    pub daemon_gone: i64,
    pub frame_bytes_field: Seq<char>,
}

impl DeepView for ControlProtocol {
    type V = ControlProtocolV;

    open spec fn deep_view(&self) -> ControlProtocolV {
        ControlProtocolV {
            version: self.version.deep_view(),
            internal_error: self.internal_error.deep_view(),
            daemon_gone: self.daemon_gone.deep_view(),
            frame_bytes_field: self.frame_bytes_field.deep_view(),
        }
    }
}

impl Duplicate for ControlProtocol {
    fn duplicate(&self) -> (r: Self) {
        ControlProtocol {
            version: self.version.duplicate(),
            internal_error: self.internal_error.duplicate(),
            daemon_gone: self.daemon_gone.duplicate(),
            frame_bytes_field: self.frame_bytes_field.duplicate(),
        }
    }
}

/// What is to be done about a frame of the runner.
#[derive(Debug, PartialEq, Eq)]
pub enum ReaderAction {
    /// The session's identity is settled.
    ResolveIdentity(String),
    /// The frame answers a step of the handshake.
    Handshake(ControlBody),
    /// The waiting prompt has ended.
    Complete(PromptOutcome),
    /// An event is published.
    Publish(Event),
    /// A line is handed to the client.
    WriteLine(Json),
}

/// The model of [`ReaderAction`].
#[verifier::ext_equal]
pub enum ReaderActionV {
    ResolveIdentity(Seq<char>),
    Handshake(ControlBodyV),
    Complete(PromptOutcomeV),
    Publish(EventV),
    WriteLine(JsonV),
}

impl DeepView for ReaderAction {
    type V = ReaderActionV;

    open spec fn deep_view(&self) -> ReaderActionV {
        match self {
            ReaderAction::ResolveIdentity(value) => ReaderActionV::ResolveIdentity(value.deep_view()),
            ReaderAction::Handshake(value) => ReaderActionV::Handshake(value.deep_view()),
            ReaderAction::Complete(value) => ReaderActionV::Complete(value.deep_view()),
            ReaderAction::Publish(value) => ReaderActionV::Publish(value.deep_view()),
            ReaderAction::WriteLine(value) => ReaderActionV::WriteLine(value.deep_view()),
        }
    }
}

impl Duplicate for ReaderAction {
    fn duplicate(&self) -> (r: Self) {
        match self {
            ReaderAction::ResolveIdentity(value) => ReaderAction::ResolveIdentity(value.duplicate()),
            ReaderAction::Handshake(value) => ReaderAction::Handshake(value.duplicate()),
            ReaderAction::Complete(value) => ReaderAction::Complete(value.duplicate()),
            ReaderAction::Publish(value) => ReaderAction::Publish(value.duplicate()),
            ReaderAction::WriteLine(value) => ReaderAction::WriteLine(value.duplicate()),
        }
    }
}

/// What is to be done about a line of the client.
#[derive(Debug, PartialEq, Eq)]
pub enum PumpStep {
    /// Nothing.
    Skip,
    /// A frame is sent. For a call it comes with the call's id on the channel
    /// and its id at the client.
    Send { frame: ControlBody, forward: Option<(u64, Json)> },
}

/// The model of [`PumpStep`].
#[verifier::ext_equal]
pub enum PumpStepV {
    Skip,
    Send { frame: ControlBodyV, forward: Option<(u64, JsonV)> },
}

impl DeepView for PumpStep {
    type V = PumpStepV;

    open spec fn deep_view(&self) -> PumpStepV {
        match self {
            PumpStep::Skip => PumpStepV::Skip,
            PumpStep::Send { frame, forward } => {
                PumpStepV::Send {
                    frame: frame.deep_view(),
                    forward: forward.deep_view(),
                }
            },
        }
    }
}

impl Duplicate for PumpStep {
    fn duplicate(&self) -> (r: Self) {
        match self {
            PumpStep::Skip => PumpStep::Skip,
            PumpStep::Send { frame, forward } => {
                PumpStep::Send {
                    frame: frame.duplicate(),
                    forward: forward.duplicate(),
                }
            },
        }
    }
}

/// What is to be done about a frame that is too large for the channel.
#[derive(Debug, PartialEq, Eq)]
pub enum EncodeFallback {
    /// The client is told so.
    Reply(Json),
    /// Another frame is sent in its place.
    Send(ControlBody),
}

/// The model of [`EncodeFallback`].
#[verifier::ext_equal]
pub enum EncodeFallbackV {
    Reply(JsonV),
    Send(ControlBodyV),
}

impl DeepView for EncodeFallback {
    type V = EncodeFallbackV;

    open spec fn deep_view(&self) -> EncodeFallbackV {
        match self {
            EncodeFallback::Reply(value) => EncodeFallbackV::Reply(value.deep_view()),
            EncodeFallback::Send(value) => EncodeFallbackV::Send(value.deep_view()),
        }
    }
}

impl Duplicate for EncodeFallback {
    fn duplicate(&self) -> (r: Self) {
        match self {
            EncodeFallback::Reply(value) => EncodeFallback::Reply(value.duplicate()),
            EncodeFallback::Send(value) => EncodeFallback::Send(value.duplicate()),
        }
    }
}

/// Who is told how a prompt ends.
#[derive(Debug, Clone, Copy, PartialEq, Eq, Structural)]
pub enum PromptCompletion {
    /// No prompt was sent here: an end that the runner reports is that of a
    /// turn that was running before.
    Adopted,
    /// A prompt waits for its end. It is known by the runner's id for it,
    /// which is not known yet at first.
    Pending { prompt_req_id: Option<i64> },
    /// A prompt was sent here, and none waits.
    LocalIdle,
}

/// Whether a prompt is running, and whose end has been published.
#[derive(Debug, Clone, Copy, PartialEq, Eq, Structural)]
pub struct TurnOwnership {
    pub prompt_in_flight: bool,
    pub terminal: TerminalClaim,
}

/// The state of a control channel.
#[derive(Debug)]
pub struct ControlState {
    pub completion: PromptCompletion,
    /// Synthetic ids, with the runner's ids of the calls.
    pub reverse: HashMap<i64, u64>,
    /// Call ids, with the client's ids of the calls.
    pub forward: HashMap<u64, Json>,
    /// The last synthetic id. They are negative and descend, so that none can
    /// be taken for an id of the client.
    pub next_synthetic: i64,
}

/// The model of [`ControlState`].
#[verifier::ext_equal]
pub struct ControlStateV {
    pub completion: PromptCompletion,
    pub reverse: Map<i64, u64>,
    pub forward: Map<u64, JsonV>,
    pub next_synthetic: i64,
}

impl DeepView for ControlState {
    type V = ControlStateV;

    open spec fn deep_view(&self) -> ControlStateV {
        ControlStateV {
            completion: self.completion,
            reverse: self.reverse@,
            forward: self.forward@.map_values(|id: Json| id.deep_view()),
            next_synthetic: self.next_synthetic,
        }
    }
}

impl ControlStateV {
    /// The synthetic ids in use were given out, and are all negative.
    pub open spec fn wf(self) -> bool {
        &&& self.next_synthetic <= 0
        &&& forall|id: i64| #[trigger]
            self.reverse.contains_key(id) ==> self.next_synthetic <= id < 0
    }
}

/// The next call id of the client. It goes on from one channel to the next.
#[derive(Debug, Clone, Copy, PartialEq, Eq, Structural)]
pub struct ForwardIds {
    pub next: u64,
}

/// The call id that follows `n`.
pub open spec fn id_after(n: u64) -> u64 {
    if n == u64::MAX {
        0
    } else {
        (n + 1) as u64
    }
}

/// The stop reason that a text names.
pub open spec fn stop_reason_of(text: Seq<char>) -> Option<StopReason> {
    if text == "end_turn"@ {
        Some(StopReason::EndTurn)
    } else if text == "max_tokens"@ {
        Some(StopReason::MaxTokens)
    } else if text == "max_turn_requests"@ {
        Some(StopReason::MaxTurnRequests)
    } else if text == "refusal"@ {
        Some(StopReason::Refusal)
    } else if text == "cancelled"@ {
        Some(StopReason::Cancelled)
    } else {
        None
    }
}

/// What `serde_json` says of a stop reason that is not known.
pub uninterp spec fn stop_reason_error_of(text: Seq<char>) -> Seq<char>;

/// `serde_json::from_value::<PromptResponse>` on an object that holds `value`
/// under `field`, where `field` is `stopReason`. The response's enum is
/// written in snake case and has five variants, so the five texts of
/// [`stop_reason_of`] are read and no other is. The text of the error is a
/// function of the value alone, here called [`stop_reason_error_of`].
#[verifier::external_body]
fn read_prompt_response(field: &str, value: &str) -> (r: Result<StopReason, String>)
    requires
        field@ == "stopReason"@,
    ensures
        match r {
            Ok(reason) => stop_reason_of(value@) == Some(reason),
            Err(error) => stop_reason_of(value@) is None && error@ == stop_reason_error_of(value@),
        },
{
    let mut object = serde_json::Map::new();
    object.insert(field.to_owned(), serde_json::Value::String(value.to_owned()));
    let response: schema::PromptResponse = serde_json::from_value(
        serde_json::Value::Object(object),
    ).map_err(|e| e.to_string())?;
    match response.stop_reason {
        schema::StopReason::EndTurn => Ok(StopReason::EndTurn),
        schema::StopReason::MaxTokens => Ok(StopReason::MaxTokens),
        schema::StopReason::MaxTurnRequests => Ok(StopReason::MaxTurnRequests),
        schema::StopReason::Refusal => Ok(StopReason::Refusal),
        schema::StopReason::Cancelled => Ok(StopReason::Cancelled),
        other => Err(format!("{:?}", other)),
    }
}

/// The error that a stop reason which is not known gives.
pub open spec fn unknown_stop_reason(text: Seq<char>) -> SessionErrorV {
    SessionErrorV::Internal("build prompt response: "@ + stop_reason_error_of(text))
}

/// The stop reason that an outcome comes to, where it comes to one: an
/// outcome that names none, and a lost agent, end the turn.
pub open spec fn outcome_stop(outcome: PromptOutcomeV) -> Option<StopReason> {
    match outcome {
        PromptOutcomeV::Completed { stop_reason: Some(reason) } => stop_reason_of(reason),
        PromptOutcomeV::Completed { stop_reason: None } => Some(StopReason::EndTurn),
        PromptOutcomeV::Aborted => Some(StopReason::EndTurn),
        PromptOutcomeV::Error { .. } => None,
    }
}

/// The error that an outcome comes to, where it does not come to a stop
/// reason.
pub open spec fn outcome_error(outcome: PromptOutcomeV) -> SessionErrorV {
    match outcome {
        PromptOutcomeV::Error { code, message, data } => SessionErrorV::Rpc(
            RpcErrorV { code, message, data },
        ),
        PromptOutcomeV::Completed { stop_reason: Some(reason) } => unknown_stop_reason(reason),
        _ => unknown_stop_reason("end_turn"@),
    }
}

fn build_response(stop: &str) -> (r: Result<StopReason, SessionError>)
    ensures
        match r {
            Ok(reason) => stop_reason_of(stop@) == Some(reason),
            Err(error) => stop_reason_of(stop@) is None && error.deep_view() == unknown_stop_reason(
                stop@,
            ),
        },
{
    match read_prompt_response("stopReason", stop) {
        Ok(reason) => Ok(reason),
        Err(error) => Err(
            SessionError::Internal(text::cat("build prompt response: ", error.as_str())),
        ),
    }
}

/// What an outcome that the runner reports comes to. An error keeps its code,
/// message and data, so that it is the same error as without a runner.
pub fn prompt_outcome_to_response(outcome: PromptOutcome) -> (r: Result<StopReason, SessionError>)
    ensures
        match r {
            Ok(reason) => outcome_stop(outcome.deep_view()) == Some(reason),
            Err(error) => outcome_stop(outcome.deep_view()) is None && error.deep_view()
                == outcome_error(outcome.deep_view()),
        },
{
    match outcome {
        PromptOutcome::Completed { stop_reason } => match stop_reason {
            Some(reason) => build_response(reason.as_str()),
            None => build_response("end_turn"),
        },
        PromptOutcome::Aborted => build_response("end_turn"),
        PromptOutcome::Error { code, message, data } => Err(
            SessionError::Rpc(RpcError { code, message, data }),
        ),
    }
}

/// The reason that is given for the end of a turn.
pub open spec fn outcome_reason(outcome: PromptOutcomeV) -> Seq<char> {
    match outcome {
        PromptOutcomeV::Completed { stop_reason: Some(reason) } => if reason == "rate_limited"@
            || reason == "rate_limit"@ {
            "rate_limited"@
        } else if reason == "cancelled"@ || reason == "max_tokens"@ || reason == "refusal"@
            || reason == "max_turn_requests"@ {
            reason
        } else {
            "prompt_complete"@
        },
        _ => "prompt_complete"@,
    }
}

/// The reason that is given for the end of a turn. A limit keeps its own
/// reason, in whichever of its two spellings it comes; the reasons that the
/// protocol knows are kept; everything else is just the end.
pub fn control_outcome_reason(outcome: &PromptOutcome) -> (r: String)
    ensures
        r@ == outcome_reason(outcome.deep_view()),
{
    match outcome {
        PromptOutcome::Completed { stop_reason: Some(reason) } => {
            let reason = reason.as_str();
            if text::same(reason, "rate_limited") || text::same(reason, "rate_limit") {
                "rate_limited".to_owned()
            } else if text::same(reason, "cancelled") || text::same(reason, "max_tokens")
                || text::same(reason, "refusal") || text::same(reason, "max_turn_requests") {
                reason.to_owned()
            } else {
                "prompt_complete".to_owned()
            }
        },
        _ => "prompt_complete".to_owned(),
    }
}

/// The JSON form of an integer.
pub open spec fn int_json(n: i64) -> JsonV {
    if n < 0 {
        JsonV::Number(JsonNumber::NegInt(n))
    } else {
        JsonV::Number(JsonNumber::PosInt(n as u64))
    }
}

fn write_int(n: i64) -> (r: Json)
    ensures
        r.deep_view() == int_json(n),
{
    if n < 0 {
        Json::Number(JsonNumber::NegInt(n))
    } else {
        Json::Number(JsonNumber::PosInt(n as u64))
    }
}

/// An error as JSON.
pub open spec fn error_json(code: i64, message: Seq<char>) -> JsonV {
    JsonV::Object(seq![("code"@, int_json(code)), ("message"@, JsonV::Text(message))])
}

fn write_error(code: i64, message: String) -> (r: Json)
    ensures
        r.deep_view() == error_json(code, message@),
{
    json::object(
        model::two(
            ("code".to_owned(), write_int(code)),
            ("message".to_owned(), Json::Text(message)),
        ),
    )
}

/// The line of an answer: `field` is `result` or `error`.
pub open spec fn answer_line(id: JsonV, field: Seq<char>, value: JsonV) -> JsonV {
    JsonV::Object(seq![("jsonrpc"@, JsonV::Text("2.0"@)), ("id"@, id), (field, value)])
}

fn write_answer(id: Json, field: &str, value: Json) -> (r: Json)
    ensures
        r.deep_view() == answer_line(id.deep_view(), field@, value.deep_view()),
{
    let mut entries = model::two(
        ("jsonrpc".to_owned(), Json::Text("2.0".to_owned())),
        ("id".to_owned(), id),
    );
    model::push(&mut entries, (field.to_owned(), value));
    proof {
        assert(entries.deep_view() =~= answer_line(
            id.deep_view(),
            field@,
            value.deep_view(),
        )->Object_0);
    }
    json::object(entries)
}

/// The line of a call.
pub open spec fn call_line(id: i64, method: Seq<char>, params: JsonV) -> JsonV {
    JsonV::Object(
        seq![
            ("jsonrpc"@, JsonV::Text("2.0"@)),
            ("id"@, int_json(id)),
            ("method"@, JsonV::Text(method)),
            ("params"@, params),
        ],
    )
}

/// The line of a notification.
pub open spec fn notify_line(method: Seq<char>, params: JsonV) -> JsonV {
    JsonV::Object(
        seq![
            ("jsonrpc"@, JsonV::Text("2.0"@)),
            ("method"@, JsonV::Text(method)),
            ("params"@, params),
        ],
    )
}

/// The parameters of a notification as the client gets them: an update says
/// how many bytes it took.
pub open spec fn counted_params(
    method: Seq<char>,
    params: JsonV,
    wire_bytes: u64,
    field: Seq<char>,
) -> JsonV {
    let size = JsonV::Number(JsonNumber::PosInt(wire_bytes));
    if method == "session/update"@ {
        match params {
            JsonV::Object(entries) => JsonV::Object(json::with_entry(entries, field, size)),
            JsonV::Array(items) => JsonV::Array(items.push(size)),
            _ => params,
        }
    } else {
        params
    }
}

fn count_params(method: &str, params: Json, wire_bytes: u64, field: &str) -> (r: Json)
    ensures
        r.deep_view() == counted_params(method@, params.deep_view(), wire_bytes, field@),
{
    if !text::same(method, "session/update") {
        return params;
    }
    let size = Json::Number(JsonNumber::PosInt(wire_bytes));
    match params {
        Json::Object(entries) => {
            let ghost before = params.deep_view()->Object_0;
            let mut entries = entries;
            proof {
                assert(entries.deep_view() =~= before);
            }
            json::put(&mut entries, field.to_owned(), size);
            json::object(entries)
        },
        Json::Array(items) => {
            let ghost before = params.deep_view()->Array_0;
            let mut items = items;
            proof {
                assert(items.deep_view() =~= before);
            }
            model::push(&mut items, size);
            json::array(items)
        },
        other => other,
    }
}

/// What a frame of the runner leads to.
#[verifier::ext_equal]
pub struct ReaderStep {
    pub state: ControlStateV,
    pub turn: TurnOwnership,
    pub actions: Seq<ReaderActionV>,
}

/// The events at the end of an adopted turn. `rate_limit` is the limit that
/// the outcome's error tells of, where it is an error and tells of one.
pub open spec fn adopted_end(
    outcome: PromptOutcomeV,
    rate_limit: Option<RateLimitInfoV>,
) -> Seq<ReaderActionV> {
    match rate_limit {
        Some(info) => if outcome_stop(outcome) is None {
            seq![
                ReaderActionV::Publish(EventV::RateLimit { info }),
                ReaderActionV::Publish(EventV::Stopped { reason: "rate_limited"@ }),
            ]
        } else {
            seq![ReaderActionV::Publish(EventV::Stopped { reason: outcome_reason(outcome) })]
        },
        None => seq![ReaderActionV::Publish(EventV::Stopped { reason: outcome_reason(outcome) })],
    }
}

/// What the end of a prompt, as the runner reports it, leads to. A prompt that
/// waits here is told only of the end under its own id. An adopted turn's end
/// is published where the turn was still running and nobody has published it.
pub open spec fn completion_step(
    state: ControlStateV,
    turn: TurnOwnership,
    prompt_req_id: i64,
    outcome: PromptOutcomeV,
    rate_limit: Option<RateLimitInfoV>,
) -> ReaderStep {
    let ignored = ReaderStep { state, turn, actions: seq![] };
    match state.completion {
        PromptCompletion::Pending { prompt_req_id: Some(id) } => if id == prompt_req_id {
            ReaderStep {
                state: ControlStateV { completion: PromptCompletion::LocalIdle, ..state },
                turn,
                actions: seq![ReaderActionV::Complete(outcome)],
            }
        } else {
            ignored
        },
        PromptCompletion::Adopted => if !turn.prompt_in_flight {
            ignored
        } else {
            ReaderStep {
                state,
                turn: TurnOwnership { prompt_in_flight: false, terminal: turn.terminal.taken() },
                actions: if turn.terminal.is_claimed() {
                    seq![]
                } else {
                    adopted_end(outcome, rate_limit)
                },
            }
        },
        _ => ignored,
    }
}

/// The answer to a call of the client, handed back under the client's own id.
pub open spec fn answer_step(
    state: ControlStateV,
    turn: TurnOwnership,
    call_id: u64,
    field: Seq<char>,
    value: JsonV,
) -> ReaderStep {
    if state.forward.contains_key(call_id) {
        ReaderStep {
            state: ControlStateV { forward: state.forward.remove(call_id), ..state },
            turn,
            actions: seq![
                ReaderActionV::WriteLine(answer_line(state.forward[call_id], field, value)),
            ],
        }
    } else {
        ReaderStep { state, turn, actions: seq![] }
    }
}

/// What a frame of the runner leads to.
pub open spec fn reader_step(
    state: ControlStateV,
    turn: TurnOwnership,
    frame: ControlBodyV,
    wire_bytes: u64,
    protocol: ControlProtocolV,
    rate_limit: Option<RateLimitInfoV>,
) -> ReaderStep {
    let same = ReaderStep { state, turn, actions: seq![] };
    match frame {
        ControlBodyV::Initialized { .. } => ReaderStep {
            actions: seq![ReaderActionV::Handshake(frame)],
            ..same
        },
        ControlBodyV::HandshakeFailed { .. } => ReaderStep {
            actions: seq![ReaderActionV::Handshake(frame)],
            ..same
        },
        ControlBodyV::SessionReady { acp_session_id, .. } => ReaderStep {
            actions: seq![
                ReaderActionV::ResolveIdentity(acp_session_id),
                ReaderActionV::Handshake(frame),
            ],
            ..same
        },
        ControlBodyV::PromptStarted { prompt_req_id } => ReaderStep {
            state: ControlStateV {
                completion: match state.completion {
                    PromptCompletion::Pending { prompt_req_id: None } => PromptCompletion::Pending {
                        prompt_req_id: Some(prompt_req_id),
                    },
                    other => other,
                },
                ..state
            },
            ..same
        },
        ControlBodyV::PromptCompleted { prompt_req_id, outcome } => completion_step(
            state,
            turn,
            prompt_req_id,
            outcome,
            rate_limit,
        ),
        ControlBodyV::ServerCall { call_id, method, params } => {
            let id = (state.next_synthetic - 1) as i64;
            ReaderStep {
                state: ControlStateV {
                    reverse: state.reverse.insert(id, call_id),
                    next_synthetic: id,
                    ..state
                },
                turn,
                actions: seq![ReaderActionV::WriteLine(call_line(id, method, params))],
            }
        },
        ControlBodyV::Notify { method, params } => ReaderStep {
            actions: seq![
                ReaderActionV::WriteLine(
                    notify_line(
                        method,
                        counted_params(method, params, wire_bytes, protocol.frame_bytes_field),
                    ),
                ),
            ],
            ..same
        },
        ControlBodyV::AgentResult { call_id, result } => answer_step(
            state,
            turn,
            call_id,
            "result"@,
            result,
        ),
        ControlBodyV::AgentError { call_id, error } => answer_step(
            state,
            turn,
            call_id,
            "error"@,
            error,
        ),
        _ => same,
    }
}

/// What a line of the client leads to.
#[verifier::ext_equal]
pub struct PumpResult {
    pub state: ControlStateV,
    pub next_id: u64,
    pub step: PumpStepV,
}

/// The error that a line carries, where it carries one.
pub open spec fn line_error(value: JsonV) -> Option<JsonV> {
    match value.get("error"@) {
        Some(error) => if error is Null {
            None
        } else {
            Some(error)
        },
        None => None,
    }
}

/// What an object holds under `key`, or null.
pub open spec fn or_null(value: JsonV, key: Seq<char>) -> JsonV {
    match value.get(key) {
        Some(found) => found,
        None => JsonV::Null,
    }
}

/// The frame that answers a call of the runner. An error that is not well
/// formed is replaced by one that says so.
pub open spec fn reply_frame(
    call_id: u64,
    value: JsonV,
    error_well_formed: bool,
    protocol: ControlProtocolV,
) -> ControlBodyV {
    match line_error(value) {
        Some(error) => ControlBodyV::ServerError {
            call_id,
            error: if error_well_formed {
                error
            } else {
                error_json(protocol.internal_error, "handler produced a malformed error"@)
            },
        },
        None => ControlBodyV::ServerResult { call_id, result: or_null(value, "result"@) },
    }
}

/// What a line of the client leads to: a line with a method is a call, and one
/// without answers a call of the runner. A call without an id and an answer to
/// a call that nobody made are skipped.
pub open spec fn pump_step(
    state: ControlStateV,
    next_id: u64,
    value: JsonV,
    error_well_formed: bool,
    protocol: ControlProtocolV,
) -> PumpResult {
    let skip = PumpResult { state, next_id, step: PumpStepV::Skip };
    match value.str_at("method"@) {
        Some(method) => match value.get("id"@) {
            Some(id) => PumpResult {
                state,
                next_id: id_after(next_id),
                step: PumpStepV::Send {
                    frame: ControlBodyV::AgentCall {
                        call_id: next_id,
                        method,
                        params: or_null(value, "params"@),
                    },
                    forward: Some((next_id, id)),
                },
            },
            None => skip,
        },
        None => match value.i64_at("id"@) {
            Some(id) => if state.reverse.contains_key(id) {
                PumpResult {
                    state: ControlStateV { reverse: state.reverse.remove(id), ..state },
                    next_id,
                    step: PumpStepV::Send {
                        frame: reply_frame(
                            state.reverse[id],
                            value,
                            error_well_formed,
                            protocol,
                        ),
                        forward: None,
                    },
                }
            } else {
                skip
            },
            None => skip,
        },
    }
}

/// The state while a frame is being sent: where the frame is a call of the
/// client, its answer is awaited from now on.
pub open spec fn awaiting(state: ControlStateV, forward: Option<(u64, JsonV)>) -> ControlStateV {
    match forward {
        Some((call_id, id)) => ControlStateV { forward: state.forward.insert(call_id, id), ..state },
        None => state,
    }
}

fn get_or_null(value: &Json, key: &str) -> (r: Json)
    ensures
        r.deep_view() == or_null(value.deep_view(), key@),
{
    match value.get(key) {
        Some(found) => found.duplicate(),
        None => Json::Null,
    }
}

impl ControlState {
    /// A channel that nothing has crossed yet. A turn may be running.
    pub fn new() -> (r: Self)
        ensures
            r.deep_view() == (ControlStateV {
                completion: PromptCompletion::Adopted,
                reverse: Map::empty(),
                forward: Map::empty(),
                next_synthetic: 0,
            }),
            r.deep_view().wf(),
    {
        let r = ControlState {
            completion: PromptCompletion::Adopted,
            reverse: HashMap::new(),
            forward: HashMap::new(),
            next_synthetic: 0,
        };
        proof {
            assert(r.deep_view().forward =~= Map::<u64, JsonV>::empty());
        }
        r
    }

    fn publish_adopted_end(
        outcome: PromptOutcome,
        rate_limit: Option<RateLimitInfo>,
    ) -> (r: Vec<ReaderAction>)
        ensures
            r.deep_view() == adopted_end(outcome.deep_view(), rate_limit.deep_view()),
    {
        let reason = control_outcome_reason(&outcome);
        match prompt_outcome_to_response(outcome) {
            Ok(_) => model::one(ReaderAction::Publish(Event::Stopped { reason })),
            Err(_) => match rate_limit {
                Some(info) => model::two(
                    ReaderAction::Publish(Event::RateLimit { info }),
                    ReaderAction::Publish(Event::Stopped { reason: "rate_limited".to_owned() }),
                ),
                None => model::one(ReaderAction::Publish(Event::Stopped { reason })),
            },
        }
    }

    fn on_prompt_completed(
        &mut self,
        turn: &mut TurnOwnership,
        prompt_req_id: i64,
        outcome: PromptOutcome,
        rate_limit: Option<RateLimitInfo>,
    ) -> (r: Vec<ReaderAction>)
        ensures
            (ReaderStep {
                state: final(self).deep_view(),
                turn: *final(turn),
                actions: r.deep_view(),
            }) == completion_step(
                old(self).deep_view(),
                *old(turn),
                prompt_req_id,
                outcome.deep_view(),
                rate_limit.deep_view(),
            ),
    {
        match self.completion {
            PromptCompletion::Pending { prompt_req_id: Some(id) } => {
                if id == prompt_req_id {
                    self.completion = PromptCompletion::LocalIdle;
                    model::one(ReaderAction::Complete(outcome))
                } else {
                    model::empty()
                }
            },
            PromptCompletion::Adopted => {
                if !turn.prompt_in_flight {
                    return model::empty();
                }
                turn.prompt_in_flight = false;
                if turn.terminal.claim() {
                    Self::publish_adopted_end(outcome, rate_limit)
                } else {
                    model::empty()
                }
            },
            _ => model::empty(),
        }
    }

    fn take_forward(&mut self, call_id: u64) -> (r: Option<Json>)
        ensures
            ({
                let before = old(self).deep_view();
                match r {
                    Some(id) => before.forward.contains_key(call_id) && id.deep_view()
                        == before.forward[call_id] && final(self).deep_view() == (ControlStateV {
                        forward: before.forward.remove(call_id),
                        ..before
                    }),
                    None => !before.forward.contains_key(call_id) && final(self).deep_view()
                        == before,
                }
            }),
    {
        let ghost before = self.deep_view();
        let r = self.forward.remove(&call_id);
        proof {
            if r is Some {
                assert(self.deep_view().forward =~= before.forward.remove(call_id));
            } else {
                assert(self.deep_view().forward =~= before.forward);
            }
        }
        r
    }

    fn on_answer(&mut self, call_id: u64, field: &str, value: Json) -> (r: Vec<ReaderAction>)
        ensures
            forall|turn: TurnOwnership|
                (ReaderStep { state: final(self).deep_view(), turn, actions: r.deep_view() })
                    == #[trigger] answer_step(
                    old(self).deep_view(),
                    turn,
                    call_id,
                    field@,
                    value.deep_view(),
                ),
    {
        match self.take_forward(call_id) {
            Some(id) => model::one(ReaderAction::WriteLine(write_answer(id, field, value))),
            None => model::empty(),
        }
    }

    fn on_server_call(&mut self, call_id: u64, method: String, params: Json) -> (r: Json)
        requires
            old(self).deep_view().next_synthetic > i64::MIN,
        ensures
            ({
                let before = old(self).deep_view();
                let id = (before.next_synthetic - 1) as i64;
                &&& final(self).deep_view() == (ControlStateV {
                    reverse: before.reverse.insert(id, call_id),
                    next_synthetic: id,
                    ..before
                })
                &&& r.deep_view() == call_line(id, method@, params.deep_view())
            }),
    {
        self.next_synthetic = self.next_synthetic - 1;
        let id: i64 = self.next_synthetic;
        self.reverse.insert(id, call_id);
        let mut entries = model::two(
            ("jsonrpc".to_owned(), Json::Text("2.0".to_owned())),
            ("id".to_owned(), write_int(id)),
        );
        model::push(&mut entries, ("method".to_owned(), Json::Text(method)));
        model::push(&mut entries, ("params".to_owned(), params));
        proof {
            assert(entries.deep_view() =~= call_line(
                id,
                method@,
                params.deep_view(),
            )->Object_0);
        }
        json::object(entries)
    }

    /// Takes a frame of the runner. `wire_bytes` is what it took on the
    /// channel, and `rate_limit` the limit that the error of an outcome tells
    /// of.
    pub fn on_frame(
        &mut self,
        turn: &mut TurnOwnership,
        frame: ControlBody,
        wire_bytes: u64,
        protocol: &ControlProtocol,
        rate_limit: Option<RateLimitInfo>,
    ) -> (r: Vec<ReaderAction>)
        requires
            frame.deep_view() is ServerCall ==> old(self).deep_view().next_synthetic > i64::MIN,
        ensures
            (ReaderStep {
                state: final(self).deep_view(),
                turn: *final(turn),
                actions: r.deep_view(),
            }) == reader_step(
                old(self).deep_view(),
                *old(turn),
                frame.deep_view(),
                wire_bytes,
                protocol.deep_view(),
                rate_limit.deep_view(),
            ),
    {
        match frame {
            ControlBody::Initialized { result } => model::one(
                ReaderAction::Handshake(ControlBody::Initialized { result }),
            ),
            ControlBody::HandshakeFailed { error } => model::one(
                ReaderAction::Handshake(ControlBody::HandshakeFailed { error }),
            ),
            ControlBody::SessionReady { acp_session_id, result } => model::two(
                ReaderAction::ResolveIdentity(acp_session_id.clone()),
                ReaderAction::Handshake(ControlBody::SessionReady { acp_session_id, result }),
            ),
            ControlBody::PromptStarted { prompt_req_id } => {
                match self.completion {
                    PromptCompletion::Pending { prompt_req_id: None } => {
                        self.completion = PromptCompletion::Pending {
                            prompt_req_id: Some(prompt_req_id),
                        };
                    },
                    _ => {},
                }
                model::empty()
            },
            ControlBody::PromptCompleted { prompt_req_id, outcome } => self.on_prompt_completed(
                turn,
                prompt_req_id,
                outcome,
                rate_limit,
            ),
            ControlBody::ServerCall { call_id, method, params } => model::one(
                ReaderAction::WriteLine(self.on_server_call(call_id, method, params)),
            ),
            ControlBody::Notify { method, params } => {
                let counted = count_params(
                    method.as_str(),
                    params,
                    wire_bytes,
                    protocol.frame_bytes_field.as_str(),
                );
                let mut entries = model::two(
                    ("jsonrpc".to_owned(), Json::Text("2.0".to_owned())),
                    ("method".to_owned(), Json::Text(method)),
                );
                model::push(&mut entries, ("params".to_owned(), counted));
                proof {
                    assert(entries.deep_view() =~= notify_line(
                        method@,
                        counted.deep_view(),
                    )->Object_0);
                }
                model::one(ReaderAction::WriteLine(json::object(entries)))
            },
            ControlBody::AgentResult { call_id, result } => self.on_answer(
                call_id,
                "result",
                result,
            ),
            ControlBody::AgentError { call_id, error } => self.on_answer(call_id, "error", error),
            _ => model::empty(),
        }
    }

    /// The channel has ended: no prompt waits for it any more.
    pub fn on_channel_ended(&mut self)
        ensures
            final(self).deep_view() == (ControlStateV {
                completion: PromptCompletion::LocalIdle,
                ..old(self).deep_view()
            }),
    {
        self.completion = PromptCompletion::LocalIdle;
    }

    /// Takes a line of the client. `error_well_formed` says whether the error
    /// that it carries has the form of one.
    pub fn on_line(
        &mut self,
        ids: &mut ForwardIds,
        value: &Json,
        error_well_formed: bool,
        protocol: &ControlProtocol,
    ) -> (r: PumpStep)
        ensures
            (PumpResult {
                state: final(self).deep_view(),
                next_id: final(ids).next,
                step: r.deep_view(),
            }) == pump_step(
                old(self).deep_view(),
                old(ids).next,
                value.deep_view(),
                error_well_formed,
                protocol.deep_view(),
            ),
    {
        if let Some(method) = value.str_at("method") {
            let id = match value.get("id") {
                Some(id) => id.duplicate(),
                None => return PumpStep::Skip,
            };
            let call_id: u64 = ids.next;
            ids.next = call_id.wrapping_add(1);
            let frame = ControlBody::AgentCall {
                call_id,
                method,
                params: get_or_null(value, "params"),
            };
            return PumpStep::Send { frame, forward: Some((call_id, id)) };
        }
        let id: i64 = match value.i64_at("id") {
            Some(id) => id,
            None => return PumpStep::Skip,
        };
        let ghost before = self.deep_view();
        let call_id: u64 = match self.reverse.remove(&id) {
            Some(call_id) => call_id,
            None => {
                assert(self.deep_view() =~= before);
                return PumpStep::Skip;
            },
        };
        proof {
            assert(self.deep_view().reverse =~= before.reverse.remove(id));
        }
        let error = match value.get("error") {
            Some(error) => {
                if error.is_null() {
                    None
                } else {
                    Some(error.duplicate())
                }
            },
            None => None,
        };
        let frame = match error {
            Some(error) => ControlBody::ServerError {
                call_id,
                error: if error_well_formed {
                    error
                } else {
                    write_error(
                        protocol.internal_error,
                        "handler produced a malformed error".to_owned(),
                    )
                },
            },
            None => ControlBody::ServerResult { call_id, result: get_or_null(value, "result") },
        };
        PumpStep::Send { frame, forward: None }
    }

    /// Notes a call of the client that goes out, so that its answer finds its
    /// way back.
    pub fn on_sending(&mut self, forward: &Option<(u64, Json)>)
        ensures
            final(self).deep_view() == awaiting(old(self).deep_view(), forward.deep_view()),
    {
        if let Some((call_id, id)) = forward {
            let ghost before = self.deep_view();
            let copy = id.duplicate();
            self.forward.insert(*call_id, copy);
            proof {
                assert(self.deep_view().forward =~= before.forward.insert(
                    *call_id,
                    id.deep_view(),
                ));
            }
        }
    }

    /// A frame could not be sent: the channel is gone. A call is forgotten, and
    /// the client gets the line that says so.
    pub fn on_write_failed(
        &mut self,
        forward: Option<(u64, Json)>,
        protocol: &ControlProtocol,
    ) -> (r: Option<Json>)
        ensures
            match forward.deep_view() {
                Some((call_id, id)) => {
                    &&& final(self).deep_view() == (ControlStateV {
                        forward: old(self).deep_view().forward.remove(call_id),
                        ..old(self).deep_view()
                    })
                    &&& r.deep_view() == Some(
                        answer_line(
                            id,
                            "error"@,
                            error_json(
                                protocol.daemon_gone,
                                "runner control transport closed"@,
                            ),
                        ),
                    )
                },
                None => final(self).deep_view() == old(self).deep_view() && r is None,
            },
    {
        match forward {
            Some((call_id, id)) => {
                let ghost before = self.deep_view();
                let taken = self.take_forward(call_id);
                proof {
                    if taken is None {
                        assert(before.forward.remove(call_id) =~= before.forward);
                    }
                }
                let error = write_error(
                    protocol.daemon_gone,
                    "runner control transport closed".to_owned(),
                );
                Some(write_answer(id, "error", error))
            },
            None => None,
        }
    }

    /// A prompt is about to be sent here: a turn that was running before is
    /// not this channel's any more.
    pub fn supersede_adopted_turn(&mut self)
        ensures
            final(self).deep_view() == superseded(old(self).deep_view()),
    {
        match self.completion {
            PromptCompletion::Adopted => {
                self.completion = PromptCompletion::LocalIdle;
            },
            _ => {},
        }
    }

    /// A prompt is sent. Where another still waits, this one is refused with
    /// the outcome that is returned, and nothing is sent.
    pub fn begin_prompt(&mut self, protocol: &ControlProtocol) -> (r: Option<PromptOutcome>)
        requires
            i32::MIN <= protocol.internal_error <= i32::MAX,
        ensures
            r.deep_view() == prompt_refusal(old(self).deep_view(), protocol.deep_view()),
            final(self).deep_view() == (if r is Some {
                old(self).deep_view()
            } else {
                ControlStateV {
                    completion: PromptCompletion::Pending { prompt_req_id: None },
                    ..old(self).deep_view()
                }
            }),
    {
        match self.completion {
            PromptCompletion::Pending { .. } => Some(
                PromptOutcome::Error {
                    code: protocol.internal_error as i32,
                    message: "a local prompt is already awaiting completion".to_owned(),
                    data: None,
                },
            ),
            _ => {
                self.completion = PromptCompletion::Pending { prompt_req_id: None };
                None
            },
        }
    }

    /// The prompt could not be sent: it does not wait any more.
    pub fn prompt_send_failed(&mut self)
        ensures
            final(self).deep_view() == (ControlStateV {
                completion: PromptCompletion::LocalIdle,
                ..old(self).deep_view()
            }),
    {
        self.completion = PromptCompletion::LocalIdle;
    }

    /// The turn was ended here without an answer of the runner: its prompt
    /// does not wait any more, so that the next one is not refused.
    pub fn release_local_prompt(&mut self)
        ensures
            final(self).deep_view() == released(old(self).deep_view()),
    {
        match self.completion {
            PromptCompletion::Pending { .. } => {
                self.completion = PromptCompletion::LocalIdle;
            },
            _ => {},
        }
    }
}

/// The state once a turn that was running before is not the channel's any
/// more.
pub open spec fn superseded(state: ControlStateV) -> ControlStateV {
    ControlStateV {
        completion: match state.completion {
            PromptCompletion::Adopted => PromptCompletion::LocalIdle,
            other => other,
        },
        ..state
    }
}

/// The state once the prompt that waits has been let go.
pub open spec fn released(state: ControlStateV) -> ControlStateV {
    ControlStateV {
        completion: match state.completion {
            PromptCompletion::Pending { .. } => PromptCompletion::LocalIdle,
            other => other,
        },
        ..state
    }
}

/// The outcome with which a prompt is refused while another waits.
pub open spec fn prompt_refusal(
    state: ControlStateV,
    protocol: ControlProtocolV,
) -> Option<PromptOutcomeV> {
    match state.completion {
        PromptCompletion::Pending { .. } => Some(
            PromptOutcomeV::Error {
                code: protocol.internal_error as i32,
                message: "a local prompt is already awaiting completion"@,
                data: None,
            },
        ),
        _ => None,
    }
}

/// The call that a frame answers.
pub open spec fn answered_call(frame: ControlBodyV) -> Option<u64> {
    match frame {
        ControlBodyV::ServerResult { call_id, .. } => Some(call_id),
        ControlBodyV::ServerError { call_id, .. } => Some(call_id),
        _ => None,
    }
}

/// What is done about a frame that is too large. For a call the client is told
/// so at once; an answer is replaced by an error that is small enough.
pub fn on_encode_failed(
    frame: &ControlBody,
    forward: Option<(u64, Json)>,
    error: &str,
    protocol: &ControlProtocol,
) -> (r: EncodeFallback)
    requires
        forward is Some || answered_call(frame.deep_view()) is Some,
    ensures
        r.deep_view() == (match forward.deep_view() {
            Some((_, id)) => EncodeFallbackV::Reply(
                answer_line(
                    id,
                    "error"@,
                    error_json(
                        protocol.internal_error,
                        "request exceeds control transport capacity: "@ + error@,
                    ),
                ),
            ),
            None => EncodeFallbackV::Send(
                ControlBodyV::ServerError {
                    call_id: answered_call(frame.deep_view())->0,
                    error: error_json(
                        protocol.internal_error,
                        "daemon response exceeds control transport capacity: "@ + error@,
                    ),
                },
            ),
        }),
{
    match forward {
        Some((_, id)) => {
            let message = text::cat("request exceeds control transport capacity: ", error);
            EncodeFallback::Reply(
                write_answer(id, "error", write_error(protocol.internal_error, message)),
            )
        },
        None => {
            let call_id: u64 = match frame {
                ControlBody::ServerResult { call_id, .. } => *call_id,
                ControlBody::ServerError { call_id, .. } => *call_id,
                _ => 0,
            };
            let message = text::cat("daemon response exceeds control transport capacity: ", error);
            EncodeFallback::Send(
                ControlBody::ServerError {
                    call_id,
                    error: write_error(protocol.internal_error, message),
                },
            )
        },
    }
}

/// Why the runner's socket could not be reached.
#[derive(Debug, Clone, Copy, PartialEq, Eq, Structural)]
pub enum DialError {
    /// It is not there yet.
    NotFound,
    /// Nobody listens on it yet.
    ConnectionRefused,
    Other,
}

impl DeepView for DialError {
    type V = DialError;

    open spec fn deep_view(&self) -> DialError {
        *self
    }
}

impl Duplicate for DialError {
    fn duplicate(&self) -> (r: Self) {
        *self
    }
}

/// The first frame of the runner, as it was read.
#[derive(Debug, PartialEq, Eq)]
pub enum HelloRead {
    Hello { control_protocol_version: u32, session_id: String },
    /// Another frame, in the form in which it is shown.
    Unexpected(String),
    Closed,
    Failed(String),
}

/// The model of [`HelloRead`].
#[verifier::ext_equal]
pub enum HelloReadV {
    Hello { control_protocol_version: u32, session_id: Seq<char> },
    Unexpected(Seq<char>),
    Closed,
    Failed(Seq<char>),
}

impl DeepView for HelloRead {
    type V = HelloReadV;

    open spec fn deep_view(&self) -> HelloReadV {
        match self {
            HelloRead::Hello { control_protocol_version, session_id } => {
                HelloReadV::Hello {
                    control_protocol_version: control_protocol_version.deep_view(),
                    session_id: session_id.deep_view(),
                }
            },
            HelloRead::Unexpected(value) => HelloReadV::Unexpected(value.deep_view()),
            HelloRead::Closed => HelloReadV::Closed,
            HelloRead::Failed(value) => HelloReadV::Failed(value.deep_view()),
        }
    }
}

impl Duplicate for HelloRead {
    fn duplicate(&self) -> (r: Self) {
        match self {
            HelloRead::Hello { control_protocol_version, session_id } => {
                HelloRead::Hello {
                    control_protocol_version: control_protocol_version.duplicate(),
                    session_id: session_id.duplicate(),
                }
            },
            HelloRead::Unexpected(value) => HelloRead::Unexpected(value.duplicate()),
            HelloRead::Closed => HelloRead::Closed,
            HelloRead::Failed(value) => HelloRead::Failed(value.duplicate()),
        }
    }
}

/// Whether the runner's socket is tried again: only where the runner may still
/// be starting.
pub fn retries_dial(error: DialError) -> (r: bool)
    ensures
        r == (error == DialError::NotFound || error == DialError::ConnectionRefused),
{
    match error {
        DialError::NotFound => true,
        DialError::ConnectionRefused => true,
        DialError::Other => false,
    }
}

/// What is said of a socket that cannot be reached, with the cause.
pub fn dial_failure(path: &str, error: &str) -> (r: String)
    ensures
        r@ == "connect runner control socket "@ + path@ + ": "@ + error@,
{
    let mut r = text::cat("connect runner control socket ", path);
    r.append(": ");
    r.append(error);
    r
}

/// What is said of a runner that cannot be attached to in time.
pub fn attach_timeout(path: &str) -> (r: String)
    ensures
        r@ == "timed out attaching runner control socket "@ + path@,
{
    text::cat("timed out attaching runner control socket ", path)
}

/// A text as `{:?}` shows it.
pub uninterp spec fn debug_text_of(text: Seq<char>) -> Seq<char>;

/// `format!("{:?}", text)`: the text in quotes, with its escapes. The result
/// is a function of the text alone, here called [`debug_text_of`].
#[verifier::external_body]
fn debug_text(text: &str) -> (r: String)
    ensures
        r@ == debug_text_of(text@),
{
    format!("{:?}", text)
}

/// What is wrong with the first frame of a runner, where something is. It has
/// to be a greeting for the session that is meant, in the client's version.
pub open spec fn hello_error(
    read: HelloReadV,
    session_label: Seq<char>,
    version: u32,
) -> Option<Seq<char>> {
    match read {
        HelloReadV::Hello { control_protocol_version, session_id } => if control_protocol_version
            == version && session_id == session_label {
            None
        } else {
            Some(
                "runner Hello mismatch: expected session "@ + debug_text_of(session_label)
                    + " protocol v"@ + text::decimal(version as nat) + ", got session "@
                    + debug_text_of(session_id) + " protocol v"@ + text::decimal(
                    control_protocol_version as nat,
                ),
            )
        },
        HelloReadV::Unexpected(shown) => Some("runner sent "@ + shown + " before Hello"@),
        HelloReadV::Closed => Some("runner closed before Hello"@),
        HelloReadV::Failed(error) => Some("read runner Hello: "@ + error),
    }
}

/// Checks the first frame of a runner.
pub fn validate_hello(read: &HelloRead, session_label: &str, version: u32) -> (r: Result<
    (),
    String,
>)
    ensures
        match hello_error(read.deep_view(), session_label@, version) {
            None => r is Ok,
            Some(message) => r matches Err(m) && m@ == message,
        },
{
    match read {
        HelloRead::Hello { control_protocol_version, session_id } => {
            if *control_protocol_version == version && text::same(
                session_id.as_str(),
                session_label,
            ) {
                return Ok(());
            }
            let expected = debug_text(session_label);
            let got = debug_text(session_id.as_str());
            let own = text::decimal_text(version as u64);
            let theirs = text::decimal_text(*control_protocol_version as u64);
            let mut message = "runner Hello mismatch: expected session ".to_owned();
            message.append(expected.as_str());
            message.append(" protocol v");
            message.append(own.as_str());
            message.append(", got session ");
            message.append(got.as_str());
            message.append(" protocol v");
            message.append(theirs.as_str());
            Err(message)
        },
        HelloRead::Unexpected(shown) => {
            let mut message = text::cat("runner sent ", shown.as_str());
            message.append(" before Hello");
            Err(message)
        },
        HelloRead::Closed => Err("runner closed before Hello".to_owned()),
        HelloRead::Failed(error) => Err(text::cat("read runner Hello: ", error.as_str())),
    }
}

/// The error of a step of the handshake that `reply` does not answer: the
/// error that the runner forwards, or the end of the channel.
pub open spec fn handshake_error(reply: Option<ControlBodyV>, step: Seq<char>) -> SessionErrorV {
    match reply {
        Some(ControlBodyV::HandshakeFailed { error }) => SessionErrorV::Forwarded(error),
        _ => SessionErrorV::Internal("control channel closed during "@ + step),
    }
}

fn fail_handshake(reply: Option<ControlBody>, step: &str) -> (r: SessionError)
    ensures
        r.deep_view() == handshake_error(reply.deep_view(), step@),
{
    match reply {
        Some(ControlBody::HandshakeFailed { error }) => SessionError::Forwarded(error),
        _ => SessionError::Internal(text::cat("control channel closed during ", step)),
    }
}

/// The result of the agent's initialization, from the runner's answer.
pub fn initialize_reply(reply: Option<ControlBody>) -> (r: Result<Json, SessionError>)
    ensures
        match reply.deep_view() {
            Some(ControlBodyV::Initialized { result }) => r matches Ok(v) && v.deep_view()
                == result,
            other => r matches Err(e) && e.deep_view() == handshake_error(other, "initialize"@),
        },
{
    match reply {
        Some(ControlBody::Initialized { result }) => Ok(result),
        other => Err(fail_handshake(other, "initialize")),
    }
}

/// How many sessions were established over a channel, and how many of their
/// replays have been applied.
#[derive(Debug, Clone, Copy, PartialEq, Eq, Structural)]
pub struct ReplayCount {
    pub established: u64,
    pub replayed: u64,
}

impl ReplayCount {
    /// Whether every session's replay has been applied.
    pub open spec fn settled(self) -> bool {
        self.replayed >= self.established
    }

    /// No session was established.
    pub fn new() -> (r: Self)
        ensures
            r == (ReplayCount { established: 0, replayed: 0 }),
            r.settled(),
    {
        ReplayCount { established: 0, replayed: 0 }
    }

    /// A replay has been applied.
    pub fn mark_session_replayed(&mut self)
        requires
            old(self).replayed < u64::MAX,
        ensures
            *final(self) == (ReplayCount {
                replayed: (old(self).replayed + 1) as u64,
                ..*old(self)
            }),
    {
        self.replayed = self.replayed + 1;
    }

    /// Whether every session's replay has been applied.
    pub fn session_replayed(&self) -> (r: bool)
        ensures
            r == self.settled(),
    {
        self.replayed >= self.established
    }

    /// The session's id and the agent's answer, from the runner's answer to a
    /// request to establish a session.
    pub fn establish_session(&mut self, reply: Option<ControlBody>) -> (r: Result<
        (String, Json),
        SessionError,
    >)
        requires
            old(self).established < u64::MAX,
        ensures
            match reply.deep_view() {
                Some(ControlBodyV::SessionReady { acp_session_id, result }) => {
                    &&& r matches Ok((id, v)) && id@ == acp_session_id && v.deep_view() == result
                    &&& *final(self) == (ReplayCount {
                        established: (old(self).established + 1) as u64,
                        ..*old(self)
                    })
                },
                other => {
                    &&& r matches Err(e) && e.deep_view() == handshake_error(
                        other,
                        "session establishment"@,
                    )
                    &&& *final(self) == *old(self)
                },
            },
    {
        match reply {
            Some(ControlBody::SessionReady { acp_session_id, result }) => {
                self.established = self.established + 1;
                Ok((acp_session_id, result))
            },
            other => Err(fail_handshake(other, "session establishment")),
        }
    }
}

/// The id of the session that the runner has, from its answer.
pub fn resume_session(reply: Option<ControlBody>) -> (r: Result<String, SessionError>)
    ensures
        match reply.deep_view() {
            Some(ControlBodyV::SessionReady { acp_session_id, .. }) => r matches Ok(id) && id@
                == acp_session_id,
            other => r matches Err(e) && e.deep_view() == handshake_error(other, "resume"@),
        },
{
    match reply {
        Some(ControlBody::SessionReady { acp_session_id, .. }) => Ok(acp_session_id),
        other => Err(fail_handshake(other, "resume")),
    }
}

/// Every frame of the runner keeps the synthetic ids negative and given out.
pub proof fn law_frames_keep_ids_apart(
    state: ControlStateV,
    turn: TurnOwnership,
    frame: ControlBodyV,
    wire_bytes: u64,
    protocol: ControlProtocolV,
    rate_limit: Option<RateLimitInfoV>,
)
    requires
        state.wf(),
        frame is ServerCall ==> state.next_synthetic > i64::MIN,
    ensures
        reader_step(state, turn, frame, wire_bytes, protocol, rate_limit).state.wf(),
{
}

/// Every line of the client keeps them so, too.
pub proof fn law_lines_keep_ids_apart(
    state: ControlStateV,
    next_id: u64,
    value: JsonV,
    error_well_formed: bool,
    protocol: ControlProtocolV,
)
    requires
        state.wf(),
    ensures
        pump_step(state, next_id, value, error_well_formed, protocol).state.wf(),
{
}

/// A call of the runner is handed to the client under an id that is not in
/// use and that no client gives out, since it is negative.
pub proof fn law_synthetic_ids_are_fresh(state: ControlStateV)
    requires
        state.wf(),
        state.next_synthetic > i64::MIN,
    ensures
        !state.reverse.contains_key((state.next_synthetic - 1) as i64),
        state.next_synthetic - 1 < 0,
{
}

/// The client's answer to a call of the runner goes back under the runner's
/// own id for the call, and a second answer goes nowhere.
pub proof fn law_answers_find_their_call(
    state: ControlStateV,
    turn: TurnOwnership,
    call_id: u64,
    method: Seq<char>,
    params: JsonV,
    wire_bytes: u64,
    protocol: ControlProtocolV,
    next_id: u64,
    result: JsonV,
)
    requires
        state.wf(),
        state.next_synthetic > i64::MIN,
    ensures
        ({
            let called = reader_step(
                state,
                turn,
                ControlBodyV::ServerCall { call_id, method, params },
                wire_bytes,
                protocol,
                None,
            );
            let id = called.state.next_synthetic;
            let answer = answer_line(int_json(id), "result"@, result);
            let answered = pump_step(called.state, next_id, answer, true, protocol);
            let again = pump_step(answered.state, next_id, answer, true, protocol);
            &&& called.actions == seq![ReaderActionV::WriteLine(call_line(id, method, params))]
            &&& answered.step == (PumpStepV::Send {
                frame: ControlBodyV::ServerResult { call_id, result },
                forward: None,
            })
            &&& again.step is Skip
        }),
{
    let id = (state.next_synthetic - 1) as i64;
    let answer = answer_line(int_json(id), "result"@, result);
    reveal_strlit("jsonrpc");
    reveal_strlit("id");
    reveal_strlit("result");
    reveal_strlit("method");
    reveal_strlit("error");
    reveal_with_fuel(json::entry, 4);
    lemma_line_keys();
    let entries = answer->Object_0;
    assert(entries[0].0 == "jsonrpc"@ && entries[1].0 == "id"@ && entries[2].0 == "result"@);
    let rest = entries.drop_first();
    assert(rest[0] == entries[1]);
    let tail = rest.drop_first();
    assert(tail[0] == entries[2]);
    assert(answer.get("method"@) is None);
    assert(answer.get("id"@) == Some(int_json(id)));
    assert(answer.get("error"@) is None);
    assert(answer.get("result"@) == Some(result));
}

proof fn lemma_line_keys()
    ensures
        "jsonrpc"@ != "id"@,
        "jsonrpc"@ != "result"@,
        "jsonrpc"@ != "error"@,
        "jsonrpc"@ != "method"@,
        "id"@ != "result"@,
        "id"@ != "error"@,
        "id"@ != "method"@,
        "result"@ != "error"@,
        "result"@ != "method"@,
{
    reveal_strlit("jsonrpc");
    reveal_strlit("id");
    reveal_strlit("result");
    reveal_strlit("method");
    reveal_strlit("error");
    assert("jsonrpc"@[0] == 'j' && "id"@[0] == 'i' && "result"@[0] == 'r' && "method"@[0] == 'm'
        && "error"@[0] == 'e');
}

/// A call of the client goes to the runner under a call id, and the runner's
/// answer, a result or an error, comes back under the client's own id for the
/// call. Answers to other calls leave it waiting, and a second answer goes
/// nowhere.
pub proof fn law_results_find_their_request(
    state: ControlStateV,
    turn: TurnOwnership,
    next_id: u64,
    call: JsonV,
    other: u64,
    answer: JsonV,
    wire_bytes: u64,
    protocol: ControlProtocolV,
)
    requires
        call.str_at("method"@) is Some,
        call.get("id"@) is Some,
        other != next_id,
    ensures
        ({
            let id = call.get("id"@)->0;
            let pumped = pump_step(state, next_id, call, true, protocol);
            let waiting = awaiting(pumped.state, pumped.step->forward);
            let result = ControlBodyV::AgentResult { call_id: next_id, result: answer };
            let error = ControlBodyV::AgentError { call_id: next_id, error: answer };
            let stray = ControlBodyV::AgentResult { call_id: other, result: answer };
            let answered = reader_step(waiting, turn, result, wire_bytes, protocol, None);
            let refused = reader_step(waiting, turn, error, wire_bytes, protocol, None);
            let passed = reader_step(waiting, turn, stray, wire_bytes, protocol, None).state;
            &&& pumped.step is Send
            &&& pumped.step->frame == (ControlBodyV::AgentCall {
                call_id: next_id,
                method: call.str_at("method"@)->0,
                params: or_null(call, "params"@),
            })
            &&& pumped.next_id != next_id
            &&& answered.actions == seq![
                ReaderActionV::WriteLine(answer_line(id, "result"@, answer)),
            ]
            &&& refused.actions == seq![
                ReaderActionV::WriteLine(answer_line(id, "error"@, answer)),
            ]
            &&& passed.forward.contains_key(next_id) && passed.forward[next_id] == id
            &&& reader_step(
                answered.state,
                turn,
                result,
                wire_bytes,
                protocol,
                None,
            ).actions.len() == 0
        }),
{
}

/// A prompt that waits here is told of no end but its own: one that the runner
/// reports under another id, and any before the prompt's id is known, changes
/// nothing and publishes nothing.
pub proof fn law_other_ends_do_not_resolve_the_waiting_prompt(
    state: ControlStateV,
    turn: TurnOwnership,
    prompt_req_id: i64,
    outcome: PromptOutcomeV,
    rate_limit: Option<RateLimitInfoV>,
)
    requires
        state.completion is Pending,
        state.completion != (PromptCompletion::Pending { prompt_req_id: Some(prompt_req_id) }),
    ensures
        completion_step(state, turn, prompt_req_id, outcome, rate_limit) == (ReaderStep {
            state,
            turn,
            actions: seq![],
        }),
{
}

/// Once a prompt was sent here, no end that the runner reports touches the
/// turn or publishes anything: it is the prompt's business, or nobody's.
pub proof fn law_local_turns_keep_their_end(
    state: ControlStateV,
    turn: TurnOwnership,
    prompt_req_id: i64,
    outcome: PromptOutcomeV,
    rate_limit: Option<RateLimitInfoV>,
)
    requires
        state.completion != PromptCompletion::Adopted,
    ensures
        ({
            let step = completion_step(state, turn, prompt_req_id, outcome, rate_limit);
            &&& step.turn == turn
            &&& forall|i: int|
                0 <= i < step.actions.len() ==> !((#[trigger] step.actions[i]) is Publish)
        }),
{
}

/// The runner's id binds a waiting prompt once: a later one does not replace
/// it.
pub proof fn law_prompt_id_binds_once(
    state: ControlStateV,
    turn: TurnOwnership,
    bound: i64,
    later: i64,
    wire_bytes: u64,
    protocol: ControlProtocolV,
)
    requires
        state.completion == (PromptCompletion::Pending { prompt_req_id: Some(bound) }),
    ensures
        reader_step(
            state,
            turn,
            ControlBodyV::PromptStarted { prompt_req_id: later },
            wire_bytes,
            protocol,
            None,
        ).state == state,
{
}

/// The end of an adopted turn is published once: after it was, the turn is not
/// running any more, and another report publishes nothing.
pub proof fn law_adopted_end_is_published_once(
    state: ControlStateV,
    turn: TurnOwnership,
    a: i64,
    b: i64,
    first: PromptOutcomeV,
    second: PromptOutcomeV,
    rate_limit: Option<RateLimitInfoV>,
)
    requires
        state.completion == PromptCompletion::Adopted,
    ensures
        ({
            let once = completion_step(state, turn, a, first, rate_limit);
            let twice = completion_step(once.state, once.turn, b, second, rate_limit);
            &&& once.actions.len() > 0 ==> turn.prompt_in_flight && !turn.terminal.is_claimed()
                && once.turn.terminal.is_claimed()
            &&& twice.actions.len() == 0
        }),
{
}

/// A turn that is superseded before its end is reported publishes nothing.
pub proof fn law_superseded_turn_is_silent(
    state: ControlStateV,
    turn: TurnOwnership,
    prompt_req_id: i64,
    outcome: PromptOutcomeV,
    rate_limit: Option<RateLimitInfoV>,
)
    requires
        !(state.completion is Pending),
    ensures
        completion_step(superseded(state), turn, prompt_req_id, outcome, rate_limit)
            == (ReaderStep { state: superseded(state), turn, actions: seq![] }),
{
}

/// What the client answers a call of the runner with is what the runner gets, under
/// its own id for the call: an error that is not null as an error and as nothing
/// else, word for word where it is well formed; anything else as the result that it
/// holds, and null where it holds none. The call is then answered.
pub proof fn law_answers_are_sent_as_what_they_are(
    state: ControlStateV,
    next_id: u64,
    value: JsonV,
    error_well_formed: bool,
    protocol: ControlProtocolV,
    id: i64,
)
    requires
        value.str_at("method"@) is None,
        value.i64_at("id"@) == Some(id),
        state.reverse.contains_key(id),
    ensures
        ({
            let pumped = pump_step(state, next_id, value, error_well_formed, protocol);
            let failed = value.get("error"@) is Some && value.get("error"@)->0 !is Null;
            &&& pumped.step matches PumpStepV::Send { frame, forward }
            &&& forward is None
            &&& match frame {
                ControlBodyV::ServerError { call_id, error } => {
                    &&& failed
                    &&& call_id == state.reverse[id]
                    &&& error_well_formed ==> Some(error) == value.get("error"@)
                    &&& !error_well_formed ==> {
                        &&& error.get("code"@) == Some(int_json(protocol.internal_error))
                        &&& error.get("message"@) == Some(
                            JsonV::Text("handler produced a malformed error"@),
                        )
                    }
                },
                ControlBodyV::ServerResult { call_id, result } => {
                    &&& !failed
                    &&& call_id == state.reverse[id]
                    &&& result == match value.get("result"@) {
                        Some(result) => result,
                        None => JsonV::Null,
                    }
                },
                _ => false,
            }
            &&& pumped.next_id == next_id
            &&& pumped.state == (ControlStateV { reverse: state.reverse.remove(id), ..state })
        }),
{
    lemma_error_is_read(protocol.internal_error, "handler produced a malformed error"@);
}

/// An error that the client answers with is never sent as a result, whatever call
/// it answers.
pub proof fn law_an_error_is_never_a_result(
    state: ControlStateV,
    next_id: u64,
    value: JsonV,
    error_well_formed: bool,
    protocol: ControlProtocolV,
)
    requires
        value.get("error"@) is Some,
        value.get("error"@)->0 !is Null,
    ensures
        pump_step(state, next_id, value, error_well_formed, protocol).step matches PumpStepV::Send {
            frame,
            ..
        } ==> frame !is ServerResult,
{
}

proof fn lemma_error_is_read(code: i64, message: Seq<char>)
    ensures
        error_json(code, message).get("code"@) == Some(int_json(code)),
        error_json(code, message).get("message"@) == Some(JsonV::Text(message)),
{
    reveal_strlit("code");
    reveal_strlit("message");
    assert("code"@.len() != "message"@.len());
    let entries = error_json(code, message)->Object_0;
    json::law_first_entry_counts(entries, "code"@, 0);
    json::law_first_entry_counts(entries, "message"@, 1);
}

/// An error that the client makes has its code and its message.
pub proof fn law_errors_have_their_code_and_message(code: i64, message: Seq<char>)
    ensures
        error_json(code, message).i64_at("code"@) == Some(code),
        error_json(code, message).str_at("message"@) == Some(message),
{
    lemma_error_is_read(code, message);
}

/// Lines that lead nowhere change nothing: a call without an id, which nobody could
/// answer, and an answer to a call that nobody made or that was answered.
pub proof fn law_stray_lines_change_nothing(
    state: ControlStateV,
    next_id: u64,
    value: JsonV,
    error_well_formed: bool,
    protocol: ControlProtocolV,
)
    requires
        value.str_at("method"@) is Some ==> value.get("id"@) is None,
        value.str_at("method"@) is None ==> match value.i64_at("id"@) {
            Some(id) => !state.reverse.contains_key(id),
            None => true,
        },
    ensures
        ({
            let pumped = pump_step(state, next_id, value, error_well_formed, protocol);
            &&& pumped.step is Skip
            &&& pumped.state == state
            &&& pumped.next_id == next_id
        }),
{
}

/// A call of the client goes out whole: with its method and its parameters, null
/// where it has none, under the next number, which is then used up; the client's id
/// for it is kept for the answer, whatever it is.
pub proof fn law_calls_go_out_whole(
    state: ControlStateV,
    next_id: u64,
    value: JsonV,
    error_well_formed: bool,
    protocol: ControlProtocolV,
    method: Seq<char>,
    id: JsonV,
)
    requires
        value.get("method"@) == Some(JsonV::Text(method)),
        value.get("id"@) == Some(id),
    ensures
        ({
            let pumped = pump_step(state, next_id, value, error_well_formed, protocol);
            &&& pumped.step matches PumpStepV::Send { frame, forward }
            &&& forward == Some((next_id, id))
            &&& frame matches ControlBodyV::AgentCall { call_id, method: called, params }
            &&& call_id == next_id
            &&& called == method
            &&& params == match value.get("params"@) {
                Some(params) => params,
                None => JsonV::Null,
            }
            &&& pumped.state == state
            &&& pumped.next_id != next_id
            &&& next_id < u64::MAX ==> pumped.next_id == next_id + 1
        }),
{
}

/// A call whose answer is awaited is kept with the client's id, beside the others.
pub proof fn law_awaited_calls_are_kept(
    state: ControlStateV,
    call_id: u64,
    id: JsonV,
    other: u64,
)
    ensures
        awaiting(state, Some((call_id, id))).forward.contains_key(call_id),
        awaiting(state, Some((call_id, id))).forward[call_id] == id,
        other != call_id ==> awaiting(state, Some((call_id, id))).forward.contains_key(other)
            == state.forward.contains_key(other),
        other != call_id && state.forward.contains_key(other) ==> awaiting(
            state,
            Some((call_id, id)),
        ).forward[other] == state.forward[other],
        awaiting(state, Some((call_id, id))).reverse == state.reverse,
        awaiting(state, Some((call_id, id))).completion == state.completion,
        awaiting(state, None) == state,
{
}

/// An integer is written as the number that it is.
pub proof fn law_integers_are_read_back(n: i64)
    ensures
        int_json(n).as_i64() == Some(n),
{
}

/// The lines that the client is sent are of version 2.0 of the protocol and hold
/// what they stand for: a call its id, its method and its parameters, a notification
/// the latter two and no id, and an answer the id and either a result or an error.
pub proof fn law_lines_hold_what_they_stand_for(
    id: i64,
    client_id: JsonV,
    method: Seq<char>,
    value: JsonV,
)
    ensures
        ({
            let version = Some(JsonV::Text("2.0"@));
            let call = call_line(id, method, value);
            let notice = notify_line(method, value);
            let result = answer_line(client_id, "result"@, value);
            let error = answer_line(client_id, "error"@, value);
            &&& call.get("jsonrpc"@) == version && call.i64_at("id"@) == Some(id)
            &&& call.str_at("method"@) == Some(method) && call.get("params"@) == Some(value)
            &&& notice.get("jsonrpc"@) == version && notice.get("id"@) is None
            &&& notice.str_at("method"@) == Some(method) && notice.get("params"@) == Some(value)
            &&& result.get("jsonrpc"@) == version && result.get("id"@) == Some(client_id)
            &&& result.get("result"@) == Some(value) && result.get("error"@) is None
            &&& error.get("jsonrpc"@) == version && error.get("id"@) == Some(client_id)
            &&& error.get("error"@) == Some(value) && error.get("result"@) is None
        }),
{
    lemma_line_keys();
    reveal_strlit("params");
    reveal_strlit("jsonrpc");
    reveal_strlit("id");
    reveal_strlit("method");
    assert("params"@[0] == 'p');
    assert("jsonrpc"@[0] == 'j' && "id"@[0] == 'i' && "method"@[0] == 'm');
    let call = call_line(id, method, value)->Object_0;
    json::law_first_entry_counts(call, "jsonrpc"@, 0);
    json::law_first_entry_counts(call, "id"@, 1);
    json::law_first_entry_counts(call, "method"@, 2);
    json::law_first_entry_counts(call, "params"@, 3);
    let notice = notify_line(method, value)->Object_0;
    json::law_first_entry_counts(notice, "jsonrpc"@, 0);
    json::law_first_entry_counts(notice, "method"@, 1);
    json::law_first_entry_counts(notice, "params"@, 2);
    json::law_first_entry_counts(notice, "id"@, 3);
    let result = answer_line(client_id, "result"@, value)->Object_0;
    json::law_first_entry_counts(result, "jsonrpc"@, 0);
    json::law_first_entry_counts(result, "id"@, 1);
    json::law_first_entry_counts(result, "result"@, 2);
    json::law_first_entry_counts(result, "error"@, 3);
    let error = answer_line(client_id, "error"@, value)->Object_0;
    json::law_first_entry_counts(error, "jsonrpc"@, 0);
    json::law_first_entry_counts(error, "id"@, 1);
    json::law_first_entry_counts(error, "error"@, 2);
    json::law_first_entry_counts(error, "result"@, 3);
}

/// The runner's answer to a call reaches the client as what it is: a result as a
/// result and an error as an error, under the client's id for the call.
pub proof fn law_answers_reach_the_client_as_what_they_are(
    state: ControlStateV,
    turn: TurnOwnership,
    call_id: u64,
    answer: JsonV,
    wire_bytes: u64,
    protocol: ControlProtocolV,
)
    requires
        state.forward.contains_key(call_id),
    ensures
        ({
            let good = ControlBodyV::AgentResult { call_id, result: answer };
            let bad = ControlBodyV::AgentError { call_id, error: answer };
            let done = reader_step(state, turn, good, wire_bytes, protocol, None);
            let failed = reader_step(state, turn, bad, wire_bytes, protocol, None);
            &&& done.actions.len() == 1 && failed.actions.len() == 1
            &&& done.actions[0] matches ReaderActionV::WriteLine(line)
            &&& failed.actions[0] matches ReaderActionV::WriteLine(error)
            &&& line.get("id"@) == Some(state.forward[call_id])
            &&& line.get("result"@) == Some(answer) && line.get("error"@) is None
            &&& error.get("id"@) == Some(state.forward[call_id])
            &&& error.get("error"@) == Some(answer) && error.get("result"@) is None
            &&& done.state == failed.state
            &&& done.state == (ControlStateV {
                forward: state.forward.remove(call_id),
                ..state
            })
            &&& done.turn == turn && failed.turn == turn
        }),
{
    law_lines_hold_what_they_stand_for(0, state.forward[call_id], Seq::empty(), answer);
}

/// A call of the runner reaches the client whole, and is remembered under the id that
/// the client gets for it.
pub proof fn law_the_runners_calls_reach_the_client(
    state: ControlStateV,
    turn: TurnOwnership,
    call_id: u64,
    method: Seq<char>,
    params: JsonV,
    wire_bytes: u64,
    protocol: ControlProtocolV,
)
    requires
        state.wf(),
        state.next_synthetic > i64::MIN,
    ensures
        ({
            let frame = ControlBodyV::ServerCall { call_id, method, params };
            let step = reader_step(state, turn, frame, wire_bytes, protocol, None);
            &&& step.actions.len() == 1
            &&& step.actions[0] matches ReaderActionV::WriteLine(line)
            &&& line.str_at("method"@) == Some(method)
            &&& line.get("params"@) == Some(params)
            &&& line.i64_at("id"@) matches Some(id)
            &&& id < 0
            &&& step.state.reverse == state.reverse.insert(id, call_id)
            &&& !state.reverse.contains_key(id)
            &&& step.state.forward == state.forward && step.state.completion == state.completion
            &&& step.turn == turn
        }),
{
    let id = (state.next_synthetic - 1) as i64;
    law_lines_hold_what_they_stand_for(id, JsonV::Null, method, params);
}

/// A notification reaches the client as it is, but for an update's parameters, which
/// also tell how many bytes the update took; whatever they told before they still
/// tell.
pub proof fn law_notifications_reach_the_client(
    state: ControlStateV,
    turn: TurnOwnership,
    method: Seq<char>,
    params: JsonV,
    wire_bytes: u64,
    protocol: ControlProtocolV,
    key: Seq<char>,
)
    ensures
        ({
            let frame = ControlBodyV::Notify { method, params };
            let step = reader_step(state, turn, frame, wire_bytes, protocol, None);
            &&& step.state == state && step.turn == turn
            &&& step.actions.len() == 1
            &&& step.actions[0] matches ReaderActionV::WriteLine(line)
            &&& line.str_at("method"@) == Some(method)
            &&& line.get("id"@) is None
            &&& line.get("params"@) matches Some(told)
            &&& method != "session/update"@ ==> told == params
            &&& method == "session/update"@ && params is Object ==> {
                &&& told.get(protocol.frame_bytes_field) == Some(
                    JsonV::Number(JsonNumber::PosInt(wire_bytes)),
                )
                &&& key != protocol.frame_bytes_field ==> told.get(key) == params.get(key)
            }
            &&& method == "session/update"@ ==> {
                &&& params matches JsonV::Array(items) ==> told == JsonV::Array(
                    items.push(JsonV::Number(JsonNumber::PosInt(wire_bytes))),
                )
                &&& params !is Object && params !is Array ==> told == params
            }
        }),
{
    let told = counted_params(method, params, wire_bytes, protocol.frame_bytes_field);
    law_lines_hold_what_they_stand_for(0, JsonV::Null, method, told);
    if let JsonV::Object(entries) = params {
        json::law_set_keys_hold_their_value(
            entries,
            protocol.frame_bytes_field,
            JsonV::Number(JsonNumber::PosInt(wire_bytes)),
            key,
        );
    }
}

/// What a runner says of the handshake is handed on as it is, and the id of a session
/// that is ready is made known before that. Frames that no runner sends lead nowhere.
pub proof fn law_the_handshake_is_handed_on(
    state: ControlStateV,
    turn: TurnOwnership,
    frame: ControlBodyV,
    wire_bytes: u64,
    protocol: ControlProtocolV,
    rate_limit: Option<RateLimitInfoV>,
)
    requires
        !(frame is PromptStarted || frame is PromptCompleted || frame is ServerCall
            || frame is Notify || frame is AgentResult || frame is AgentError),
    ensures
        ({
            let step = reader_step(state, turn, frame, wire_bytes, protocol, rate_limit);
            &&& step.state == state && step.turn == turn
            &&& step.actions == match frame {
                ControlBodyV::Initialized { .. } | ControlBodyV::HandshakeFailed { .. } => seq![
                    ReaderActionV::Handshake(frame),
                ],
                ControlBodyV::SessionReady { acp_session_id, .. } => seq![
                    ReaderActionV::ResolveIdentity(acp_session_id),
                    ReaderActionV::Handshake(frame),
                ],
                _ => seq![],
            }
        }),
{
}

/// A prompt that waits is bound to the first id that the runner gives it, and is told
/// of the end under that id, as it was; then none waits any more.
pub proof fn law_a_prompt_is_told_of_its_own_end(
    state: ControlStateV,
    turn: TurnOwnership,
    prompt_req_id: i64,
    outcome: PromptOutcomeV,
    wire_bytes: u64,
    protocol: ControlProtocolV,
    rate_limit: Option<RateLimitInfoV>,
)
    requires
        state.completion == (PromptCompletion::Pending { prompt_req_id: None }),
    ensures
        ({
            let started = ControlBodyV::PromptStarted { prompt_req_id };
            let ended = ControlBodyV::PromptCompleted { prompt_req_id, outcome };
            let bound = reader_step(state, turn, started, wire_bytes, protocol, rate_limit);
            let told = reader_step(bound.state, turn, ended, wire_bytes, protocol, rate_limit);
            &&& bound.actions.len() == 0
            &&& bound.turn == turn
            &&& told.actions == seq![ReaderActionV::Complete(outcome)]
            &&& told.state.completion is LocalIdle
            &&& told.turn == turn
            &&& told.state.forward == state.forward && told.state.reverse == state.reverse
        }),
{
}

/// The end of an adopted turn is published where the turn still runs and nobody has
/// published it: with the limit, where the runner's error tells of one, and else with
/// the reason of the outcome.
pub proof fn law_an_adopted_turn_ends_with_its_reason(
    state: ControlStateV,
    turn: TurnOwnership,
    prompt_req_id: i64,
    outcome: PromptOutcomeV,
    rate_limit: Option<RateLimitInfoV>,
)
    requires
        state.completion is Adopted,
        turn.prompt_in_flight,
        !turn.terminal.is_claimed(),
    ensures
        ({
            let step = completion_step(state, turn, prompt_req_id, outcome, rate_limit);
            &&& !step.turn.prompt_in_flight
            &&& step.turn.terminal.is_claimed()
            &&& step.state == state
            &&& step.actions.last() matches ReaderActionV::Publish(EventV::Stopped { reason })
            &&& outcome is Error && rate_limit is Some ==> {
                &&& step.actions.len() == 2
                &&& step.actions[0] == ReaderActionV::Publish(
                    EventV::RateLimit { info: rate_limit->0 },
                )
                &&& reason == "rate_limited"@
            }
            &&& rate_limit is None || outcome is Aborted || outcome == (PromptOutcomeV::Completed {
                stop_reason: None,
            }) || outcome_stop(outcome) is Some ==> step.actions.len() == 1 && reason
                == outcome_reason(outcome)
        }),
{
}

proof fn lemma_reasons_differ()
    ensures
        "end_turn"@ != "max_tokens"@,
        "end_turn"@ != "max_turn_requests"@,
        "end_turn"@ != "refusal"@,
        "end_turn"@ != "cancelled"@,
        "max_tokens"@ != "max_turn_requests"@,
        "max_tokens"@ != "refusal"@,
        "max_tokens"@ != "cancelled"@,
        "max_turn_requests"@ != "refusal"@,
        "max_turn_requests"@ != "cancelled"@,
        "refusal"@ != "cancelled"@,
        "rate_limited"@ != "cancelled"@ && "rate_limit"@ != "cancelled"@,
        "rate_limited"@ != "max_tokens"@ && "rate_limit"@ != "max_tokens"@,
        "rate_limited"@ != "refusal"@ && "rate_limit"@ != "refusal"@,
        "rate_limited"@ != "max_turn_requests"@ && "rate_limit"@ != "max_turn_requests"@,
        "rate_limited"@ != "end_turn"@ && "rate_limit"@ != "end_turn"@,
{
    reveal_strlit("end_turn");
    reveal_strlit("max_tokens");
    reveal_strlit("max_turn_requests");
    reveal_strlit("refusal");
    reveal_strlit("cancelled");
    reveal_strlit("rate_limited");
    reveal_strlit("rate_limit");
    assert("end_turn"@.len() == 8 && "max_tokens"@.len() == 10 && "refusal"@.len() == 7);
    assert("max_turn_requests"@.len() == 17 && "cancelled"@.len() == 9);
    assert("rate_limited"@.len() == 12 && "rate_limit"@[0] == 'r' && "max_tokens"@[0] == 'm');
    assert("rate_limit"@.len() == 10);
}

/// A prompt stops for the reason that the runner names. Without a reason, and where
/// the agent is lost, the turn is simply over. An error is none of these, and keeps
/// its code, its message and its data.
pub proof fn law_outcomes_are_what_they_say(outcome: PromptOutcomeV)
    ensures
        match outcome {
            PromptOutcomeV::Completed { stop_reason: Some(reason) } => {
                &&& outcome_stop(outcome) == Some(StopReason::EndTurn) <==> reason == "end_turn"@
                &&& outcome_stop(outcome) == Some(StopReason::MaxTokens) <==> reason
                    == "max_tokens"@
                &&& outcome_stop(outcome) == Some(StopReason::MaxTurnRequests) <==> reason
                    == "max_turn_requests"@
                &&& outcome_stop(outcome) == Some(StopReason::Refusal) <==> reason == "refusal"@
                &&& outcome_stop(outcome) == Some(StopReason::Cancelled) <==> reason == "cancelled"@
            },
            PromptOutcomeV::Completed { stop_reason: None } | PromptOutcomeV::Aborted =>
                outcome_stop(outcome) == Some(StopReason::EndTurn),
            PromptOutcomeV::Error { code, message, data } => {
                &&& outcome_stop(outcome) is None
                &&& outcome_error(outcome) matches SessionErrorV::Rpc(error)
                &&& error.code == code && error.message == message && error.data == data
            },
        },
{
    lemma_reasons_differ();
}

/// The reason that is published is the runner's own where it cuts a turn short, a
/// limit under one name, and otherwise that the prompt is complete.
pub proof fn law_published_reasons_are_the_runners(outcome: PromptOutcomeV)
    ensures
        ({
            let told = outcome_reason(outcome);
            match outcome {
                PromptOutcomeV::Completed { stop_reason: Some(reason) } => {
                    &&& reason == "cancelled"@ || reason == "max_tokens"@ || reason == "refusal"@
                        || reason == "max_turn_requests"@ ==> told == reason
                    &&& reason == "rate_limited"@ || reason == "rate_limit"@ ==> told
                        == "rate_limited"@
                    &&& reason == "end_turn"@ ==> told == "prompt_complete"@
                    &&& told == reason || told == "rate_limited"@ || told == "prompt_complete"@
                },
                _ => told == "prompt_complete"@,
            }
        }),
{
    lemma_reasons_differ();
}

/// A prompt is refused exactly while another waits, with an error of the client.
pub proof fn law_one_prompt_waits_at_a_time(state: ControlStateV, protocol: ControlProtocolV)
    ensures
        prompt_refusal(state, protocol) is Some <==> state.completion is Pending,
        prompt_refusal(state, protocol) matches Some(outcome) ==> {
            &&& outcome matches PromptOutcomeV::Error { code, message, data }
            &&& code == protocol.internal_error as i32
            &&& message == "a local prompt is already awaiting completion"@
            &&& data is None
        },
{
}

/// Letting a prompt go, or an adopted turn, ends just that: the calls that are on
/// their way stay on their way, and a channel in any other state stays in it.
pub proof fn law_letting_go_keeps_the_calls(state: ControlStateV)
    ensures
        state.completion is Pending ==> released(state).completion is LocalIdle,
        state.completion !is Pending ==> released(state) == state,
        state.completion is Adopted ==> superseded(state).completion is LocalIdle,
        state.completion !is Adopted ==> superseded(state) == state,
        released(state).forward == state.forward && released(state).reverse == state.reverse,
        superseded(state).forward == state.forward && superseded(state).reverse == state.reverse,
        released(state).next_synthetic == state.next_synthetic,
        superseded(state).next_synthetic == state.next_synthetic,
{
}

/// A runner is accepted exactly where it greets for the session that is meant, in the
/// client's own version.
pub proof fn law_only_the_meant_runner_is_accepted(
    read: HelloReadV,
    session_label: Seq<char>,
    version: u32,
)
    ensures
        hello_error(read, session_label, version) is None <==> read == (HelloReadV::Hello {
            control_protocol_version: version,
            session_id: session_label,
        }),
        match read {
            HelloReadV::Failed(error) => hello_error(read, session_label, version) == Some(
                "read runner Hello: "@ + error,
            ),
            HelloReadV::Closed => hello_error(read, session_label, version) == Some(
                "runner closed before Hello"@,
            ),
            HelloReadV::Unexpected(frame) => hello_error(read, session_label, version) == Some(
                "runner sent "@ + frame + " before Hello"@,
            ),
            HelloReadV::Hello { session_id, .. } => hello_error(
                read,
                session_label,
                version,
            ) matches Some(told) ==> text::begins_with(told, "runner Hello mismatch: "@)
                && text::has_text(told, debug_text_of(session_label)) && text::has_text(
                told,
                debug_text_of(session_id),
            ),
        },
{
    if let HelloReadV::Hello { control_protocol_version, session_id } = read {
        let lead = "runner Hello mismatch: expected session "@;
        let mine = debug_text_of(session_label);
        let ours = " protocol v"@ + text::decimal(version as nat) + ", got session "@;
        let other = debug_text_of(session_id);
        let tail = " protocol v"@ + text::decimal(control_protocol_version as nat);
        let told = lead + mine + ours + other + tail;
        reveal_strlit("runner Hello mismatch: expected session ");
        reveal_strlit("runner Hello mismatch: ");
        let start = "runner Hello mismatch: "@;
        assert(told.subrange(0, start.len() as int) =~= start);
        text::law_parts_are_found(lead, mine, ours + other + tail);
        text::law_parts_are_found(lead + mine + ours, other, tail);
        assert(told =~= lead + mine + (ours + other + tail));
        if hello_error(read, session_label, version) is Some {
            assert(hello_error(read, session_label, version)->0 =~= told);
        }
    }
}

/// A handshake that the runner refuses fails with the runner's own error; any other
/// end of it is one of the channel, and says at which step.
pub proof fn law_a_refused_handshake_keeps_its_error(
    reply: Option<ControlBodyV>,
    step: Seq<char>,
)
    ensures
        match handshake_error(reply, step) {
            SessionErrorV::Forwarded(error) => reply == Some(
                ControlBodyV::HandshakeFailed { error },
            ),
            SessionErrorV::Internal(message) => {
                &&& !(reply is Some && reply->0 is HandshakeFailed)
                &&& step.is_suffix_of(message)
            },
            _ => false,
        },
{
    let message = "control channel closed during "@ + step;
    assert(message.subrange(message.len() - step.len(), message.len() as int) =~= step);
}

}
