//! The ways in which a connection fails.

use crate::event::{RateLimitInfo, RateLimitInfoV};
use crate::json::{Json, JsonV};
use crate::model::Duplicate;
use vstd::prelude::*;

verus! {

/// An error that the other side of a connection has answered with.
#[derive(Debug, PartialEq, Eq)]
pub struct RpcError {
    pub code: i32,
    pub message: String,
    pub data: Option<Json>,
}

/// The model of [`RpcError`].
#[verifier::ext_equal]
pub struct RpcErrorV {
    pub code: i32,
    pub message: Seq<char>,
    pub data: Option<JsonV>,
}

impl DeepView for RpcError {
    type V = RpcErrorV;

    open spec fn deep_view(&self) -> RpcErrorV {
        RpcErrorV {
            code: self.code.deep_view(),
            message: self.message.deep_view(),
            data: self.data.deep_view(),
        }
    }
}

impl Duplicate for RpcError {
    fn duplicate(&self) -> (r: Self) {
        RpcError {
            code: self.code.duplicate(),
            message: self.message.duplicate(),
            data: self.data.duplicate(),
        }
    }
}

/// Why a step of a connection failed: the other side has answered with an
/// error, or the step failed on this side for the reason that is given.
#[derive(Debug, PartialEq, Eq)]
pub enum SessionError {
    Rpc(RpcError),
    /// An error that a runner forwards from the agent.
    Forwarded(Json),
    Internal(String),
}

/// The model of [`SessionError`].
#[verifier::ext_equal]
pub enum SessionErrorV {
    Rpc(RpcErrorV),
    Forwarded(JsonV),
    Internal(Seq<char>),
}

impl DeepView for SessionError {
    type V = SessionErrorV;

    open spec fn deep_view(&self) -> SessionErrorV {
        match self {
            SessionError::Rpc(value) => SessionErrorV::Rpc(value.deep_view()),
            SessionError::Forwarded(value) => SessionErrorV::Forwarded(value.deep_view()),
            SessionError::Internal(value) => SessionErrorV::Internal(value.deep_view()),
        }
    }
}

impl Duplicate for SessionError {
    fn duplicate(&self) -> (r: Self) {
        match self {
            SessionError::Rpc(value) => SessionError::Rpc(value.duplicate()),
            SessionError::Forwarded(value) => SessionError::Forwarded(value.duplicate()),
            SessionError::Internal(value) => SessionError::Internal(value.duplicate()),
        }
    }
}

/// Why an agent could not be started.
#[derive(Debug, PartialEq, Eq)]
pub enum AcpError {
    Spawn(String),
    RateLimited(RateLimitInfo),
    /// The agent is one that the client cannot work with.
    IncompatibleAgent { detail: Json, message: String },
}

/// The model of [`AcpError`].
#[verifier::ext_equal]
pub enum AcpErrorV {
    Spawn(Seq<char>),
    RateLimited(RateLimitInfoV),
    IncompatibleAgent { detail: JsonV, message: Seq<char> },
}

impl DeepView for AcpError {
    type V = AcpErrorV;

    open spec fn deep_view(&self) -> AcpErrorV {
        match self {
            AcpError::Spawn(value) => AcpErrorV::Spawn(value.deep_view()),
            AcpError::RateLimited(value) => AcpErrorV::RateLimited(value.deep_view()),
            AcpError::IncompatibleAgent { detail, message } => {
                AcpErrorV::IncompatibleAgent {
                    detail: detail.deep_view(),
                    message: message.deep_view(),
                }
            },
        }
    }
}

impl Duplicate for AcpError {
    fn duplicate(&self) -> (r: Self) {
        match self {
            AcpError::Spawn(value) => AcpError::Spawn(value.duplicate()),
            AcpError::RateLimited(value) => AcpError::RateLimited(value.duplicate()),
            AcpError::IncompatibleAgent { detail, message } => {
                AcpError::IncompatibleAgent {
                    detail: detail.duplicate(),
                    message: message.duplicate(),
                }
            },
        }
    }
}
}
