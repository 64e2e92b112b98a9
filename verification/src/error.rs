//! The failures that the service reports to its clients.

use crate::models::ErrorResponse;
use crate::number::{decimal, push_decimal};
use vstd::prelude::*;
use vstd::string::StringExecFns;

verus! {

/// A failure of the service.
#[derive(Debug)]
pub enum AgentError {
    ConfigError(String),
    RequestFailed(String),
    ApiError { status: u16, message: String },
    ParseError(String),
    StreamError(String),
    InvalidRequest(String),
    Internal(String),
    ToolError(String),
}

/// The HTTP status for a gateway that failed.
pub const BAD_GATEWAY: u16 = 502;

/// The HTTP status for a failure of the service itself.
pub const INTERNAL_SERVER_ERROR: u16 = 500;

/// The HTTP status for a request that cannot be served as it is.
pub const BAD_REQUEST: u16 = 400;

/// Whether a number is an HTTP status code.
pub open spec fn is_status_code(status: u16) -> bool {
    100 <= status < 1000
}

impl AgentError {
    /// What the failure says.
    pub open spec fn detail(&self) -> Seq<char> {
        match self {
            AgentError::ConfigError(m) => m@,
            AgentError::RequestFailed(m) => m@,
            AgentError::ApiError { message, .. } => message@,
            AgentError::ParseError(m) => m@,
            AgentError::StreamError(m) => m@,
            AgentError::InvalidRequest(m) => m@,
            AgentError::Internal(m) => m@,
            AgentError::ToolError(m) => m@,
        }
    }

    /// The text of the failure: its kind, then what it says.
    pub open spec fn text(&self) -> Seq<char> {
        match self {
            AgentError::ConfigError(m) => "Configuration error: "@ + m@,
            AgentError::RequestFailed(m) => "Request failed: "@ + m@,
            AgentError::ApiError { status, message } => "API error (status "@ + decimal(
                *status as nat,
            ) + "): "@ + message@,
            AgentError::ParseError(m) => "Parse error: "@ + m@,
            AgentError::StreamError(m) => "Stream error: "@ + m@,
            AgentError::InvalidRequest(m) => "Invalid request: "@ + m@,
            AgentError::Internal(m) => "Internal error: "@ + m@,
            AgentError::ToolError(m) => "Tool error: "@ + m@,
        }
    }

    /// The HTTP status that the failure is answered with. A failure of the
    /// gateway's API keeps the gateway's status where that is a status code.
    pub open spec fn http_status(&self) -> u16 {
        match self {
            AgentError::RequestFailed(_) => BAD_GATEWAY,
            AgentError::ApiError { status, .. } => if is_status_code(*status) {
                *status
            } else {
                BAD_GATEWAY
            },
            AgentError::InvalidRequest(_) => BAD_REQUEST,
            _ => INTERNAL_SERVER_ERROR,
        }
    }

    /// The code that names the kind of failure in the body of the answer.
    pub open spec fn code(&self) -> Seq<char> {
        match self {
            AgentError::ConfigError(_) => "CONFIG_ERROR"@,
            AgentError::RequestFailed(_) => "REQUEST_FAILED"@,
            AgentError::ApiError { .. } => "API_ERROR"@,
            AgentError::ParseError(_) => "PARSE_ERROR"@,
            AgentError::StreamError(_) => "STREAM_ERROR"@,
            AgentError::InvalidRequest(_) => "INVALID_REQUEST"@,
            AgentError::Internal(_) => "INTERNAL_ERROR"@,
            AgentError::ToolError(_) => "TOOL_ERROR"@,
        }
    }

    /// The text of the failure.
    pub fn message(&self) -> (s: String)
        ensures
            s@ == self.text(),
    {
        match self {
            AgentError::ConfigError(m) => "Configuration error: ".to_owned().concat(m.as_str()),
            AgentError::RequestFailed(m) => "Request failed: ".to_owned().concat(m.as_str()),
            AgentError::ApiError { status, message } => {
                let mut s = "API error (status ".to_owned();
                push_decimal(&mut s, *status as u64);
                s.append("): ");
                s.append(message.as_str());
                s
            },
            AgentError::ParseError(m) => "Parse error: ".to_owned().concat(m.as_str()),
            AgentError::StreamError(m) => "Stream error: ".to_owned().concat(m.as_str()),
            AgentError::InvalidRequest(m) => "Invalid request: ".to_owned().concat(m.as_str()),
            AgentError::Internal(m) => "Internal error: ".to_owned().concat(m.as_str()),
            AgentError::ToolError(m) => "Tool error: ".to_owned().concat(m.as_str()),
        }
    }

    /// The answer to a client: the HTTP status, and the body with what the
    /// failure says and the code of its kind.
    pub fn into_response(self) -> (r: (u16, ErrorResponse))
        ensures
            r.0 == self.http_status(),
            r.1.error@ == self.detail(),
            r.1.code@ == self.code(),
    {
        match self {
            AgentError::ConfigError(m) => (
                INTERNAL_SERVER_ERROR,
                ErrorResponse { error: m, code: "CONFIG_ERROR".to_owned() },
            ),
            AgentError::RequestFailed(m) => (
                BAD_GATEWAY,
                ErrorResponse { error: m, code: "REQUEST_FAILED".to_owned() },
            ),
            AgentError::ApiError { status, message } => {
                let answered: u16 = if 100 <= status && status < 1000 {
                    status
                } else {
                    BAD_GATEWAY
                };
                (answered, ErrorResponse { error: message, code: "API_ERROR".to_owned() })
            },
            AgentError::ParseError(m) => (
                INTERNAL_SERVER_ERROR,
                ErrorResponse { error: m, code: "PARSE_ERROR".to_owned() },
            ),
            AgentError::StreamError(m) => (
                INTERNAL_SERVER_ERROR,
                ErrorResponse { error: m, code: "STREAM_ERROR".to_owned() },
            ),
            AgentError::InvalidRequest(m) => (
                BAD_REQUEST,
                ErrorResponse { error: m, code: "INVALID_REQUEST".to_owned() },
            ),
            AgentError::Internal(m) => (
                INTERNAL_SERVER_ERROR,
                ErrorResponse { error: m, code: "INTERNAL_ERROR".to_owned() },
            ),
            AgentError::ToolError(m) => (
                INTERNAL_SERVER_ERROR,
                ErrorResponse { error: m, code: "TOOL_ERROR".to_owned() },
            ),
        }
    }
}

} // verus!
