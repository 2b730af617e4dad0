//! Error responses, and the table that turns every upstream failure into one.

use vstd::prelude::*;

use crate::codec::{json_string_member, read_json_string_member, text_of};
use crate::status::StatusCode;

verus! {

/// Message of a request that named the wrong organization.
pub const BAD_REQUEST: &'static str = "Bad Request";

/// Message of a request whose credential the upstream platform did not accept.
pub const UNAUTHORIZED: &'static str = "Unauthorized";

/// Message of a request for a path that the gateway does not serve.
pub const NOT_FOUND: &'static str = "Not Found";

/// Message of a failure while the upstream vault is locked.
pub const VAULT_LOCKED: &'static str = "Vault Locked";

/// Message of an upstream response that could not be processed.
pub const INVALID_RESPONSE: &'static str = "Invalid Response";

/// Message of an upstream response that lacks required fields.
pub const MISSING_FIELDS: &'static str = "Missing Fields";

/// Message of every failure whose cause is kept from the caller.
pub const INTERNAL_SERVER_ERROR: &'static str = "Internal Server Error";

/// Member of an upstream error body that holds its message.
pub const MESSAGE_FIELD: &'static str = "message";

/// What an [`ErrorMessage`] holds.
pub struct ErrorMessageView {
    pub code: int,
    pub message: Seq<char>,
}

/// The answer to a failed request: an HTTP status and a message for the
/// caller. Every failure is answered in this one shape.
#[derive(Debug)]
pub struct ErrorMessage {
    pub code: StatusCode,
    pub message: String,
}

impl View for ErrorMessage {
    type V = ErrorMessageView;

    open spec fn view(&self) -> ErrorMessageView {
        ErrorMessageView { code: self.code@, message: self.message@ }
    }
}

impl Clone for ErrorMessage {
    fn clone(&self) -> (copy: ErrorMessage)
        ensures
            copy@ == self@,
    {
        ErrorMessage { code: self.code, message: self.message.clone() }
    }
}

impl ErrorMessage {
    /// The error with status `code` and the fixed message `message`.
    pub fn fixed(code: StatusCode, message: &str) -> (error: ErrorMessage)
        ensures
            error@ == (ErrorMessageView { code: code@, message: message@ }),
    {
        ErrorMessage { code, message: message.to_string() }
    }
}

/// The answer to a request for a path that the gateway does not serve.
pub fn not_found_handler() -> (error: ErrorMessage)
    ensures
        error@ == (ErrorMessageView { code: 404, message: NOT_FOUND@ }),
{
    ErrorMessage::fixed(StatusCode::not_found(), NOT_FOUND)
}

/// Why a call to the upstream platform failed. Where the platform's client
/// reports a cause of its own, `detail` is that cause in words.
#[derive(Debug)]
pub enum UpstreamFailure {
    /// The session is not authenticated, or has expired.
    NotAuthenticated,
    /// The vault is locked.
    VaultLocked,
    /// The access token is not in a valid format.
    AccessTokenInvalid { detail: String },
    /// The response could not be processed.
    InvalidResponse,
    /// The response lacks required fields.
    MissingFields,
    /// A cryptographic operation failed.
    Crypto { detail: String },
    /// An encrypted string could not be parsed.
    InvalidEncString { detail: String },
    /// The identity service rejected the login.
    IdentityFail { detail: String },
    /// The call itself failed in transport.
    Reqwest { detail: String },
    /// Data could not be serialized or deserialized.
    Serde { detail: String },
    /// Local input or output failed.
    Io { detail: String },
    /// A base64 payload is malformed.
    InvalidBase64 { detail: String },
    /// A date or time could not be parsed.
    Chrono { detail: String },
    /// The platform answered with an error of its own: a status and a body.
    ResponseContent { status: StatusCode, message: String },
    /// The persisted session state has the wrong version.
    InvalidStateFileVersion,
    /// The persisted session state could not be read.
    InvalidStateFile,
    /// Any other failure inside the platform's client.
    Internal { detail: String },
}

/// The error response for the failure `cause`, where `extracted` is the
/// message found in the body of an upstream error response, if one was.
///
/// Failures that the caller can correct keep their detail: a bad token, a
/// refused login. Failures that would disclose internals are flattened to a
/// fixed message. An upstream error response keeps its status, with the
/// message from its body, or the whole body where no message was found.
pub open spec fn classified(cause: UpstreamFailure, extracted: Option<Seq<char>>)
    -> ErrorMessageView {
    match cause {
        UpstreamFailure::NotAuthenticated => ErrorMessageView {
            code: 401,
            message: UNAUTHORIZED@,
        },
        UpstreamFailure::VaultLocked => ErrorMessageView { code: 423, message: VAULT_LOCKED@ },
        UpstreamFailure::AccessTokenInvalid { detail } => ErrorMessageView {
            code: 401,
            message: detail@,
        },
        UpstreamFailure::InvalidResponse => ErrorMessageView {
            code: 422,
            message: INVALID_RESPONSE@,
        },
        UpstreamFailure::MissingFields => ErrorMessageView {
            code: 422,
            message: MISSING_FIELDS@,
        },
        UpstreamFailure::Crypto { detail } => ErrorMessageView { code: 401, message: detail@ },
        UpstreamFailure::InvalidEncString { detail } => ErrorMessageView {
            code: 401,
            message: detail@,
        },
        UpstreamFailure::IdentityFail { detail } => ErrorMessageView {
            code: 401,
            message: detail@,
        },
        UpstreamFailure::ResponseContent { status, message } => ErrorMessageView {
            code: status@,
            message: match extracted {
                Some(text) => text,
                None => message@,
            },
        },
        UpstreamFailure::Reqwest { .. }
        | UpstreamFailure::Serde { .. }
        | UpstreamFailure::Io { .. }
        | UpstreamFailure::InvalidBase64 { .. }
        | UpstreamFailure::Chrono { .. }
        | UpstreamFailure::InvalidStateFileVersion
        | UpstreamFailure::InvalidStateFile
        | UpstreamFailure::Internal { .. } => ErrorMessageView {
            code: 500,
            message: INTERNAL_SERVER_ERROR@,
        },
    }
}

/// The message that the body of an upstream error response holds under
/// `message`, for a failure that is such a response; `None` for every other.
pub open spec fn upstream_message(cause: UpstreamFailure) -> Option<Seq<char>> {
    match cause {
        UpstreamFailure::ResponseContent { message, .. } => json_string_member(
            message@,
            MESSAGE_FIELD@,
        ),
        _ => None,
    }
}

/// Classifies `cause`, given the message `extracted` from the body of an
/// upstream error response. For every other failure `extracted` is not read.
pub fn classify_with(cause: UpstreamFailure, extracted: Option<String>) -> (error: ErrorMessage)
    ensures
        error@ == classified(cause, text_of(extracted)),
{
    match cause {
        UpstreamFailure::NotAuthenticated => ErrorMessage::fixed(
            StatusCode::unauthorized(),
            UNAUTHORIZED,
        ),
        UpstreamFailure::VaultLocked => ErrorMessage::fixed(StatusCode::locked(), VAULT_LOCKED),
        UpstreamFailure::AccessTokenInvalid { detail } => ErrorMessage {
            code: StatusCode::unauthorized(),
            message: detail,
        },
        UpstreamFailure::InvalidResponse => ErrorMessage::fixed(
            StatusCode::unprocessable_entity(),
            INVALID_RESPONSE,
        ),
        UpstreamFailure::MissingFields => ErrorMessage::fixed(
            StatusCode::unprocessable_entity(),
            MISSING_FIELDS,
        ),
        UpstreamFailure::Crypto { detail } => ErrorMessage {
            code: StatusCode::unauthorized(),
            message: detail,
        },
        UpstreamFailure::InvalidEncString { detail } => ErrorMessage {
            code: StatusCode::unauthorized(),
            message: detail,
        },
        UpstreamFailure::IdentityFail { detail } => ErrorMessage {
            code: StatusCode::unauthorized(),
            message: detail,
        },
        UpstreamFailure::ResponseContent { status, message } => ErrorMessage {
            code: status,
            message: match extracted {
                Some(text) => text,
                None => message,
            },
        },
        UpstreamFailure::Reqwest { .. }
        | UpstreamFailure::Serde { .. }
        | UpstreamFailure::Io { .. }
        | UpstreamFailure::InvalidBase64 { .. }
        | UpstreamFailure::Chrono { .. }
        | UpstreamFailure::InvalidStateFileVersion
        | UpstreamFailure::InvalidStateFile
        | UpstreamFailure::Internal { .. } => ErrorMessage::fixed(
            StatusCode::internal_server_error(),
            INTERNAL_SERVER_ERROR,
        ),
    }
}

/// Turns the failure `cause` of an upstream call into the error response
/// that the caller receives.
pub fn classify(cause: UpstreamFailure) -> (error: ErrorMessage)
    ensures
        error@ == classified(cause, upstream_message(cause)),
{
    let extracted = match &cause {
        UpstreamFailure::ResponseContent { message, .. } => read_json_string_member(
            message.as_str(),
            MESSAGE_FIELD,
        ),
        _ => None,
    };
    classify_with(cause, extracted)
}

} // verus!
