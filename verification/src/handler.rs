//! The secret-retrieval request, as a pipeline with two decision points.
//!
//! A request is answered in three steps. [`get_secret`] says how to log in to
//! the upstream platform. [`Authenticating::login_finished`] takes the outcome
//! of the login and either answers the request or says which secret to fetch.
//! [`Fetching::fetch_finished`] takes the outcome of the fetch and answers the
//! request. The caller performs the two upstream calls in between. No step is
//! retried: the first failure ends the request.

use vstd::prelude::*;

use crate::codec::rfc3339_text;
use crate::error::{
    classified, classify, upstream_message, ErrorMessage, ErrorMessageView, UpstreamFailure,
    BAD_REQUEST, UNAUTHORIZED,
};
use crate::secret::{
    normalized, StructuredSecretResponse, StructuredSecretResponseView, UpstreamSecret,
};
use crate::settings::{client_settings_for, ClientSettings, Settings};
use crate::status::StatusCode;

verus! {

/// The secret that a request names: the organization and project from the
/// request path, and the secret itself. Each is a UUID, held as its 128 bits.
#[derive(Clone, Copy, Debug, PartialEq, Eq, Structural)]
pub struct SecretIdentifier {
    pub organization_id: u128,
    pub project_id: u128,
    pub secret_id: u128,
}

/// A login to the upstream platform with an access token.
#[derive(Debug)]
pub struct AccessTokenLoginRequest {
    /// The caller's bearer token.
    pub access_token: String,
    /// Where the session would be persisted. The gateway keeps no session.
    pub state_file: Option<String>,
}

/// A fetch of one secret by its identifier.
#[derive(Clone, Copy, Debug, PartialEq, Eq, Structural)]
pub struct SecretGetRequest {
    pub id: u128,
}

/// The first upstream call of a request: a fresh session, and a login in it.
#[derive(Debug)]
pub struct LoginCall {
    pub settings: ClientSettings,
    pub request: AccessTokenLoginRequest,
}

/// A request whose login is under way. It does not hold the token.
#[derive(Debug)]
pub struct Authenticating {
    identifier: SecretIdentifier,
}

/// A request whose fetch is under way.
#[derive(Debug)]
pub struct Fetching {
    organization_id: u128,
}

/// The answer to every failed login, whatever its cause.
pub open spec fn unauthorized() -> ErrorMessageView {
    ErrorMessageView { code: 401, message: UNAUTHORIZED@ }
}

/// The answer to a request that names another organization than the one the
/// secret belongs to.
pub open spec fn bad_request() -> ErrorMessageView {
    ErrorMessageView { code: 400, message: BAD_REQUEST@ }
}

/// The answer to a request for a secret of the organization
/// `organization_id`, once the fetch has ended as `fetch`.
pub open spec fn fetch_answer(
    organization_id: u128,
    fetch: Result<UpstreamSecret, UpstreamFailure>,
) -> Result<StructuredSecretResponseView, ErrorMessageView> {
    match fetch {
        Ok(secret) => if secret.organization_id == organization_id {
            Ok(normalized(secret@))
        } else {
            Err(bad_request())
        },
        Err(cause) => Err(classified(cause, upstream_message(cause))),
    }
}

/// The answer to the request for `identifier`, where the login ends as
/// `login` and the fetch, if it is made, as `fetch`.
pub open spec fn answer(
    identifier: SecretIdentifier,
    login: Result<(), UpstreamFailure>,
    fetch: Result<UpstreamSecret, UpstreamFailure>,
) -> Result<StructuredSecretResponseView, ErrorMessageView> {
    match login {
        Ok(_) => fetch_answer(identifier.organization_id, fetch),
        Err(_) => Err(unauthorized()),
    }
}

/// The HTTP status that goes with an answer.
pub open spec fn answer_status(
    answer: Result<StructuredSecretResponseView, ErrorMessageView>,
) -> int {
    match answer {
        Ok(_) => 200,
        Err(error) => error.code,
    }
}

/// What a finished request is answered with, as the views of its parts.
pub open spec fn answer_of(answer: Result<StructuredSecretResponse, ErrorMessage>) -> Result<
    StructuredSecretResponseView,
    ErrorMessageView,
> {
    match answer {
        Ok(response) => Ok(response@),
        Err(error) => Err(error@),
    }
}

/// Starts the request for `identifier` on behalf of the caller who presented
/// `token`: a session of its own, set up from `settings`, and a login with
/// the token that persists nothing.
pub fn get_secret(settings: Settings, identifier: SecretIdentifier, token: &str) -> (start: (
    Authenticating,
    LoginCall,
))
    ensures
        start.0.identifier() == identifier,
        start.1.settings@ == client_settings_for(settings@),
        start.1.request.access_token@ == token@,
        start.1.request.state_file is None,
{
    let call = LoginCall {
        settings: ClientSettings::from(settings),
        request: AccessTokenLoginRequest { access_token: token.to_string(), state_file: None },
    };
    (Authenticating { identifier }, call)
}

impl Authenticating {
    /// The secret that the request names.
    pub closed spec fn identifier(&self) -> SecretIdentifier {
        self.identifier
    }

    /// Takes the outcome of the login. A failed login is answered with 401
    /// and a fixed message, whatever its cause; after a login that succeeded
    /// the secret that the request names is fetched.
    pub fn login_finished(self, login: Result<(), UpstreamFailure>) -> (next: Result<
        (Fetching, SecretGetRequest),
        ErrorMessage,
    >)
        ensures
            login is Err ==> (next matches Err(error) && error@ == unauthorized()),
            login is Ok ==> (next matches Ok(step) && step.0.organization_id()
                == self.identifier().organization_id && step.1.id == self.identifier().secret_id),
    {
        match login {
            Ok(_) => Ok(
                (
                    Fetching { organization_id: self.identifier.organization_id },
                    SecretGetRequest { id: self.identifier.secret_id },
                ),
            ),
            Err(_) => Err(ErrorMessage::fixed(StatusCode::unauthorized(), UNAUTHORIZED)),
        }
    }
}

impl Fetching {
    /// The organization that the request names.
    pub closed spec fn organization_id(&self) -> u128 {
        self.organization_id
    }

    /// Takes the outcome of the fetch. A secret of the organization that the
    /// request names is normalised and returned; a secret of any other is
    /// answered with 400, as a malformed request would be; a failed fetch is
    /// classified.
    pub fn fetch_finished(self, fetch: Result<UpstreamSecret, UpstreamFailure>) -> (answer: Result<
        StructuredSecretResponse,
        ErrorMessage,
    >)
        ensures
            answer_of(answer) == fetch_answer(self.organization_id(), fetch),
    {
        match fetch {
            Ok(secret) => {
                if secret.organization_id != self.organization_id {
                    Err(ErrorMessage::fixed(StatusCode::bad_request(), BAD_REQUEST))
                } else {
                    Ok(StructuredSecretResponse::from(secret))
                }
            },
            Err(cause) => Err(classify(cause)),
        }
    }
}

/// The HTTP status to send with `answer`: 200 with a secret, and with an
/// error the status that the error names.
pub fn status_of(answer: &Result<StructuredSecretResponse, ErrorMessage>) -> (status: StatusCode)
    ensures
        status@ == answer_status(answer_of(*answer)),
{
    match answer {
        Ok(_) => StatusCode::ok(),
        Err(error) => error.code,
    }
}

} // verus!
