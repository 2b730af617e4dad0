//! What holds of every request, stated over the answers that the handler and
//! the classifier are specified to give.

use vstd::prelude::*;

use crate::codec::rfc3339_text;
use crate::error::{
    classified, upstream_message, ErrorMessageView, UpstreamFailure, INTERNAL_SERVER_ERROR,
};
use crate::handler::{
    answer, answer_status, bad_request, fetch_answer, unauthorized, SecretIdentifier,
};
use crate::secret::UpstreamSecret;
use crate::status::StatusCode;

verus! {

/// A secret of the organization that the request names is returned with
/// status 200, and its identifiers, key, note and timestamps are those of the
/// upstream record.
pub proof fn matching_secret_is_returned(identifier: SecretIdentifier, secret: UpstreamSecret)
    requires
        secret.organization_id == identifier.organization_id,
    ensures
        answer_status(answer(identifier, Ok(()), Ok(secret))) == 200,
        answer(identifier, Ok(()), Ok(secret)) matches Ok(body) && {
            &&& body.id == secret.id
            &&& body.organization_id == secret.organization_id
            &&& body.project_id == secret.project_id
            &&& body.key == secret.key@
            &&& body.note == secret.note@
            &&& body.creation_date == rfc3339_text(
                secret.creation_date@.seconds,
                secret.creation_date@.nanos,
            )
            &&& body.revision_date == rfc3339_text(
                secret.revision_date@.seconds,
                secret.revision_date@.nanos,
            )
        },
{
}

/// A secret of another organization than the request names is answered with
/// 400 and a fixed message. The answer holds nothing of the secret, so it
/// does not tell a secret that exists elsewhere from a malformed request.
pub proof fn scope_mismatch_is_bad_request(identifier: SecretIdentifier, secret: UpstreamSecret)
    requires
        secret.organization_id != identifier.organization_id,
    ensures
        answer(identifier, Ok(()), Ok(secret)) matches Err(error) && error == bad_request(),
        answer_status(answer(identifier, Ok(()), Ok(secret))) == 400,
{
}

/// Every failed login is answered with 401 and the same fixed message,
/// whatever its cause, and whatever a fetch would have returned.
pub proof fn login_failure_is_unauthorized(
    identifier: SecretIdentifier,
    cause: UpstreamFailure,
    fetch: Result<UpstreamSecret, UpstreamFailure>,
)
    ensures
        answer(identifier, Err(cause), fetch) matches Err(error) && error == unauthorized(),
        answer_status(answer(identifier, Err(cause), fetch)) == 401,
{
}

/// The project that a request names is not checked against the secret: two
/// requests that differ in nothing else are answered alike.
pub proof fn project_is_not_checked(
    first: SecretIdentifier,
    second: SecretIdentifier,
    login: Result<(), UpstreamFailure>,
    fetch: Result<UpstreamSecret, UpstreamFailure>,
)
    requires
        first.organization_id == second.organization_id,
    ensures
        answer(first, login, fetch) == answer(second, login, fetch),
{
}

/// After a login that succeeded, a failed fetch is answered as the
/// classifier says.
pub proof fn fetch_failure_is_classified(identifier: SecretIdentifier, cause: UpstreamFailure)
    ensures
        answer(identifier, Ok(()), Err(cause)) matches Err(error) && error == classified(
            cause,
            upstream_message(cause),
        ),
{
}

/// An upstream error response keeps its status. Its message is the one found
/// in its body, and the whole body where none was found.
pub proof fn upstream_status_passes_through(
    status: StatusCode,
    body: String,
    extracted: Option<Seq<char>>,
)
    ensures
        classified(UpstreamFailure::ResponseContent { status, message: body }, extracted).code
            == status@,
        extracted matches Some(text) ==> classified(
            UpstreamFailure::ResponseContent { status, message: body },
            extracted,
        ).message == text,
        extracted is None ==> classified(
            UpstreamFailure::ResponseContent { status, message: body },
            extracted,
        ).message == body@,
{
}

/// Whether `cause` is a failure of transport, of encoding, of local state or
/// of the platform's client itself: one whose detail is kept from the caller.
pub open spec fn internal(cause: UpstreamFailure) -> bool {
    cause is Reqwest || cause is Serde || cause is Io || cause is InvalidBase64 || cause is Chrono
        || cause is InvalidStateFileVersion || cause is InvalidStateFile || cause is Internal
}

/// An internal failure is answered with 500 and one fixed message: no two
/// such failures can be told apart by their answers, whatever detail they
/// carry.
pub proof fn internal_failure_discloses_nothing(
    cause: UpstreamFailure,
    extracted: Option<Seq<char>>,
)
    requires
        internal(cause),
    ensures
        classified(cause, extracted) == (ErrorMessageView {
            code: 500,
            message: INTERNAL_SERVER_ERROR@,
        }),
{
}

/// Every failure but an upstream error response is answered with one of
/// four statuses.
pub proof fn classified_status_is_fixed(cause: UpstreamFailure, extracted: Option<Seq<char>>)
    requires
        !(cause is ResponseContent),
    ensures
        ({
            let code = classified(cause, extracted).code;
            code == 401 || code == 422 || code == 423 || code == 500
        }),
{
}

/// The status of a failed request is the status that its error names, and
/// that of a request that was answered with a secret is 200.
pub proof fn status_mirrors_answer(
    organization_id: u128,
    fetch: Result<UpstreamSecret, UpstreamFailure>,
)
    ensures
        fetch_answer(organization_id, fetch) matches Err(error) ==> answer_status(
            fetch_answer(organization_id, fetch),
        ) == error.code,
        fetch_answer(organization_id, fetch) is Ok ==> answer_status(
            fetch_answer(organization_id, fetch),
        ) == 200,
{
}

} // verus!
