//! The credential exchange that yields the bearer token of the remote
//! backend.

use vstd::prelude::*;
use crate::document::{text_field, text_member};
use crate::error::{AuthError, AuthErrorView};
use crate::http::{is_success, success_status, HttpMethod, HttpOutcome, HttpRequest, Payload};
use crate::json::{error_text, json_error_text, json_parse, parse};
use crate::text::join;

verus! {

/// Where credentials are exchanged for a token.
pub const LOGIN_URL: &'static str = "http://localhost:8000/auth/login";

/// Seconds after which a credential exchange is given up.
pub const LOGIN_TIMEOUT_SECS: u64 = 30;

/// The token of a successful credential exchange. It has no expiry here and
/// is not stored: the caller keeps it for as long as it is needed and hands
/// it to every classification request.
#[derive(Debug, Clone, PartialEq, Eq)]
pub struct AuthenticationSession {
    token: String,
}

impl View for AuthenticationSession {
    type V = Seq<char>;

    /// The token.
    closed spec fn view(&self) -> Seq<char> {
        self.token@
    }
}

impl AuthenticationSession {
    /// The token, to be passed to the remote backend.
    pub fn token(&self) -> (r: &str)
        ensures
            r@ == self@,
    {
        self.token.as_str()
    }
}

/// `request` is the credential exchange for `username` and `password`: a
/// POST to the login endpoint with both in the body and no authorization.
pub open spec fn is_login_request(
    request: HttpRequest,
    username: Seq<char>,
    password: Seq<char>,
) -> bool {
    &&& request.method == HttpMethod::Post
    &&& request.url@ == LOGIN_URL@
    &&& request.authorization is None
    &&& request.body matches Some(Payload::Login { username: name, password: secret }) && name@
        == username && secret@ == password
    &&& request.timeout_secs == LOGIN_TIMEOUT_SECS
}

/// What the outcome of a credential exchange amounts to: the token, or why
/// there is none. A token is owed only for a success status with a body that
/// is a JSON object whose `access_token` is a non-empty string.
pub open spec fn login_outcome(outcome: HttpOutcome) -> Result<Seq<char>, AuthErrorView> {
    match outcome {
        HttpOutcome::Unreachable { detail } => Err(
            AuthErrorView::Transport { detail: "Auth request failed: "@ + detail@ },
        ),
        HttpOutcome::Answered { status, body } => if !success_status(status) {
            Err(AuthErrorView::Rejected { detail: "Authentication failed"@ })
        } else {
            match json_parse(body@) {
                Err(error) => Err(
                    AuthErrorView::Rejected {
                        detail: "Failed to parse auth response: "@ + json_error_text(error),
                    },
                ),
                Ok(doc) => match text_member(doc, "access_token"@) {
                    Some(token) => if token.len() > 0 {
                        Ok(token)
                    } else {
                        Err(AuthErrorView::Rejected { detail: "Invalid token format"@ })
                    },
                    None => Err(AuthErrorView::Rejected { detail: "Invalid token format"@ }),
                },
            }
        },
    }
}

/// The model of what a credential exchange returns.
pub open spec fn session_view(result: Result<AuthenticationSession, AuthError>) -> Result<
    Seq<char>,
    AuthErrorView,
> {
    match result {
        Ok(session) => Ok(session@),
        Err(error) => Err(error@),
    }
}

/// The request that exchanges `username` and `password` for a token.
pub fn login_request(username: &str, password: &str) -> (r: HttpRequest)
    ensures
        is_login_request(r, username@, password@),
{
    HttpRequest {
        method: HttpMethod::Post,
        url: String::from_str(LOGIN_URL),
        authorization: None,
        body: Some(
            Payload::Login {
                username: String::from_str(username),
                password: String::from_str(password),
            },
        ),
        timeout_secs: LOGIN_TIMEOUT_SECS,
    }
}

fn invalid_token() -> (r: AuthError)
    ensures
        r@ == (AuthErrorView::Rejected { detail: "Invalid token format"@ }),
{
    AuthError::Rejected { detail: String::from_str("Invalid token format") }
}

/// Turns the outcome of a credential exchange into a session or an error: a
/// transport error when no response arrived, and a rejection for a
/// non-success status, for a body that is not JSON, and for a body without a
/// non-empty `access_token` string.
pub fn authenticate(outcome: HttpOutcome) -> (r: Result<AuthenticationSession, AuthError>)
    ensures
        session_view(r) == login_outcome(outcome),
{
    match outcome {
        HttpOutcome::Unreachable { detail } => Err(
            AuthError::Transport { detail: join("Auth request failed: ", detail.as_str()) },
        ),
        HttpOutcome::Answered { status, body } => {
            if !is_success(status) {
                return Err(
                    AuthError::Rejected { detail: String::from_str("Authentication failed") },
                );
            }
            match parse(body.as_str()) {
                Err(error) => Err(
                    AuthError::Rejected {
                        detail: join(
                            "Failed to parse auth response: ",
                            error_text(&error).as_str(),
                        ),
                    },
                ),
                Ok(doc) => match text_field(&doc, "access_token") {
                    Some(token) => if token.as_str().is_empty() {
                        Err(invalid_token())
                    } else {
                        Ok(AuthenticationSession { token })
                    },
                    None => Err(invalid_token()),
                },
            }
        },
    }
}

/// Credentials that the backend does not accept never yield a token: any
/// response with a non-success status is a rejection.
pub proof fn lemma_refused_credentials_are_rejected(outcome: HttpOutcome)
    requires
        outcome is Answered,
        !success_status(outcome->status),
    ensures
        login_outcome(outcome) is Err,
        login_outcome(outcome)->Err_0 is Rejected,
{
}

/// A token that a credential exchange yields is never empty.
pub proof fn lemma_token_is_not_empty(outcome: HttpOutcome)
    requires
        login_outcome(outcome) is Ok,
    ensures
        login_outcome(outcome)->Ok_0.len() > 0,
        outcome is Answered,
        success_status(outcome->status),
{
}

} // verus!
