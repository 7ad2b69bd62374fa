use crate::request::{
    headers_view, profile_header_list, profile_headers, AppProfile, Method, RequestPlan,
};
use vstd::prelude::*;

verus! {

/// Success shape of the login response: `{status, data: {authTicket, user}}`.
#[derive(Debug, Clone)]
pub struct ResponseLoginRequest {
    pub status: i32,
    pub data: LoginData,
}

/// What a successful login hands back: the ticket and the user.
#[derive(Debug, Clone)]
pub struct LoginData {
    pub auth_ticket: AuthTicket,
    pub user: DataUser,
}

/// The user record of a login; its id identifies the account.
#[derive(Debug, Clone)]
pub struct DataUser {
    pub id: String,
}

/// The bearer token with its expiry and lifetime, as the service states them.
#[derive(Debug, Clone)]
pub struct AuthTicket {
    pub token: String,
    pub expires: u64,
    pub duration: u64,
}

/// Failure shape of the login response: `{status, error?: {message}}`.
#[derive(Debug, Clone)]
pub struct ErrorResponse {
    pub status: i32,
    pub error: Option<Error>,
}

/// The message that the service attaches to a failed login.
#[derive(Debug, Clone)]
pub struct Error {
    pub message: String,
}

/// Why a session could not be established.
#[derive(Debug, Clone, PartialEq, Eq)]
pub enum AuthError {
    /// The body was empty or the literal `{}`.
    EmptyResponse,
    /// The account has not yet accepted the privacy policy in the official app.
    PrivacyPolicyAcceptanceRequired,
    /// The service refused the credentials, with its message.
    AuthenticationRejected(String),
    /// A failure status other than the known ones.
    UnknownError,
    /// The request did not complete; the transport's description.
    TransportError(String),
    /// The body matched neither the success nor the failure shape.
    DecodeError,
}

/// Human-readable text of each error.
pub open spec fn error_message(e: AuthError) -> Seq<char> {
    match e {
        AuthError::EmptyResponse => "No response from Libre Link"@,
        AuthError::PrivacyPolicyAcceptanceRequired =>
            "Privacy policy acceptance required, first login using the Libre Linkup app"@,
        AuthError::AuthenticationRejected(m) => m@,
        AuthError::UnknownError => "Unknown error"@,
        AuthError::TransportError(m) => m@,
        AuthError::DecodeError => "Unexpected response from Libre Link"@,
    }
}

impl AuthError {
    /// The text to show for this error: the service's message where it gave one.
    pub fn message(&self) -> (r: String)
        ensures
            r@ == error_message(*self),
    {
        match self {
            AuthError::EmptyResponse => String::from_str("No response from Libre Link"),
            AuthError::PrivacyPolicyAcceptanceRequired => String::from_str(
                "Privacy policy acceptance required, first login using the Libre Linkup app",
            ),
            AuthError::AuthenticationRejected(m) => m.clone(),
            AuthError::UnknownError => String::from_str("Unknown error"),
            AuthError::TransportError(m) => m.clone(),
            AuthError::DecodeError => String::from_str("Unexpected response from Libre Link"),
        }
    }
}

/// Status of a failure response asking for the privacy policy to be accepted.
pub const STATUS_PRIVACY_POLICY: i32 = 4;

/// Status of a failure response that rejects the credentials.
pub const STATUS_REJECTED: i32 = 2;

/// Message of a rejection that came without one of the service's own.
pub open spec fn fallback_message() -> Seq<char> {
    "Unknown error"@
}

/// The message that a rejection carries for this failure response.
pub open spec fn rejection_message(resp: ErrorResponse) -> Seq<char> {
    match resp.error {
        Some(e) => e.message@,
        None => fallback_message(),
    }
}

/// `e` is the error that the failure response `resp` stands for.
pub open spec fn is_failure_for(e: AuthError, resp: ErrorResponse) -> bool {
    if resp.status == STATUS_PRIVACY_POLICY {
        e is PrivacyPolicyAcceptanceRequired
    } else if resp.status == STATUS_REJECTED {
        &&& e is AuthenticationRejected
        &&& e->AuthenticationRejected_0@ == rejection_message(resp)
    } else {
        e is UnknownError
    }
}

/// The error for a decoded failure response, by its status.
pub fn failure_error(resp: ErrorResponse) -> (r: AuthError)
    ensures
        is_failure_for(r, resp),
{
    if resp.status == STATUS_PRIVACY_POLICY {
        AuthError::PrivacyPolicyAcceptanceRequired
    } else if resp.status == STATUS_REJECTED {
        let message = match resp.error {
            Some(e) => e.message,
            None => String::from_str("Unknown error"),
        };
        AuthError::AuthenticationRejected(message)
    } else {
        AuthError::UnknownError
    }
}

/// The outcome of a login from its raw body and the two trial decodings of it
/// (`None` where the body does not have that shape). An empty body fails
/// whatever the decodings hold; the success shape is preferred to the failure
/// shape.
pub open spec fn login_outcome(
    body: Seq<char>,
    success: Option<ResponseLoginRequest>,
    failure: Option<ErrorResponse>,
    r: Result<LoginData, AuthError>,
) -> bool {
    if empty_body(body) {
        r == Err::<LoginData, AuthError>(AuthError::EmptyResponse)
    } else if success is Some {
        r == Ok::<LoginData, AuthError>(success->0.data)
    } else if failure is Some {
        r is Err && is_failure_for(r->Err_0, failure->0)
    } else {
        r == Err::<LoginData, AuthError>(AuthError::DecodeError)
    }
}

/// Decides a login from the response body and its decodings in the success
/// and failure shapes.
pub fn interpret_login_response(
    body: &str,
    success: Option<ResponseLoginRequest>,
    failure: Option<ErrorResponse>,
) -> (r: Result<LoginData, AuthError>)
    ensures
        login_outcome(body@, success, failure, r),
{
    if is_empty_body(body) {
        return Err(AuthError::EmptyResponse);
    }
    match success {
        Some(resp) => Ok(resp.data),
        None => match failure {
            Some(resp) => Err(failure_error(resp)),
            None => Err(AuthError::DecodeError),
        },
    }
}

/// Login body that the service answers with when it has nothing to say.
pub open spec fn empty_body(s: Seq<char>) -> bool {
    s.len() == 0 || s == seq!['{', '}']
}

/// True when the login response body is empty or the literal `{}`.
pub fn is_empty_body(body: &str) -> (r: bool)
    ensures
        r == empty_body(body@),
{
    if body.is_empty() {
        return true;
    }
    if body.unicode_len() != 2 {
        return false;
    }
    let first = body.get_char(0);
    let second = body.get_char(1);
    if first == '{' && second == '}' {
        assert(body@ =~= seq!['{', '}']);
        true
    } else {
        false
    }
}

/// A body that is empty or `{}` fails with `EmptyResponse`, whatever its
/// decodings hold: the body is judged before any decoding counts.
pub proof fn lemma_empty_body_fails_first(
    body: Seq<char>,
    success: Option<ResponseLoginRequest>,
    failure: Option<ErrorResponse>,
    r: Result<LoginData, AuthError>,
)
    requires
        empty_body(body),
        login_outcome(body, success, failure, r),
    ensures
        r == Err::<LoginData, AuthError>(AuthError::EmptyResponse),
{
}

/// A failure response with the privacy-policy status fails with
/// `PrivacyPolicyAcceptanceRequired`, whatever message it carries.
pub proof fn lemma_privacy_status_fails(
    body: Seq<char>,
    failure: ErrorResponse,
    r: Result<LoginData, AuthError>,
)
    requires
        !empty_body(body),
        failure.status == STATUS_PRIVACY_POLICY,
        login_outcome(body, None, Some(failure), r),
    ensures
        r == Err::<LoginData, AuthError>(AuthError::PrivacyPolicyAcceptanceRequired),
{
}

/// A rejection without an error field carries the fixed fallback message.
pub proof fn lemma_rejection_without_message(
    body: Seq<char>,
    failure: ErrorResponse,
    r: Result<LoginData, AuthError>,
)
    requires
        !empty_body(body),
        failure.status == STATUS_REJECTED,
        failure.error is None,
        login_outcome(body, None, Some(failure), r),
    ensures
        r is Err,
        r->Err_0 is AuthenticationRejected,
        r->Err_0->AuthenticationRejected_0@ == "Unknown error"@,
{
}

/// Address of the login endpoint.
pub open spec fn login_url() -> Seq<char> {
    "https://api.libreview.io/llu/auth/login"@
}

/// The login request; its JSON body is `{email, password}` of the credentials.
pub fn login_request() -> (r: RequestPlan)
    ensures
        r.method == Method::Post,
        r.url@ == login_url(),
        headers_view(r.headers@) == profile_headers(AppProfile::AndroidLogin),
{
    RequestPlan {
        method: Method::Post,
        url: String::from_str("https://api.libreview.io/llu/auth/login"),
        headers: profile_header_list(AppProfile::AndroidLogin),
    }
}

} // verus!
