use librelinkup::login::{
    failure_error, interpret_login_response, is_empty_body, login_request, AuthError,
    AuthTicket, DataUser, Error, ErrorResponse, LoginData, ResponseLoginRequest,
};
use librelinkup::request::Method;

fn success(token: &str, id: &str) -> ResponseLoginRequest {
    ResponseLoginRequest {
        status: 0,
        data: LoginData {
            auth_ticket: AuthTicket { token: token.to_string(), expires: 1700000000, duration: 15552000000 },
            user: DataUser { id: id.to_string() },
        },
    }
}

fn failure(status: i32, message: Option<&str>) -> ErrorResponse {
    ErrorResponse { status, error: message.map(|m| Error { message: m.to_string() }) }
}

#[test]
fn empty_body_is_detected() {
    assert!(is_empty_body(""));
    assert!(is_empty_body("{}"));
    assert!(!is_empty_body("{ }"));
    assert!(!is_empty_body("{\"status\":2}"));
    assert!(!is_empty_body("}{"));
}

#[test]
fn empty_body_fails_before_decoding() {
    let r = interpret_login_response("", Some(success("t", "u")), None);
    assert_eq!(r.unwrap_err(), AuthError::EmptyResponse);
    let r = interpret_login_response("{}", Some(success("t", "u")), Some(failure(4, None)));
    assert_eq!(r.unwrap_err(), AuthError::EmptyResponse);
}

#[test]
fn success_shape_gives_login_data() {
    let body = "{\"status\":0,\"data\":{}}";
    let data = interpret_login_response(body, Some(success("tok", "user1")), None).unwrap();
    assert_eq!(data.auth_ticket.token, "tok");
    assert_eq!(data.user.id, "user1");
    assert_eq!(data.auth_ticket.expires, 1700000000);
}

#[test]
fn success_shape_is_preferred_to_failure_shape() {
    let body = "{\"status\":0}";
    let data = interpret_login_response(body, Some(success("tok", "u")), Some(failure(2, Some("x")))).unwrap();
    assert_eq!(data.auth_ticket.token, "tok");
}

#[test]
fn privacy_policy_status_fails() {
    let body = "{\"status\":4,\"error\":{\"message\":\"anything\"}}";
    let r = interpret_login_response(body, None, Some(failure(4, Some("anything"))));
    assert_eq!(r.unwrap_err(), AuthError::PrivacyPolicyAcceptanceRequired);
    let r = interpret_login_response("{\"status\":4}", None, Some(failure(4, None)));
    assert_eq!(r.unwrap_err(), AuthError::PrivacyPolicyAcceptanceRequired);
}

#[test]
fn rejection_carries_server_message() {
    let body = "{\"status\":2,\"error\":{\"message\":\"bad password\"}}";
    let r = interpret_login_response(body, None, Some(failure(2, Some("bad password"))));
    assert_eq!(r.unwrap_err(), AuthError::AuthenticationRejected("bad password".to_string()));
}

#[test]
fn rejection_without_error_uses_fallback() {
    let r = interpret_login_response("{\"status\":2}", None, Some(failure(2, None)));
    assert_eq!(r.unwrap_err(), AuthError::AuthenticationRejected("Unknown error".to_string()));
}

#[test]
fn other_status_is_unknown_error() {
    let r = interpret_login_response("{\"status\":7}", None, Some(failure(7, Some("odd"))));
    assert_eq!(r.unwrap_err(), AuthError::UnknownError);
    assert_eq!(failure_error(failure(0, None)), AuthError::UnknownError);
}

#[test]
fn unrecognised_shape_is_decode_error() {
    let r = interpret_login_response("<html></html>", None, None);
    assert_eq!(r.unwrap_err(), AuthError::DecodeError);
}

#[test]
fn error_messages() {
    assert_eq!(AuthError::EmptyResponse.message(), "No response from Libre Link");
    assert_eq!(
        AuthError::PrivacyPolicyAcceptanceRequired.message(),
        "Privacy policy acceptance required, first login using the Libre Linkup app"
    );
    assert_eq!(AuthError::AuthenticationRejected("bad password".to_string()).message(), "bad password");
    assert_eq!(AuthError::UnknownError.message(), "Unknown error");
    assert_eq!(AuthError::TransportError("timed out".to_string()).message(), "timed out");
    assert_eq!(AuthError::DecodeError.message(), "Unexpected response from Libre Link");
}

#[test]
fn login_request_plan() {
    let plan = login_request();
    assert_eq!(plan.method, Method::Post);
    assert_eq!(plan.url, "https://api.libreview.io/llu/auth/login");
    let headers: Vec<(String, String)> = plan.headers.into_iter().map(|h| (h.name, h.value)).collect();
    assert_eq!(
        headers,
        vec![
            ("User-Agent".to_string(), "Apidog/1.0.0 (https://apidog.com)".to_string()),
            ("version".to_string(), "4.2.1".to_string()),
            ("product".to_string(), "llu.android".to_string()),
        ]
    );
}
