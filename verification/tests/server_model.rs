use authz::args::{AuthArgs, ServerArgs};
use authz::server::{extract_token_from_bearer, socket_addr_string, ApiError, MiddlewareError};
use authz::telemetry::{Config, TelemetryError};
use authz::text::u16_to_string;

#[test]
fn bearer_header_yields_its_token() {
    let t = extract_token_from_bearer("Bearer abc").expect("token owed");
    assert_eq!(t.as_str(), "abc");
}

#[test]
fn bearer_header_with_empty_token_yields_empty() {
    let t = extract_token_from_bearer("Bearer ").expect("token owed");
    assert_eq!(t.as_str(), "");
}

#[test]
fn non_bearer_header_yields_nothing() {
    assert!(extract_token_from_bearer("Basic abc").is_none());
    assert!(extract_token_from_bearer("").is_none());
    assert!(extract_token_from_bearer("Bearer").is_none());
}

#[test]
fn every_middleware_error_answers_unauthorized() {
    assert_eq!(MiddlewareError::MissingAuthHeader.status_code(), 401);
    assert_eq!(MiddlewareError::InvalidAuthHeader.status_code(), 401);
    assert_eq!(
        MiddlewareError::AuthenticationFailed("expired".to_string()).status_code(),
        401
    );
}

#[test]
fn unknown_error_answers_as_internal_server_error() {
    let e = ApiError::Unknown {
        message: "db down".to_string(),
    };
    let r = e.to_error_response();
    assert_eq!(r.code.as_str(), "E_INTERNAL_SERVER_ERROR");
    assert_eq!(r.status, 500);
    assert_eq!(r.message.as_str(), "internal server error: db down");
    assert_eq!(e.message().as_str(), "unknown error occurred: db down");
}

#[test]
fn token_not_found_answers_as_unauthorized() {
    let e = ApiError::TokenNotFound;
    let r = e.to_error_response();
    assert_eq!(r.code.as_str(), "E_UNAUTHORIZED");
    assert_eq!(r.status, 401);
    assert_eq!(r.message.as_str(), "token not found");
    assert_eq!(e.message().as_str(), "token not found");
}

#[test]
fn invalid_token_answers_with_its_message() {
    let e = ApiError::InvalidToken {
        message: "bad signature".to_string(),
    };
    let r = e.to_error_response();
    assert_eq!(r.code.as_str(), "E_UNAUTHORIZED");
    assert_eq!(r.status, 401);
    assert_eq!(r.message.as_str(), "bad signature");
    assert_eq!(e.message().as_str(), "invalid token: bad signature");
}

#[test]
fn server_args_default_listener() {
    let a = ServerArgs::default();
    assert!(a.allowed_origins.is_empty());
    assert_eq!(a.host.as_str(), "0.0.0.0");
    assert_eq!(a.port, 3333);
}

#[test]
fn auth_args_default_realm() {
    let a = AuthArgs::default();
    assert_eq!(a.issuer.as_str(), "http://localhost:8080/realms/beep");
    assert_eq!(a.client_id.as_str(), "client_id");
    assert_eq!(a.client_secret.as_str(), "client_secret");
}

#[test]
fn listener_address_joins_host_and_decimal_port() {
    assert_eq!(socket_addr_string("0.0.0.0", 3333).as_str(), "0.0.0.0:3333");
    assert_eq!(socket_addr_string("localhost", 0).as_str(), "localhost:0");
}

#[test]
fn ports_render_in_decimal_without_leading_zeros() {
    assert_eq!(u16_to_string(0).as_str(), "0");
    assert_eq!(u16_to_string(9).as_str(), "9");
    assert_eq!(u16_to_string(10).as_str(), "10");
    assert_eq!(u16_to_string(3000).as_str(), "3000");
    assert_eq!(u16_to_string(65535).as_str(), "65535");
}

#[test]
fn telemetry_error_message_carries_the_diagnostic() {
    let e = TelemetryError::OpenTelemetry("exporter failed".to_string());
    assert_eq!(e.message().as_str(), "OpenTelemetryError: exporter failed");
}

#[test]
fn telemetry_config_holds_its_values() {
    let c = Config {
        port: 3000,
        origins: vec!["beep.com".to_string()],
    };
    assert_eq!(c.port, 3000);
    assert_eq!(c.origins.len(), 1);
    assert_eq!(c.origins[0].as_str(), "beep.com");
}
