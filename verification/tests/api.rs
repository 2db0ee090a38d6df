use ruma_client::api::{Login, LoginRequest, Register, RegisterRequest, RegistrationKind};
use ruma_client::endpoint::{judge, settle, status_code, Endpoint};
use ruma_client::error::EncodeError;
use ruma_client::wire::WireRequest;
use ruma_client::error::DecodeError;
use ruma_client::session::AuthResponse;
use ruma_client::wire::WireResponse;

fn encode_login(user: &str, password: &str) -> Result<WireRequest, EncodeError> {
    Login::encode(LoginRequest { username: user.to_string(), password: password.to_string() })
}

fn encode_registration(kind: RegistrationKind) -> Result<WireRequest, EncodeError> {
    Register::encode(RegisterRequest { kind })
}

fn decode_login(response: &WireResponse) -> Result<AuthResponse, DecodeError> {
    Login::decode(response)
}

fn decode_registration(response: &WireResponse) -> Result<AuthResponse, DecodeError> {
    Register::decode(response)
}

fn response(status: u16, body: &str) -> WireResponse {
    WireResponse { status, headers: vec![], body: body.as_bytes().to_vec() }
}

#[test]
fn login_is_encoded_as_a_post_to_the_login_path() {
    let request = encode_login("alice", "wonderland").unwrap();
    assert_eq!(request.method, "POST");
    assert_eq!(request.path, "/_matrix/client/r0/login");
    assert_eq!(request.query, None);
    assert_eq!(
        request.headers,
        vec![("content-type".to_string(), b"application/json".to_vec())]
    );
    let body: serde_json::Value = serde_json::from_slice(&request.body).unwrap();
    assert_eq!(body["type"], "m.login.password");
    assert_eq!(body["identifier"]["type"], "m.id.user");
    assert_eq!(body["identifier"]["user"], "alice");
    assert_eq!(body["password"], "wonderland");
}

#[test]
fn guest_registration_is_encoded_with_its_kind_in_the_query() {
    let request = encode_registration(RegistrationKind::Guest).unwrap();
    assert_eq!(request.method, "POST");
    assert_eq!(request.path, "/_matrix/client/r0/register");
    assert_eq!(request.query, Some("kind=guest".to_string()));
    let body: serde_json::Value = serde_json::from_slice(&request.body).unwrap();
    assert_eq!(body, serde_json::Value::Object(serde_json::Map::new()));
}

#[test]
fn user_registration_is_encoded_with_an_empty_query() {
    let request = encode_registration(RegistrationKind::User).unwrap();
    assert_eq!(request.path, "/_matrix/client/r0/register");
    assert_eq!(request.query, Some(String::new()));
}

#[test]
fn login_answer_is_decoded_field_by_field() {
    let body = r#"{"access_token":"abc","home_server":"matrix.org","user_id":"@alice:matrix.org","device_id":"DEVICE"}"#;
    assert_eq!(
        decode_login(&response(200, body)),
        Ok(AuthResponse {
            access_token: Some("abc".to_string()),
            home_server: Some("matrix.org".to_string()),
            user_id: "@alice:matrix.org".to_string(),
        })
    );
}

#[test]
fn login_answer_may_leave_the_homeserver_out() {
    let body = r#"{"access_token":"abc","user_id":"@alice:matrix.org","device_id":"DEVICE"}"#;
    assert_eq!(
        decode_login(&response(200, body)),
        Ok(AuthResponse {
            access_token: Some("abc".to_string()),
            home_server: None,
            user_id: "@alice:matrix.org".to_string(),
        })
    );
}

#[test]
fn registration_answer_is_decoded_field_by_field() {
    let body = r#"{"access_token":"abc","home_server":"matrix.org","user_id":"@guest123:matrix.org"}"#;
    assert_eq!(
        decode_registration(&response(200, body)),
        Ok(AuthResponse {
            access_token: Some("abc".to_string()),
            home_server: Some("matrix.org".to_string()),
            user_id: "@guest123:matrix.org".to_string(),
        })
    );
}

#[test]
fn registration_answer_may_leave_the_homeserver_out() {
    for body in [
        r#"{"access_token":"abc","user_id":"@guest123:matrix.org"}"#,
        r#"{"access_token":"abc","home_server":7,"user_id":"@guest123:matrix.org"}"#,
        r#"{"access_token":"abc","home_server":null,"user_id":"@guest123:matrix.org"}"#,
    ] {
        assert_eq!(
            decode_registration(&response(200, body)),
            Ok(AuthResponse {
                access_token: Some("abc".to_string()),
                home_server: None,
                user_id: "@guest123:matrix.org".to_string(),
            })
        );
    }
}

#[test]
fn registration_answer_hands_on_the_homeserver_as_it_is_named() {
    let body = r#"{"access_token":"abc","home_server":"not a host","user_id":"@g:matrix.org"}"#;
    assert_eq!(
        decode_registration(&response(201, body)),
        Ok(AuthResponse {
            access_token: Some("abc".to_string()),
            home_server: Some("not a host".to_string()),
            user_id: "@g:matrix.org".to_string(),
        })
    );
}

#[test]
fn status_outside_the_successes_is_a_failure() {
    let body = r#"{"access_token":"abc","user_id":"@alice:matrix.org","device_id":"DEVICE"}"#;
    for status in [100u16, 101, 199, 300, 301, 302, 304, 399] {
        assert_eq!(
            decode_login(&response(status, body)),
            Err(DecodeError::NotSuccess { status })
        );
        assert_eq!(
            decode_registration(&response(status, body)),
            Err(DecodeError::NotSuccess { status })
        );
    }
    for status in [200u16, 201, 204, 299] {
        assert!(decode_login(&response(status, body)).is_ok());
        assert!(decode_registration(&response(status, body)).is_ok());
    }
}

#[test]
fn forbidden_login_surfaces_errcode_and_error() {
    let body = r#"{"errcode":"M_FORBIDDEN","error":"bad token"}"#;
    assert_eq!(
        decode_login(&response(403, body)),
        Err(DecodeError::Server {
            status: 403,
            errcode: "M_FORBIDDEN".to_string(),
            error: "bad token".to_string(),
        })
    );
}

#[test]
fn forbidden_registration_surfaces_errcode_and_error() {
    let body = r#"{"errcode":"M_FORBIDDEN","error":"bad token"}"#;
    assert_eq!(
        decode_registration(&response(403, body)),
        Err(DecodeError::Server {
            status: 403,
            errcode: "M_FORBIDDEN".to_string(),
            error: "bad token".to_string(),
        })
    );
}

#[test]
fn failure_status_is_never_a_success() {
    let body = r#"{"access_token":"abc","user_id":"@alice:matrix.org","device_id":"DEVICE"}"#;
    for status in [100u16, 199, 300, 302, 399, 400, 401, 403, 404, 429, 500, 503, 999] {
        assert!(decode_login(&response(status, body)).is_err());
        assert!(decode_registration(&response(status, body)).is_err());
    }
}

#[test]
fn failure_without_a_protocol_body_is_unexpected() {
    let out = decode_login(&response(500, "Internal Server Error"));
    assert!(matches!(out, Err(DecodeError::Unexpected { .. })));
}

#[test]
fn success_with_a_body_of_another_shape_is_unexpected() {
    let out = decode_login(&response(200, r#"{"access_token":"abc"}"#));
    assert!(matches!(out, Err(DecodeError::Unexpected { .. })));
    let out = decode_registration(&response(200, "not json"));
    assert!(matches!(out, Err(DecodeError::Unexpected { .. })));
}

#[test]
fn status_that_is_no_status_code_is_refused() {
    let body = r#"{"access_token":"abc","user_id":"@alice:matrix.org","device_id":"DEVICE"}"#;
    assert_eq!(
        decode_login(&response(42, body)),
        Err(DecodeError::InvalidStatus { status: 42 })
    );
    assert_eq!(
        decode_registration(&response(1000, body)),
        Err(DecodeError::InvalidStatus { status: 1000 })
    );
    assert_eq!(
        decode_login(&response(99, body)),
        Err(DecodeError::InvalidStatus { status: 99 })
    );
}

#[test]
fn protocol_error_under_a_redirect_is_surfaced() {
    let body = r#"{"errcode":"M_UNKNOWN","error":"moved"}"#;
    for status in [100u16, 301, 302, 399] {
        let expected = Err(DecodeError::Server {
            status,
            errcode: "M_UNKNOWN".to_string(),
            error: "moved".to_string(),
        });
        assert_eq!(decode_login(&response(status, body)), expected);
        assert_eq!(decode_registration(&response(status, body)), expected);
    }
}

#[test]
fn protocol_error_needs_both_code_and_message() {
    for body in [r#"{"errcode":"M_UNKNOWN"}"#, r#"{"error":"moved"}"#, r#"{"errcode":1,"error":2}"#] {
        assert!(matches!(
            decode_registration(&response(302, body)),
            Err(DecodeError::Unexpected { .. })
        ));
        assert!(matches!(
            decode_login(&response(404, body)),
            Err(DecodeError::Unexpected { .. })
        ));
    }
}

#[test]
fn protocol_error_under_a_success_is_not_searched_for() {
    let body = r#"{"errcode":"M_UNKNOWN","error":"odd","access_token":"abc","user_id":"@a:b.c"}"#;
    assert_eq!(
        decode_registration(&response(200, body)),
        Ok(AuthResponse {
            access_token: Some("abc".to_string()),
            home_server: None,
            user_id: "@a:b.c".to_string(),
        })
    );
}

#[test]
fn settle_lets_a_decoders_word_stand_under_a_success() {
    let both = (Some("M_X".to_string()), Some("x".to_string()));
    assert_eq!(settle(200, both.0.clone(), both.1.clone(), Ok::<u8, DecodeError>(7)), Ok(7));
    assert_eq!(settle(299, None, None, Ok::<u8, DecodeError>(7)), Ok(7));
    let failure = DecodeError::Unexpected { message: "bad".to_string() };
    assert_eq!(
        settle(204, both.0, both.1, Err::<u8, DecodeError>(failure.clone())),
        Err(failure)
    );
}

#[test]
fn settle_fails_under_any_other_status() {
    let code = Some("M_X".to_string());
    let text = Some("x".to_string());
    let server = |status| DecodeError::Server {
        status,
        errcode: "M_X".to_string(),
        error: "x".to_string(),
    };
    let failure = DecodeError::Unexpected { message: "bad".to_string() };
    for status in [100u16, 199, 300, 399, 400, 500, 999] {
        assert_eq!(
            settle(status, code.clone(), text.clone(), Ok::<u8, DecodeError>(7)),
            Err(server(status))
        );
        assert_eq!(
            settle(status, code.clone(), text.clone(), Err::<u8, DecodeError>(failure.clone())),
            Err(server(status))
        );
        assert_eq!(
            settle(status, code.clone(), None, Err::<u8, DecodeError>(failure.clone())),
            Err(failure.clone())
        );
        assert_eq!(
            settle(status, None, text.clone(), Ok::<u8, DecodeError>(7)),
            Err(DecodeError::NotSuccess { status })
        );
        assert_eq!(
            settle(status, None, None, Ok::<u8, DecodeError>(7)),
            Err(DecodeError::NotSuccess { status })
        );
    }
}

#[test]
fn judge_reads_the_protocol_error_from_the_body() {
    let forbidden = response(403, r#"{"errcode":"M_FORBIDDEN","error":"bad token"}"#);
    assert_eq!(
        judge(&forbidden, Ok::<u8, DecodeError>(1)),
        Err(DecodeError::Server {
            status: 403,
            errcode: "M_FORBIDDEN".to_string(),
            error: "bad token".to_string(),
        })
    );
    let plain = response(503, "try later");
    assert_eq!(
        judge(&plain, Ok::<u8, DecodeError>(1)),
        Err(DecodeError::NotSuccess { status: 503 })
    );
    let fine = response(200, r#"{"errcode":"M_FORBIDDEN","error":"bad token"}"#);
    assert_eq!(judge(&fine, Ok::<u8, DecodeError>(1)), Ok(1));
}

#[test]
fn status_code_has_three_digits() {
    assert!(!status_code(0));
    assert!(!status_code(99));
    assert!(status_code(100));
    assert!(status_code(999));
    assert!(!status_code(1000));
}
