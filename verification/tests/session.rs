use ruma_client::error::{DecodeError, Error, SessionFieldError};
use ruma_client::session::{AuthResponse, Host, Session};

fn answer(token: Option<&str>, home_server: Option<&str>, user_id: &str) -> AuthResponse {
    AuthResponse {
        access_token: token.map(str::to_string),
        home_server: home_server.map(str::to_string),
        user_id: user_id.to_string(),
    }
}

#[test]
fn session_takes_the_three_fields_of_the_answer() {
    let session = Session::from_response(answer(Some("abc"), Some("matrix.org"), "@u:other.org"));
    assert_eq!(
        session,
        Ok(Session {
            access_token: "abc".to_string(),
            homeserver: Host::Domain("matrix.org".to_string()),
            user_id: "@u:other.org".to_string(),
        })
    );
}

#[test]
fn answer_without_a_homeserver_is_a_decode_error() {
    let out = Session::from_response(answer(Some("abc"), None, "@guest123:matrix.org"));
    assert_eq!(out, Err(Error::Decode(DecodeError::MissingHomeServer)));
    let out = Session::from_response(answer(None, None, "@guest123:matrix.org"));
    assert_eq!(out, Err(Error::Decode(DecodeError::MissingAccessToken)));
}

#[test]
fn homeserver_may_be_an_address() {
    let v4 = Session::from_response(answer(Some("t"), Some("127.0.0.1"), "@u:x")).unwrap();
    assert_eq!(v4.homeserver, Host::Ipv4(0x7f00_0001));
    let v6 = Session::from_response(answer(Some("t"), Some("[::1]"), "@u:x")).unwrap();
    assert_eq!(v6.homeserver, Host::Ipv6(1));
}

#[test]
fn domain_is_kept_in_its_ascii_form() {
    let session = Session::from_response(answer(Some("t"), Some("EXAMPLE.org"), "@u:x")).unwrap();
    assert_eq!(session.homeserver, Host::Domain("example.org".to_string()));
}

#[test]
fn homeserver_that_is_no_host_is_a_session_field_error() {
    for text in ["matrix.org:8448", "not a host", "", "[::1", "a/b"] {
        let out = Session::from_response(answer(Some("abc"), Some(text), "@u:matrix.org"));
        assert_eq!(
            out,
            Err(Error::SessionField(SessionFieldError { homeserver: text.to_string() }))
        );
    }
}

#[test]
fn with_host_makes_the_session_of_a_parsed_host() {
    let out = Session::with_host(
        "abc".to_string(),
        "matrix.org".to_string(),
        Some(Host::Domain("matrix.org".to_string())),
        "@u:matrix.org".to_string(),
    );
    assert_eq!(
        out,
        Ok(Session {
            access_token: "abc".to_string(),
            homeserver: Host::Domain("matrix.org".to_string()),
            user_id: "@u:matrix.org".to_string(),
        })
    );
    let out = Session::with_host(
        "abc".to_string(),
        "no host".to_string(),
        None,
        "@u:matrix.org".to_string(),
    );
    assert_eq!(
        out,
        Err(Error::SessionField(SessionFieldError { homeserver: "no host".to_string() }))
    );
}

#[test]
fn with_home_server_sets_the_homeserver_alone() {
    let before = answer(Some("abc"), None, "@u:matrix.org");
    let after = before.clone().with_home_server(Some("hs.example".to_string()));
    assert_eq!(after, answer(Some("abc"), Some("hs.example"), "@u:matrix.org"));
    assert_eq!(after.with_home_server(None), before);
}

#[test]
fn answer_without_a_token_is_a_decode_error() {
    let out = Session::from_response(answer(None, Some("matrix.org"), "@u:matrix.org"));
    assert_eq!(out, Err(Error::Decode(DecodeError::MissingAccessToken)));
}
