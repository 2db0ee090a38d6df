use ruma_client::api::{Login, LoginRequest, Register, RegisterRequest, RegistrationKind};
use ruma_client::dispatch::{conclude, finish, prepare, receive, send};
use ruma_client::session::AuthResponse;
use ruma_client::error::{ComposeError, DecodeError, EncodeError, Error, Stage, TransportError};
use ruma_client::wire::{TransportRequest, WireRequest, WireResponse};

fn get(path: &str, query: Option<&str>) -> WireRequest {
    WireRequest {
        method: "GET".to_string(),
        path: path.to_string(),
        query: query.map(str::to_string),
        headers: vec![("accept".to_string(), b"application/json".to_vec())],
        body: b"payload".to_vec(),
    }
}

#[test]
fn prepare_attaches_the_composed_uri_and_keeps_the_rest() {
    let out = prepare("https://matrix.org/", Ok(get("/_matrix/client/versions", Some("a=b"))));
    assert_eq!(
        out,
        Ok(TransportRequest {
            method: "GET".to_string(),
            uri: "https://matrix.org/_matrix/client/versions?a=b".to_string(),
            headers: vec![("accept".to_string(), b"application/json".to_vec())],
            body: b"payload".to_vec(),
        })
    );
}

#[test]
fn address_keeps_method_headers_and_body() {
    let out = get("/p", None).address("https://h/p".to_string());
    assert_eq!(out.method, "GET");
    assert_eq!(out.uri, "https://h/p");
    assert_eq!(out.headers, vec![("accept".to_string(), b"application/json".to_vec())]);
    assert_eq!(out.body, b"payload".to_vec());
}

#[test]
fn encode_failure_ends_the_call_first() {
    let failure = EncodeError { message: "cannot serialize".to_string() };
    let out = prepare("not a url", Err(failure.clone()));
    assert_eq!(out, Err(Error::Encode(failure)));
}

#[test]
fn compose_failure_ends_the_call() {
    let out = prepare("not a url", Ok(get("/p", None)));
    assert_eq!(out, Err(Error::Compose(ComposeError::BaseUrl)));
}

#[test]
fn transport_failure_becomes_the_error_of_the_call() {
    let failure = TransportError { message: "connection refused".to_string() };
    assert_eq!(receive(Err(failure.clone())), Err(Error::Transport(failure)));
}

#[test]
fn response_goes_on_as_it_is() {
    let response = WireResponse { status: 204, headers: vec![], body: vec![1, 2, 3] };
    assert_eq!(receive(Ok(response.clone())), Ok(response));
}

#[test]
fn decoder_has_the_last_word() {
    assert_eq!(conclude(Ok::<u32, DecodeError>(7)), Ok(7));
    assert_eq!(
        conclude(Err::<u32, DecodeError>(DecodeError::MissingAccessToken)),
        Err(Error::Decode(DecodeError::MissingAccessToken))
    );
}

#[test]
fn every_error_knows_its_stage() {
    let encode = Error::from_encode(EncodeError { message: String::new() });
    assert_eq!(encode.stage(), Stage::Encode);
    assert_eq!(Error::from_compose(ComposeError::Uri).stage(), Stage::Compose);
    let transport = Error::from_transport(TransportError { message: String::new() });
    assert_eq!(transport.stage(), Stage::Transport);
    let decode = Error::from_decode(DecodeError::InvalidStatus { status: 7 });
    assert_eq!(decode.stage(), Stage::Decode);
    let session = Error::from_session_field(ruma_client::error::SessionFieldError {
        homeserver: "x y".to_string(),
    });
    assert_eq!(session.stage(), Stage::Session);
}

#[test]
fn independent_calls_do_not_leak_into_each_other() {
    let base = "https://matrix.org/";
    let paths = ["/a", "/b", "/c", "/d"];
    let prepared: Vec<_> = paths.iter().map(|p| prepare(base, Ok(get(p, Some(&p[1..]))))).collect();
    let replies: Vec<_> = (0..paths.len())
        .rev()
        .map(|i| receive(Ok(WireResponse { status: 200, headers: vec![], body: vec![i as u8] })))
        .collect();
    for (i, p) in paths.iter().enumerate() {
        let request = prepared[i].clone().unwrap();
        assert_eq!(request.uri, format!("https://matrix.org{}?{}", p, &p[1..]));
        let response = replies[paths.len() - 1 - i].clone().unwrap();
        assert_eq!(response.body, vec![i as u8]);
    }
}

#[test]
fn send_encodes_and_addresses() {
    let request = LoginRequest { username: "alice".to_string(), password: "pw".to_string() };
    let out = send::<Login>("https://matrix.org/", request).unwrap();
    assert_eq!(out.method, "POST");
    assert_eq!(out.uri, "https://matrix.org/_matrix/client/r0/login");
    assert_eq!(out.headers, vec![("content-type".to_string(), b"application/json".to_vec())]);
    let request = RegisterRequest { kind: RegistrationKind::Guest };
    assert_eq!(send::<Register>("nowhere", request), Err(Error::Compose(ComposeError::BaseUrl)));
}

#[test]
fn finish_decodes_the_reply() {
    let body = br#"{"access_token":"abc","user_id":"@guest123:matrix.org"}"#.to_vec();
    let reply = Ok(WireResponse { status: 200, headers: vec![], body });
    assert_eq!(
        finish::<Register>(reply),
        Ok(AuthResponse {
            access_token: Some("abc".to_string()),
            home_server: None,
            user_id: "@guest123:matrix.org".to_string(),
        })
    );
}

#[test]
fn finish_ends_at_the_first_failure() {
    let failure = TransportError { message: "reset".to_string() };
    assert_eq!(finish::<Login>(Err(failure.clone())), Err(Error::Transport(failure)));
    let body = br#"{"errcode":"M_FORBIDDEN","error":"bad token"}"#.to_vec();
    let reply = Ok(WireResponse { status: 403, headers: vec![], body });
    assert_eq!(
        finish::<Login>(reply),
        Err(Error::Decode(DecodeError::Server {
            status: 403,
            errcode: "M_FORBIDDEN".to_string(),
            error: "bad token".to_string(),
        }))
    );
}
