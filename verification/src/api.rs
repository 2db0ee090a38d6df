//! The two endpoints that establish a session, in their wire form: how a
//! login and a registration are encoded, and how their answers are decoded.

use crate::endpoint::{decoding_view, encoding_view, is_status, json_text_member, judged};
use crate::endpoint::{judge, status_code, text_member, Endpoint};
use crate::error::{DecodeError, DecodeErrorView, EncodeError};
use crate::session::{AuthResponse, AuthResponseView};
use crate::wire::{WireRequest, WireRequestView, WireResponse, WireResponseView};
use hyper::Response;
use ruma_api::error::{FromHttpResponseError, ServerError};
use ruma_api::{IncomingResponse, MatrixVersion, OutgoingRequest, SendAccessToken};
use ruma_client_api::account::register;
use ruma_client_api::session::login::v3 as login;
use ruma_client_api::uiaa::{UiaaResponse, UserIdentifier};
use vstd::prelude::*;

verus! {

/// The endpoint that logs a user in with a password.
#[derive(Clone, Copy, Debug, PartialEq, Eq, Structural)]
pub struct Login;

/// The endpoint that registers an account.
#[derive(Clone, Copy, Debug, PartialEq, Eq, Structural)]
pub struct Register;

/// What a login asks with.
#[derive(Clone, Debug, PartialEq, Eq)]
pub struct LoginRequest {
    /// The user's identifier, or its local part.
    pub username: String,
    /// The password.
    pub password: String,
}

/// What a registration asks with.
#[derive(Clone, Copy, Debug, PartialEq, Eq, Structural)]
pub struct RegisterRequest {
    /// The kind of account to register.
    pub kind: RegistrationKind,
}

/// The kind of account that a registration asks for.
#[derive(Clone, Copy, Debug, PartialEq, Eq, Structural)]
pub enum RegistrationKind {
    /// A guest account.
    Guest,
    /// A regular user account.
    User,
}

/// The wire form that ruma-client-api gives a password login of `user`.
pub uninterp spec fn login_encoded(user: Seq<char>, password: Seq<char>) -> Result<
    WireRequestView,
    Seq<char>,
>;

/// The wire form that ruma-client-api gives a registration of this kind.
pub uninterp spec fn register_encoded(kind: RegistrationKind) -> Result<WireRequestView, Seq<char>>;

/// What ruma-client-api reads from the answer to a login.
pub uninterp spec fn login_decoded(status: u16, body: Seq<u8>) -> Result<
    AuthResponseView,
    DecodeErrorView,
>;

/// What ruma-client-api reads from the answer to a registration.
pub uninterp spec fn register_decoded(status: u16, body: Seq<u8>) -> Result<
    AuthResponseView,
    DecodeErrorView,
>;

/// What the login endpoint makes of a wire response: a status that is no
/// status code is refused; any other is decoded, and what was decoded is
/// judged by the status and the body.
pub open spec fn login_answer(response: WireResponseView) -> Result<
    AuthResponseView,
    DecodeErrorView,
> {
    if is_status(response.status) {
        judged(response, login_decoded(response.status, response.body))
    } else {
        Err(DecodeErrorView::InvalidStatus { status: response.status })
    }
}

/// The answer to a registration with the homeserver that its body names.
pub open spec fn with_home_server(answer: AuthResponseView, body: Seq<u8>) -> AuthResponseView {
    AuthResponseView {
        access_token: answer.access_token,
        home_server: json_text_member(body, "home_server"@),
        user_id: answer.user_id,
    }
}

/// What the registration endpoint makes of a wire response: a status that
/// is no status code is refused; any other is decoded, and what was decoded
/// is judged by the status and the body. The homeserver is the one that the
/// body names.
pub open spec fn register_answer(response: WireResponseView) -> Result<
    AuthResponseView,
    DecodeErrorView,
> {
    if is_status(response.status) {
        match judged(response, register_decoded(response.status, response.body)) {
            Err(e) => Err(e),
            Ok(answer) => Ok(with_home_server(answer, response.body)),
        }
    } else {
        Err(DecodeErrorView::InvalidStatus { status: response.status })
    }
}

/// Builds the password login of ruma-client-api for `user` and calls its
/// `try_into_http_request`, for no server and the first version of the
/// protocol. Claimed: what comes out is that call's result, field by field.
#[verifier::external_body]
fn login_to_wire(user: &str, password: &str) -> (out: Result<WireRequest, EncodeError>)
    ensures
        encoding_view(out) == login_encoded(user@, password@),
{
    let user = UserIdentifier::UserIdOrLocalpart(user);
    let info = login::LoginInfo::Password(login::Password::new(user, password));
    let raw = login::Request::new(info).try_into_http_request::<Vec<u8>>(
        "",
        SendAccessToken::None,
        &[MatrixVersion::V1_0],
    );
    let (head, body) = raw.map_err(|e| EncodeError { message: e.to_string() })?.into_parts();
    Ok(WireRequest {
        method: head.method.to_string(),
        path: head.uri.path().into(),
        query: head.uri.query().map(String::from),
        headers: head.headers.iter().map(|(k, v)| (k.to_string(), v.as_bytes().into())).collect(),
        body,
    })
}

/// Builds the registration of ruma-client-api for an account of this kind,
/// with nothing else set, and calls its `try_into_http_request`, for no
/// server and the first version of the protocol. Claimed: what comes out is
/// that call's result, field by field.
#[verifier::external_body]
fn register_to_wire(kind: RegistrationKind) -> (out: Result<WireRequest, EncodeError>)
    ensures
        encoding_view(out) == register_encoded(kind),
{
    let mut request = register::v3::Request::new();
    request.kind = match kind {
        RegistrationKind::Guest => register::RegistrationKind::Guest,
        RegistrationKind::User => register::RegistrationKind::User,
    };
    let raw = request.try_into_http_request::<Vec<u8>>("", SendAccessToken::None, &[MatrixVersion::V1_0]);
    let (head, body) = raw.map_err(|e| EncodeError { message: e.to_string() })?.into_parts();
    Ok(WireRequest {
        method: head.method.to_string(),
        path: head.uri.path().into(),
        query: head.uri.query().map(String::from),
        headers: head.headers.iter().map(|(k, v)| (k.to_string(), v.as_bytes().into())).collect(),
        body,
    })
}

/// Calls `try_from_http_response` of ruma-client-api's login response on a
/// response of this status and body. Claimed: what comes out is that call's
/// result, field by field, and a status from 400 on is never a success.
#[verifier::external_body]
fn login_from_wire(status: u16, body: &[u8]) -> (out: Result<AuthResponse, DecodeError>)
    requires
        is_status(status),
    ensures
        decoding_view(out) == login_decoded(status, body@),
        status >= 400 ==> out is Err,
        out matches Ok(answer) ==> answer.access_token is Some,
        out matches Err(e) ==> e is Server || e is Unexpected,
{
    let raw = Response::builder().status(status).body(body).unwrap();
    match login::Response::try_from_http_response(raw) {
        Ok(r) => Ok(AuthResponse {
            access_token: Some(r.access_token),
            home_server: r.home_server.map(|h| h.to_string()),
            user_id: r.user_id.to_string(),
        }),
        Err(FromHttpResponseError::Http(ServerError::Known(e))) => Err(DecodeError::Server {
            status: e.status_code.as_u16(),
            errcode: e.kind.to_string(),
            error: e.message,
        }),
        Err(e) => Err(DecodeError::Unexpected { message: e.to_string() }),
    }
}

/// Calls `try_from_http_response` of ruma-client-api's registration
/// response on a response of this status and body. Claimed: what comes out
/// is that call's result, field by field; a status from 400 on is never a
/// success; and a failure is a protocol error or an unexpected response.
/// That response has no field for the homeserver, so none is handed on.
#[verifier::external_body]
fn register_from_wire(status: u16, body: &[u8]) -> (out: Result<AuthResponse, DecodeError>)
    requires
        is_status(status),
    ensures
        decoding_view(out) == register_decoded(status, body@),
        status >= 400 ==> out is Err,
        out matches Err(e) ==> e is Server || e is Unexpected,
{
    let raw = Response::builder().status(status).body(body).unwrap();
    match register::v3::Response::try_from_http_response(raw) {
        Ok(r) => Ok(AuthResponse {
            access_token: r.access_token,
            home_server: None,
            user_id: r.user_id.to_string(),
        }),
        Err(FromHttpResponseError::Http(ServerError::Known(UiaaResponse::MatrixError(e)))) => {
            let status = e.status_code.as_u16();
            Err(DecodeError::Server { status, errcode: e.kind.to_string(), error: e.message })
        },
        Err(e) => Err(DecodeError::Unexpected { message: e.to_string() }),
    }
}

impl Endpoint for Login {
    type Request = LoginRequest;

    type Response = AuthResponse;

    open spec fn encoding(request: LoginRequest) -> Result<WireRequestView, Seq<char>> {
        login_encoded(request.username@, request.password@)
    }

    open spec fn decoding(response: WireResponseView) -> Result<AuthResponseView, DecodeErrorView> {
        login_answer(response)
    }

    /// Encodes a password login as a wire request.
    fn encode(request: LoginRequest) -> (out: Result<WireRequest, EncodeError>) {
        login_to_wire(request.username.as_str(), request.password.as_str())
    }

    /// Decodes the answer to a login. An answer always carries an access
    /// token.
    fn decode(response: &WireResponse) -> (out: Result<AuthResponse, DecodeError>)
        ensures
            out matches Ok(answer) ==> answer.access_token is Some,
            out matches Err(e) ==> e !is MissingAccessToken && e !is MissingHomeServer,
    {
        if !status_code(response.status) {
            return Err(DecodeError::InvalidStatus { status: response.status });
        }
        judge(response, login_from_wire(response.status, response.body.as_slice()))
    }
}

impl Endpoint for Register {
    type Request = RegisterRequest;

    type Response = AuthResponse;

    open spec fn encoding(request: RegisterRequest) -> Result<WireRequestView, Seq<char>> {
        register_encoded(request.kind)
    }

    open spec fn decoding(response: WireResponseView) -> Result<AuthResponseView, DecodeErrorView> {
        register_answer(response)
    }

    /// Encodes the registration of an account as a wire request.
    fn encode(request: RegisterRequest) -> (out: Result<WireRequest, EncodeError>) {
        register_to_wire(request.kind)
    }

    /// Decodes the answer to a registration. The homeserver is read from
    /// the body, where the answer names one.
    fn decode(response: &WireResponse) -> (out: Result<AuthResponse, DecodeError>) {
        if !status_code(response.status) {
            return Err(DecodeError::InvalidStatus { status: response.status });
        }
        let body = response.body.as_slice();
        match judge(response, register_from_wire(response.status, body)) {
            Err(e) => Err(e),
            Ok(answer) => Ok(answer.with_home_server(text_member(body, "home_server"))),
        }
    }
}

} // verus!
