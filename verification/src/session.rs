//! The session that a successful authentication establishes, and how it is
//! read from the server's answer.

use crate::error::{DecodeErrorView, ErrorView};
use crate::error::{DecodeError, Error, SessionFieldError};
use vstd::prelude::*;

verus! {

/// The host of a homeserver.
#[derive(Clone, Debug, PartialEq, Eq)]
pub enum Host {
    /// A domain name, in its ASCII form.
    Domain(String),
    /// An IPv4 address, as its 32 bits.
    Ipv4(u32),
    /// An IPv6 address, as its 128 bits.
    Ipv6(u128),
}

/// What a login or a registration answers.
#[derive(Clone, Debug, PartialEq, Eq)]
pub struct AuthResponse {
    /// The access token, where the server gave one.
    pub access_token: Option<String>,
    /// The homeserver's host, where the server named it.
    pub home_server: Option<String>,
    /// The full identifier of the user.
    pub user_id: String,
}

/// An authenticated identity: never changed once made.
#[derive(Clone, Debug, PartialEq, Eq)]
pub struct Session {
    /// The bearer credential.
    pub access_token: String,
    /// The host that the server declared as its own.
    pub homeserver: Host,
    /// The identifier of the user.
    pub user_id: String,
}

/// The model of a [`Host`].
pub enum HostView {
    Domain(Seq<char>),
    Ipv4(u32),
    Ipv6(u128),
}

/// The model of an [`AuthResponse`].
pub struct AuthResponseView {
    pub access_token: Option<Seq<char>>,
    pub home_server: Option<Seq<char>>,
    pub user_id: Seq<char>,
}

/// The model of a [`Session`].
pub struct SessionView {
    pub access_token: Seq<char>,
    pub homeserver: HostView,
    pub user_id: Seq<char>,
}

impl View for Host {
    type V = HostView;

    open spec fn view(&self) -> HostView {
        match *self {
            Host::Domain(name) => HostView::Domain(name@),
            Host::Ipv4(bits) => HostView::Ipv4(bits),
            Host::Ipv6(bits) => HostView::Ipv6(bits),
        }
    }
}

impl View for AuthResponse {
    type V = AuthResponseView;

    open spec fn view(&self) -> AuthResponseView {
        AuthResponseView {
            access_token: self.access_token.deep_view(),
            home_server: self.home_server.deep_view(),
            user_id: self.user_id@,
        }
    }
}

impl View for Session {
    type V = SessionView;

    open spec fn view(&self) -> SessionView {
        SessionView {
            access_token: self.access_token@,
            homeserver: self.homeserver@,
            user_id: self.user_id@,
        }
    }
}

/// What `Host::parse` of the url crate makes of `text`; `None` where it
/// refuses.
pub uninterp spec fn parsed_host(text: Seq<char>) -> Option<HostView>;

/// Calls `Host::parse` of the url crate. Claimed: the host is that call's
/// result, with an address given by its bits, and there is none exactly
/// where the call fails.
#[verifier::external_body]
fn host_from_text(text: &str) -> (out: Option<Host>)
    ensures
        out matches Some(h) ==> parsed_host(text@) == Some(h@),
        out is None ==> parsed_host(text@) is None,
{
    Some(
        match url::Host::parse(text).ok()? {
            url::Host::Domain(name) => Host::Domain(name),
            url::Host::Ipv4(address) => Host::Ipv4(address.into()),
            url::Host::Ipv6(address) => Host::Ipv6(address.into()),
        },
    )
}

/// The session that an answer establishes, or the error that it ends in:
/// an answer without an access token or without a homeserver is a decoding
/// failure; a homeserver that is no host is a session field failure.
pub open spec fn session_of(answer: AuthResponseView) -> Result<SessionView, ErrorView> {
    match answer.access_token {
        None => Err(ErrorView::Decode(DecodeErrorView::MissingAccessToken)),
        Some(access_token) => match answer.home_server {
            None => Err(ErrorView::Decode(DecodeErrorView::MissingHomeServer)),
            Some(text) => match parsed_host(text) {
                None => Err(ErrorView::SessionField(text)),
                Some(homeserver) => Ok(
                    SessionView { access_token, homeserver, user_id: answer.user_id },
                ),
            },
        },
    }
}

impl AuthResponse {
    /// This answer with `home_server` as the homeserver that it names.
    pub fn with_home_server(self, home_server: Option<String>) -> (out: AuthResponse)
        ensures
            out == (AuthResponse {
                access_token: self.access_token,
                home_server,
                user_id: self.user_id,
            }),
    {
        AuthResponse { access_token: self.access_token, home_server, user_id: self.user_id }
    }
}

impl Session {
    /// Makes the session of an answer once its homeserver has been parsed:
    /// `text` is what the answer gave for the homeserver, `parsed` the
    /// host that it was found to be, if it is one.
    pub fn with_host(
        access_token: String,
        text: String,
        parsed: Option<Host>,
        user_id: String,
    ) -> (out: Result<Session, Error>)
        ensures
            out == match parsed {
                Some(homeserver) => Ok::<Session, Error>(
                    Session { access_token, homeserver, user_id },
                ),
                None => Err(Error::SessionField(SessionFieldError { homeserver: text })),
            },
    {
        match parsed {
            Some(homeserver) => Ok(Session { access_token, homeserver, user_id }),
            None => Err(Error::SessionField(SessionFieldError { homeserver: text })),
        }
    }

    /// Reads the session out of a successful answer. It takes the access
    /// token and the user identifier as they are, and parses the
    /// homeserver's host from the text that the answer gives for it. An
    /// answer without an access token or without a homeserver is a decoding
    /// failure; a homeserver that is no host is a session field failure.
    pub fn from_response(answer: AuthResponse) -> (out: Result<Session, Error>)
        ensures
            match out {
                Ok(session) => session_of(answer@) == Ok::<SessionView, ErrorView>(session@),
                Err(e) => session_of(answer@) == Err::<SessionView, ErrorView>(e@),
            },
    {
        let AuthResponse { access_token, home_server, user_id } = answer;
        let access_token = match access_token {
            Some(token) => token,
            None => {
                return Err(Error::Decode(DecodeError::MissingAccessToken));
            },
        };
        let text = match home_server {
            Some(text) => text,
            None => {
                return Err(Error::Decode(DecodeError::MissingHomeServer));
            },
        };
        let parsed = host_from_text(text.as_str());
        Session::with_host(access_token, text, parsed, user_id)
    }
}

} // verus!
