//! The client: the homeserver's URL and the session, if one is established.

use crate::api::{login_answer, login_encoded, register_answer, register_encoded};
use crate::api::{Login, LoginRequest, Register, RegisterRequest, RegistrationKind};
use crate::compose::addressed_to;
use crate::dispatch::{conclude, finish, finished, outgoing_view, receive, reply_view};
use crate::dispatch::{send, sent};
use crate::endpoint::{is_success, Endpoint};
use crate::error::{DecodeError, Error, ErrorView, TransportError};
use crate::session::{session_of, AuthResponseView, Session, SessionView};
use crate::wire::{TransportRequest, WireResponse, WireResponseView};
use vstd::prelude::*;

verus! {

/// A client for the client-server API of one homeserver.
#[derive(Clone, Debug, PartialEq, Eq)]
pub struct Client {
    homeserver_url: String,
    session: Option<Session>,
}

/// The model of a [`Client`].
pub struct ClientView {
    /// The text of the homeserver's URL.
    pub homeserver_url: Seq<char>,
    /// The session, if one is established.
    pub session: Option<SessionView>,
}

/// The model of a session that may be there.
pub open spec fn session_view(session: Option<Session>) -> Option<SessionView> {
    match session {
        Some(session) => Some(session@),
        None => None,
    }
}

/// The model of what an authentication hands back.
pub open spec fn done_view(out: Result<(), Error>) -> Result<(), ErrorView> {
    match out {
        Ok(_) => Ok(()),
        Err(e) => Err(e@),
    }
}

/// What an authentication ends in, given what its call ended in: the
/// call's failure, or the failure to read a session from the answer, or the
/// session.
pub open spec fn established(answered: Result<AuthResponseView, ErrorView>) -> Result<
    SessionView,
    ErrorView,
> {
    match answered {
        Err(e) => Err(e),
        Ok(answer) => session_of(answer),
    }
}

/// What a login ends in, given the transport's reply.
pub open spec fn login_outcome(reply: Result<WireResponseView, Seq<char>>) -> Result<
    SessionView,
    ErrorView,
> {
    established(finished::<Login>(reply))
}

/// What a guest registration ends in, given the transport's reply.
pub open spec fn guest_outcome(reply: Result<WireResponseView, Seq<char>>) -> Result<
    SessionView,
    ErrorView,
> {
    established(finished::<Register>(reply))
}

impl ClientView {
    /// The client after an authentication that ended in `outcome`: a
    /// session takes the place of whatever was there, a failure changes
    /// nothing.
    pub open spec fn adopted(self, outcome: Result<SessionView, ErrorView>) -> ClientView {
        match outcome {
            Ok(session) => ClientView {
                homeserver_url: self.homeserver_url,
                session: Some(session),
            },
            Err(_) => self,
        }
    }
}

/// The model of what an authentication hands back, given what it ended in.
pub open spec fn report(outcome: Result<SessionView, ErrorView>) -> Result<(), ErrorView> {
    match outcome {
        Ok(_) => Ok(()),
        Err(e) => Err(e),
    }
}

/// Law: an authentication that fails leaves the client as it was. Whether
/// the transport failed, the response did not decode or the session could
/// not be read from it, the client afterwards equals the client before,
/// session included.
pub proof fn lemma_failure_keeps_session(
    client: ClientView,
    reply: Result<WireResponseView, Seq<char>>,
)
    ensures
        reply is Err ==> login_outcome(reply) is Err && guest_outcome(reply) is Err,
        reply matches Ok(response) && login_answer(response) is Err ==> login_outcome(reply) is Err,
        reply matches Ok(response) && register_answer(response) is Err ==> guest_outcome(reply)
            is Err,
        login_outcome(reply) is Err ==> client.adopted(login_outcome(reply)) == client,
        guest_outcome(reply) is Err ==> client.adopted(guest_outcome(reply)) == client,
{
}

/// Law: of two authentications that succeed one after the other, the
/// second alone decides the session. The client afterwards is the one that
/// the second would have left had the first never happened: nothing of the
/// first session is merged in.
pub proof fn lemma_second_session_replaces_first(
    client: ClientView,
    first: Result<SessionView, ErrorView>,
    second: Result<SessionView, ErrorView>,
)
    requires
        first is Ok,
        second is Ok,
    ensures
        client.adopted(first).adopted(second).session == Some(second->Ok_0),
        client.adopted(first).adopted(second) == client.adopted(second),
{
}

/// Law: the homeserver's URL never changes, whatever an authentication
/// ends in.
pub proof fn lemma_url_is_kept(client: ClientView, outcome: Result<SessionView, ErrorView>)
    ensures
        client.adopted(outcome).homeserver_url == client.homeserver_url,
{
}

impl View for Client {
    type V = ClientView;

    closed spec fn view(&self) -> ClientView {
        ClientView { homeserver_url: self.homeserver_url@, session: session_view(self.session) }
    }
}

impl Client {
    /// A client for the homeserver at this URL, with no session.
    pub fn new(homeserver_url: String) -> (out: Client)
        ensures
            out@ == (ClientView { homeserver_url: homeserver_url@, session: None }),
    {
        Client { homeserver_url, session: None }
    }

    /// The homeserver's URL, as it was given.
    pub fn homeserver_url(&self) -> (out: &str)
        ensures
            out@ == self@.homeserver_url,
    {
        self.homeserver_url.as_str()
    }

    /// The session, if one is established.
    pub fn session(&self) -> (out: &Option<Session>)
        ensures
            session_view(*out) == self@.session,
    {
        &self.session
    }

    /// Readies a call to an endpoint for the transport: encodes the request
    /// and addresses it to the homeserver.
    pub fn request<E: Endpoint>(&self, request: E::Request) -> (out: Result<
        TransportRequest,
        Error,
    >)
        ensures
            outgoing_view(out) == sent::<E>(self@.homeserver_url, request),
            out matches Ok(sent) ==> (E::encoding(request) matches Ok(encoded) && addressed_to(
                sent.uri@,
                self@.homeserver_url,
                encoded.path,
                encoded.query,
            )),
    {
        send::<E>(self.homeserver_url.as_str(), request)
    }

    /// Readies a password login of `username` for the transport.
    pub fn login(&self, username: String, password: String) -> (out: Result<
        TransportRequest,
        Error,
    >)
        ensures
            outgoing_view(out) == sent::<Login>(
                self@.homeserver_url,
                (LoginRequest { username, password }),
            ),
            out matches Ok(sent) ==> (login_encoded(username@, password@) matches Ok(encoded)
                && addressed_to(sent.uri@, self@.homeserver_url, encoded.path, encoded.query)),
    {
        self.request::<Login>(LoginRequest { username, password })
    }

    /// Readies the registration of a guest for the transport.
    pub fn guest_session(&self) -> (out: Result<TransportRequest, Error>)
        ensures
            outgoing_view(out) == sent::<Register>(
                self@.homeserver_url,
                (RegisterRequest { kind: RegistrationKind::Guest }),
            ),
            out matches Ok(sent) ==> (register_encoded(RegistrationKind::Guest) matches Ok(encoded)
                && addressed_to(sent.uri@, self@.homeserver_url, encoded.path, encoded.query)),
    {
        self.request::<Register>(RegisterRequest { kind: RegistrationKind::Guest })
    }

    /// Ends an authentication: a session takes the place of whatever
    /// session there was; a failure leaves the client as it is and is
    /// handed back.
    pub fn adopt(&mut self, outcome: Result<Session, Error>) -> (out: Result<(), Error>)
        ensures
            out == match outcome {
                Ok(_) => Ok::<(), Error>(()),
                Err(e) => Err(e),
            },
            outcome matches Ok(session) ==> final(self)@ == old(self)@.adopted(
                Ok(session@),
            ),
            outcome is Err ==> *final(self) == *old(self),
    {
        match outcome {
            Ok(session) => {
                self.session = Some(session);
                Ok(())
            },
            Err(e) => Err(e),
        }
    }

    /// Ends a login with the transport's reply: decodes the response, reads
    /// the session from it and installs it. If any step fails, the client
    /// stays as it is, session included, and the failure is handed back. A
    /// response whose status tells of no success always ends in a decoding
    /// failure. A login never fails for want of an access token: its
    /// decoder hands on no answer without one.
    pub fn complete_login(&mut self, reply: Result<WireResponse, TransportError>) -> (out: Result<
        (),
        Error,
    >)
        ensures
            final(self)@ == old(self)@.adopted(login_outcome(reply_view(reply))),
            done_view(out) == report(login_outcome(reply_view(reply))),
            out is Err ==> *final(self) == *old(self),
            reply matches Err(e) ==> out == Err::<(), Error>(Error::Transport(e)),
            reply matches Ok(response) && !is_success(response.status) ==> out matches Err(
                Error::Decode(_),
            ),
            !(out matches Err(Error::Decode(DecodeError::MissingAccessToken))),
    {
        let outcome = match receive(reply) {
            Err(e) => Err(e),
            Ok(response) => match conclude(Login::decode(&response)) {
                Err(e) => Err(e),
                Ok(answer) => Session::from_response(answer),
            },
        };
        self.adopt(outcome)
    }

    /// Ends a guest registration with the transport's reply: decodes the
    /// response, reads the session from it and installs it. If any step
    /// fails, the client stays as it is, session included, and the failure
    /// is handed back. A response whose status tells of no success always
    /// ends in a decoding failure.
    pub fn complete_guest_session(&mut self, reply: Result<WireResponse, TransportError>) -> (out:
        Result<(), Error>)
        ensures
            final(self)@ == old(self)@.adopted(guest_outcome(reply_view(reply))),
            done_view(out) == report(guest_outcome(reply_view(reply))),
            out is Err ==> *final(self) == *old(self),
            reply matches Err(e) ==> out == Err::<(), Error>(Error::Transport(e)),
            reply matches Ok(response) && !is_success(response.status) ==> out matches Err(
                Error::Decode(_),
            ),
    {
        let outcome = match finish::<Register>(reply) {
            Err(e) => Err(e),
            Ok(answer) => Session::from_response(answer),
        };
        self.adopt(outcome)
    }
}

} // verus!
