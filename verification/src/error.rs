//! The unified error of a client call: one variant for each stage of the
//! pipeline that can fail, and one for building a session.

use vstd::prelude::*;

verus! {

/// A typed request could not be turned into a wire request.
#[derive(Clone, Debug, PartialEq, Eq)]
pub struct EncodeError {
    /// What the encoder reported.
    pub message: String,
}

/// The server's URL and a request's path and query did not merge into a
/// valid absolute URI.
#[derive(Clone, Debug, PartialEq, Eq)]
pub enum ComposeError {
    /// The parts are too long for a URL to hold them.
    TooLong,
    /// The configured server address is not a URL.
    BaseUrl,
    /// The merged URL would not name the server of the base.
    Server,
    /// The merged URL would not hold the path as the request gives it.
    Path,
    /// The merged URL would not hold the query as the request gives it.
    Query,
    /// The merged text is a URL, but no URI that can be sent to.
    Uri,
}

/// The transport could not deliver the request or the response.
#[derive(Clone, Debug, PartialEq, Eq)]
pub struct TransportError {
    /// What the transport reported.
    pub message: String,
}

/// A wire response could not be turned into a typed response.
#[derive(Clone, Debug, PartialEq, Eq)]
pub enum DecodeError {
    /// The status is no HTTP status code.
    InvalidStatus { status: u16 },
    /// The status tells of no success, though the body could be read.
    NotSuccess { status: u16 },
    /// The server answered with a failure status and a protocol error body.
    Server { status: u16, errcode: String, error: String },
    /// The response was not what the endpoint expects: a body of another
    /// shape, or a failure without a protocol error body.
    Unexpected { message: String },
    /// The response was a success, but gave no access token.
    MissingAccessToken,
    /// The response was a success, but named no homeserver.
    MissingHomeServer,
}

/// A successful authentication response named a homeserver that is no host.
#[derive(Clone, Debug, PartialEq, Eq)]
pub struct SessionFieldError {
    /// The text that was given as the homeserver.
    pub homeserver: String,
}

/// Everything that can go wrong in one call.
#[derive(Clone, Debug, PartialEq, Eq)]
pub enum Error {
    Encode(EncodeError),
    Compose(ComposeError),
    Transport(TransportError),
    Decode(DecodeError),
    SessionField(SessionFieldError),
}

/// The stage of a call at which an error arose.
#[derive(Clone, Copy, Debug, PartialEq, Eq, Structural)]
pub enum Stage {
    Encode,
    Compose,
    Transport,
    Decode,
    Session,
}

/// The model of a [`DecodeError`].
pub enum DecodeErrorView {
    InvalidStatus { status: u16 },
    NotSuccess { status: u16 },
    Server { status: u16, errcode: Seq<char>, error: Seq<char> },
    Unexpected { message: Seq<char> },
    MissingAccessToken,
    MissingHomeServer,
}

/// The model of an [`Error`].
pub enum ErrorView {
    Encode(Seq<char>),
    Compose(ComposeError),
    Transport(Seq<char>),
    Decode(DecodeErrorView),
    SessionField(Seq<char>),
}

impl View for EncodeError {
    type V = Seq<char>;

    open spec fn view(&self) -> Seq<char> {
        self.message@
    }
}

impl View for TransportError {
    type V = Seq<char>;

    open spec fn view(&self) -> Seq<char> {
        self.message@
    }
}

impl View for SessionFieldError {
    type V = Seq<char>;

    open spec fn view(&self) -> Seq<char> {
        self.homeserver@
    }
}

impl View for DecodeError {
    type V = DecodeErrorView;

    open spec fn view(&self) -> DecodeErrorView {
        match *self {
            DecodeError::InvalidStatus { status } => DecodeErrorView::InvalidStatus { status },
            DecodeError::NotSuccess { status } => DecodeErrorView::NotSuccess { status },
            DecodeError::Server { status, errcode, error } => DecodeErrorView::Server {
                status,
                errcode: errcode@,
                error: error@,
            },
            DecodeError::Unexpected { message } => DecodeErrorView::Unexpected { message: message@ },
            DecodeError::MissingAccessToken => DecodeErrorView::MissingAccessToken,
            DecodeError::MissingHomeServer => DecodeErrorView::MissingHomeServer,
        }
    }
}

impl View for Error {
    type V = ErrorView;

    open spec fn view(&self) -> ErrorView {
        match *self {
            Error::Encode(e) => ErrorView::Encode(e@),
            Error::Compose(e) => ErrorView::Compose(e),
            Error::Transport(e) => ErrorView::Transport(e@),
            Error::Decode(e) => ErrorView::Decode(e@),
            Error::SessionField(e) => ErrorView::SessionField(e@),
        }
    }
}

impl ErrorView {
    /// The stage that an error of this shape comes from.
    pub open spec fn stage(self) -> Stage {
        match self {
            ErrorView::Encode(_) => Stage::Encode,
            ErrorView::Compose(_) => Stage::Compose,
            ErrorView::Transport(_) => Stage::Transport,
            ErrorView::Decode(_) => Stage::Decode,
            ErrorView::SessionField(_) => Stage::Session,
        }
    }
}

impl Error {
    /// An encoding failure as a call's error.
    pub fn from_encode(e: EncodeError) -> (out: Error)
        ensures
            out == Error::Encode(e),
    {
        Error::Encode(e)
    }

    /// A composition failure as a call's error.
    pub fn from_compose(e: ComposeError) -> (out: Error)
        ensures
            out == Error::Compose(e),
    {
        Error::Compose(e)
    }

    /// A transport failure as a call's error.
    pub fn from_transport(e: TransportError) -> (out: Error)
        ensures
            out == Error::Transport(e),
    {
        Error::Transport(e)
    }

    /// A decoding failure as a call's error.
    pub fn from_decode(e: DecodeError) -> (out: Error)
        ensures
            out == Error::Decode(e),
    {
        Error::Decode(e)
    }

    /// A session field failure as a call's error.
    pub fn from_session_field(e: SessionFieldError) -> (out: Error)
        ensures
            out == Error::SessionField(e),
    {
        Error::SessionField(e)
    }

    /// The stage at which this error arose.
    pub fn stage(&self) -> (out: Stage)
        ensures
            out == self@.stage(),
    {
        match self {
            Error::Encode(_) => Stage::Encode,
            Error::Compose(_) => Stage::Compose,
            Error::Transport(_) => Stage::Transport,
            Error::Decode(_) => Stage::Decode,
            Error::SessionField(_) => Stage::Session,
        }
    }
}

} // verus!
