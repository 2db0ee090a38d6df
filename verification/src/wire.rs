//! The records that pass between the typed endpoints and the transport.

use vstd::prelude::*;

verus! {

/// A request as an endpoint encodes it: addressed by path and query alone,
/// relative to whatever server it will be sent to.
#[derive(Clone, Debug, PartialEq, Eq)]
pub struct WireRequest {
    /// The HTTP method, in upper case.
    pub method: String,
    /// The path, starting with a slash.
    pub path: String,
    /// The query, without the question mark.
    pub query: Option<String>,
    /// Header names with their values.
    pub headers: Vec<(String, Vec<u8>)>,
    /// The body.
    pub body: Vec<u8>,
}

/// A request that carries the absolute URI it is sent to: what the
/// transport executes.
#[derive(Clone, Debug, PartialEq, Eq)]
pub struct TransportRequest {
    /// The HTTP method, in upper case.
    pub method: String,
    /// The absolute URI.
    pub uri: String,
    /// Header names with their values.
    pub headers: Vec<(String, Vec<u8>)>,
    /// The body.
    pub body: Vec<u8>,
}

/// What the transport brings back.
#[derive(Clone, Debug, PartialEq, Eq)]
pub struct WireResponse {
    /// The status code.
    pub status: u16,
    /// Header names with their values.
    pub headers: Vec<(String, Vec<u8>)>,
    /// The body.
    pub body: Vec<u8>,
}

/// The model of a [`WireRequest`].
pub struct WireRequestView {
    pub method: Seq<char>,
    pub path: Seq<char>,
    pub query: Option<Seq<char>>,
    pub headers: Seq<(Seq<char>, Seq<u8>)>,
    pub body: Seq<u8>,
}

/// The model of a [`TransportRequest`].
pub struct TransportRequestView {
    pub method: Seq<char>,
    pub uri: Seq<char>,
    pub headers: Seq<(Seq<char>, Seq<u8>)>,
    pub body: Seq<u8>,
}

/// The model of a [`WireResponse`].
pub struct WireResponseView {
    pub status: u16,
    pub headers: Seq<(Seq<char>, Seq<u8>)>,
    pub body: Seq<u8>,
}

impl View for WireRequest {
    type V = WireRequestView;

    open spec fn view(&self) -> WireRequestView {
        WireRequestView {
            method: self.method@,
            path: self.path@,
            query: self.query.deep_view(),
            headers: self.headers.deep_view(),
            body: self.body@,
        }
    }
}

impl View for TransportRequest {
    type V = TransportRequestView;

    open spec fn view(&self) -> TransportRequestView {
        TransportRequestView {
            method: self.method@,
            uri: self.uri@,
            headers: self.headers.deep_view(),
            body: self.body@,
        }
    }
}

impl View for WireResponse {
    type V = WireResponseView;

    open spec fn view(&self) -> WireResponseView {
        WireResponseView {
            status: self.status,
            headers: self.headers.deep_view(),
            body: self.body@,
        }
    }
}

impl WireRequestView {
    /// This request with `uri` in the place of its path and query.
    pub open spec fn addressed(self, uri: Seq<char>) -> TransportRequestView {
        TransportRequestView { method: self.method, uri, headers: self.headers, body: self.body }
    }
}

impl WireRequest {
    /// Attaches the absolute URI: method, headers and body stay as they are.
    pub fn address(self, uri: String) -> (out: TransportRequest)
        ensures
            out@ == self@.addressed(uri@),
    {
        TransportRequest { method: self.method, uri, headers: self.headers, body: self.body }
    }
}

} // verus!
