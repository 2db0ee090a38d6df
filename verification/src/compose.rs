//! The URL composer: it puts a request's path and query in the place of
//! those of the server's URL, and leaves scheme, credentials, host and port
//! alone. What comes out is checked against what went in: a URI is handed
//! out only if it names the server of the base and carries the request's
//! path and query as they were given.

use crate::error::ComposeError;
use std::str::FromStr;
use vstd::prelude::*;
use vstd::utf8::encode_utf8;

verus! {

/// The parts of a URL, as plain values.
#[derive(Clone, Debug, PartialEq, Eq)]
pub struct UrlParts {
    /// The whole URL in its normal form.
    pub href: String,
    /// The scheme, without the colon.
    pub scheme: String,
    /// The user name; empty where there is none.
    pub username: String,
    /// The password.
    pub password: Option<String>,
    /// The host, as text.
    pub host: Option<String>,
    /// The port, unless it is the scheme's own.
    pub port: Option<u16>,
    /// The path.
    pub path: String,
    /// The query, without the question mark.
    pub query: Option<String>,
}

/// Whether two URLs, given by their parts, have the same scheme,
/// credentials, host and port.
pub open spec fn same_server_parts(a: UrlParts, b: UrlParts) -> bool {
    &&& a.scheme@ == b.scheme@
    &&& a.username@ == b.username@
    &&& a.password.deep_view() == b.password.deep_view()
    &&& a.host.deep_view() == b.host.deep_view()
    &&& a.port == b.port
}

/// What becomes of a merged text, given the parts of the base, the parts
/// that the merged text was found to have, if it is a URL, and whether it
/// can be sent to as a URI.
pub open spec fn settled_uri(
    full: String,
    server: UrlParts,
    merged: Option<UrlParts>,
    path: Seq<char>,
    query: Option<Seq<char>>,
    sendable: bool,
) -> Result<String, ComposeError> {
    match merged {
        None => Err(ComposeError::Server),
        Some(merged) => if !same_server_parts(merged, server) {
            Err(ComposeError::Server)
        } else if merged.path@ != path {
            Err(ComposeError::Path)
        } else if merged.query.deep_view() != query {
            Err(ComposeError::Query)
        } else if !sendable {
            Err(ComposeError::Uri)
        } else {
            Ok(full)
        },
    }
}

/// What `Url::as_str` gives for the URL that `url` spells: its text in
/// normal form. `None` where `url` spells no URL.
pub uninterp spec fn url_href(url: Seq<char>) -> Option<Seq<char>>;

/// What `Url::scheme` gives for the URL that `url` spells.
pub uninterp spec fn url_scheme(url: Seq<char>) -> Seq<char>;

/// What `Url::username` gives for the URL that `url` spells.
pub uninterp spec fn url_username(url: Seq<char>) -> Seq<char>;

/// What `Url::password` gives for the URL that `url` spells.
pub uninterp spec fn url_password(url: Seq<char>) -> Option<Seq<char>>;

/// What `Url::host_str` gives for the URL that `url` spells.
pub uninterp spec fn url_host(url: Seq<char>) -> Option<Seq<char>>;

/// What `Url::port` gives for the URL that `url` spells.
pub uninterp spec fn url_port(url: Seq<char>) -> Option<u16>;

/// What `Url::path` gives for the URL that `url` spells.
pub uninterp spec fn url_path(url: Seq<char>) -> Seq<char>;

/// What `Url::query` gives for the URL that `url` spells.
pub uninterp spec fn url_query(url: Seq<char>) -> Option<Seq<char>>;

/// The text of the URL that is left when `Url::set_path` is called with
/// `path`, and then `Url::set_query` with `query`, on the URL that `url`
/// spells; `None` where `url` spells no URL.
pub uninterp spec fn url_with_target(
    url: Seq<char>,
    path: Seq<char>,
    query: Option<Seq<char>>,
) -> Option<Seq<char>>;

/// Whether `Uri::from_str` accepts `text`.
pub uninterp spec fn is_uri(text: Seq<char>) -> bool;

/// The query as text: nothing where there is none.
pub open spec fn query_text(query: Option<Seq<char>>) -> Seq<char> {
    match query {
        Some(q) => q,
        None => Seq::empty(),
    }
}

/// Whether a URL whose text in normal form is `href` can take up `path` and
/// `query`, with every byte of them escaped, and still be indexed by 32-bit
/// numbers.
pub open spec fn room_for(href: Seq<char>, path: Seq<char>, query: Seq<char>) -> bool {
    encode_utf8(href).len() + 3 * encode_utf8(path).len() + 3 * encode_utf8(query).len() + 4
        <= u32::MAX
}

/// Whether two URLs have the same scheme, credentials, host and port.
pub open spec fn same_server(a: Seq<char>, b: Seq<char>) -> bool {
    &&& url_scheme(a) == url_scheme(b)
    &&& url_username(a) == url_username(b)
    &&& url_password(a) == url_password(b)
    &&& url_host(a) == url_host(b)
    &&& url_port(a) == url_port(b)
}

/// What holds of the URI of a request for `path` and `query` on the server
/// at `base`: it has the scheme, credentials, host and port of `base`, and
/// its path and query are those of the request, as they were given.
pub open spec fn addressed_to(
    uri: Seq<char>,
    base: Seq<char>,
    path: Seq<char>,
    query: Option<Seq<char>>,
) -> bool {
    &&& same_server(uri, base)
    &&& url_path(uri) == path
    &&& url_query(uri) == query
}

/// What becomes of the merged text `full`: it is handed out if it is a URL
/// that names the server of `base` with the request's own path and query,
/// and a URI that can be sent to.
pub open spec fn checked(
    full: Seq<char>,
    base: Seq<char>,
    path: Seq<char>,
    query: Option<Seq<char>>,
) -> Result<Seq<char>, ComposeError> {
    if url_href(full) is None || !same_server(full, base) {
        Err(ComposeError::Server)
    } else if url_path(full) != path {
        Err(ComposeError::Path)
    } else if url_query(full) != query {
        Err(ComposeError::Query)
    } else if !is_uri(full) {
        Err(ComposeError::Uri)
    } else {
        Ok(full)
    }
}

/// The absolute URI for `path` and `query` on the server at `base`, or the
/// reason why there is none.
pub open spec fn composed(base: Seq<char>, path: Seq<char>, query: Option<Seq<char>>) -> Result<
    Seq<char>,
    ComposeError,
> {
    match url_href(base) {
        None => Err(ComposeError::BaseUrl),
        Some(href) => {
            if !room_for(href, path, query_text(query)) {
                Err(ComposeError::TooLong)
            } else {
                match url_with_target(base, path, query) {
                    None => Err(ComposeError::BaseUrl),
                    Some(full) => checked(full, base, path, query),
                }
            }
        },
    }
}

/// Calls `Url::parse` of the url crate and reads the URL through its
/// getters `as_str`, `scheme`, `username`, `password`, `host_str`, `port`,
/// `path` and `query`. Claimed: there are parts exactly where the text
/// parses, and each part is what its getter gives.
#[verifier::external_body]
fn url_parts(text: &str) -> (out: Option<UrlParts>)
    ensures
        out is Some <==> url_href(text@) is Some,
        out matches Some(parts) ==> {
            &&& url_href(text@) == Some(parts.href@)
            &&& url_scheme(text@) == parts.scheme@
            &&& url_username(text@) == parts.username@
            &&& url_password(text@) == parts.password.deep_view()
            &&& url_host(text@) == parts.host.deep_view()
            &&& url_port(text@) == parts.port
            &&& url_path(text@) == parts.path@
            &&& url_query(text@) == parts.query.deep_view()
        },
{
    let url = url::Url::parse(text).ok()?;
    Some(UrlParts {
        href: url.as_str().into(),
        scheme: url.scheme().into(),
        username: url.username().into(),
        password: url.password().map(String::from),
        host: url.host_str().map(String::from),
        port: url.port(),
        path: url.path().into(),
        query: url.query().map(String::from),
    })
}

/// Calls `Url::parse` of the url crate, then `Url::set_path` and
/// `Url::set_query` on the URL that came out, and hands back its text.
/// Claimed: the result is that of these calls. The bound keeps the URL's
/// length, with the new path and query fully escaped, within the 32-bit
/// indices that the two setters unwrap.
#[verifier::external_body]
fn url_retarget(url: &str, path: &str, query: Option<&str>) -> (out: Option<String>)
    requires
        url_href(url@) matches Some(href) ==> room_for(
            href,
            path@,
            query_text(query.deep_view()),
        ),
    ensures
        out.deep_view() == url_with_target(url@, path@, query.deep_view()),
{
    let mut parsed = url::Url::parse(url).ok()?;
    parsed.set_path(path);
    parsed.set_query(query);
    Some(parsed.into())
}

/// Calls `Uri::from_str` of hyper and says whether it accepted the text.
#[verifier::external_body]
fn uri_accepts(text: &str) -> (ok: bool)
    ensures
        ok == is_uri(text@),
{
    hyper::Uri::from_str(text).is_ok()
}

/// The length of a text in bytes.
fn byte_len(text: &str) -> (n: usize)
    ensures
        n == encode_utf8(text@).len(),
{
    text.as_bytes().len()
}

/// Whether a URL whose normal form has `href_len` bytes can take up a path
/// and a query of these lengths in bytes: whether `room_for` holds of them.
pub fn has_room(href_len: usize, path_len: usize, query_len: usize) -> (ok: bool)
    ensures
        ok == (href_len + 3 * path_len + 3 * query_len + 4 <= u32::MAX),
{
    if href_len > 0xffff_ffff || path_len > 0xffff_ffff || query_len > 0xffff_ffff {
        false
    } else {
        let total: u64 = href_len as u64 + 3 * (path_len as u64) + 3 * (query_len as u64) + 4;
        total <= 0xffff_ffff
    }
}

/// Whether two texts are the same.
fn same_text(a: &str, b: &str) -> (same: bool)
    ensures
        same == (a@ == b@),
{
    a.to_owned() == b.to_owned()
}

/// Whether two texts that may be missing are the same.
fn same_option(a: Option<&str>, b: Option<&str>) -> (same: bool)
    ensures
        same == (a.deep_view() == b.deep_view()),
{
    match (a, b) {
        (Some(a), Some(b)) => same_text(a, b),
        (None, None) => true,
        _ => false,
    }
}

/// A text that may be missing, borrowed.
fn borrowed(text: &Option<String>) -> (out: Option<&str>)
    ensures
        out.deep_view() == text.deep_view(),
{
    match text {
        Some(text) => Some(text.as_str()),
        None => None,
    }
}

/// Whether two URLs, given by their parts, have the same scheme,
/// credentials, host and port.
fn same_server_of(a: &UrlParts, b: &UrlParts) -> (same: bool)
    ensures
        same == same_server_parts(*a, *b),
{
    let same_port = match (a.port, b.port) {
        (Some(a), Some(b)) => a == b,
        (None, None) => true,
        _ => false,
    };
    same_text(a.scheme.as_str(), b.scheme.as_str()) && same_text(
        a.username.as_str(),
        b.username.as_str(),
    ) && same_option(borrowed(&a.password), borrowed(&b.password)) && same_option(
        borrowed(&a.host),
        borrowed(&b.host),
    ) && same_port
}

/// Decides what becomes of a merged text. `server` holds the parts of the
/// base, `merged` the parts that the merged text was found to have, if it
/// is a URL, and `sendable` says whether it can be sent to as a URI. The
/// text is handed out only if it names the server of the base and holds the
/// request's path and query as they were given; else the error names the
/// first part that differs.
pub fn settle_uri(
    full: String,
    server: &UrlParts,
    merged: Option<UrlParts>,
    path: &str,
    query: Option<&str>,
    sendable: bool,
) -> (out: Result<String, ComposeError>)
    ensures
        out == settled_uri(full, *server, merged, path@, query.deep_view(), sendable),
{
    let merged = match merged {
        Some(merged) => merged,
        None => {
            return Err(ComposeError::Server);
        },
    };
    if !same_server_of(&merged, server) {
        Err(ComposeError::Server)
    } else if !same_text(merged.path.as_str(), path) {
        Err(ComposeError::Path)
    } else if !same_option(borrowed(&merged.query), query) {
        Err(ComposeError::Query)
    } else if !sendable {
        Err(ComposeError::Uri)
    } else {
        Ok(full)
    }
}

/// Composes the absolute URI of a request: scheme, credentials, host and
/// port come from `base`; `path` and `query` take the place of whatever
/// path and query `base` has.
///
/// The URI that comes out has the scheme, credentials, host and port of
/// `base`, and the path and query of the request as they were given. Where
/// the merged URL would name another server, or would hold the path or the
/// query in another form than the request does, there is no URI, and the
/// error says which part it was.
pub fn compose(base: &str, path: &str, query: Option<&str>) -> (out: Result<String, ComposeError>)
    ensures
        match out {
            Ok(uri) => composed(base@, path@, query.deep_view()) == Ok::<Seq<char>, ComposeError>(
                uri@,
            ),
            Err(e) => composed(base@, path@, query.deep_view()) == Err::<Seq<char>, ComposeError>(
                e,
            ),
        },
        out matches Ok(uri) ==> addressed_to(uri@, base@, path@, query.deep_view()),
{
    let server = match url_parts(base) {
        Some(server) => server,
        None => {
            return Err(ComposeError::BaseUrl);
        },
    };
    let query_len = match query {
        Some(q) => byte_len(q),
        None => 0,
    };
    if !has_room(byte_len(server.href.as_str()), byte_len(path), query_len) {
        return Err(ComposeError::TooLong);
    }
    let full = match url_retarget(base, path, query) {
        Some(full) => full,
        None => {
            return Err(ComposeError::BaseUrl);
        },
    };
    let merged = url_parts(full.as_str());
    let sendable = uri_accepts(full.as_str());
    settle_uri(full, &server, merged, path, query, sendable)
}

} // verus!
