//! The endpoint contract: what every remote operation brings to a call.
//!
//! An endpoint pairs a typed request with a typed response, and says how the
//! first becomes a wire request and how a wire response becomes the second.
//! It sends nothing itself.

use crate::error::{DecodeError, DecodeErrorView, EncodeError};
use crate::wire::{WireRequest, WireRequestView, WireResponse, WireResponseView};
use vstd::prelude::*;

verus! {

/// The model of what an encoder hands back.
pub open spec fn encoding_view(out: Result<WireRequest, EncodeError>) -> Result<
    WireRequestView,
    Seq<char>,
> {
    match out {
        Ok(request) => Ok(request@),
        Err(e) => Err(e@),
    }
}

/// The model of what a decoder hands back.
pub open spec fn decoding_view<T: View>(out: Result<T, DecodeError>) -> Result<
    T::V,
    DecodeErrorView,
> {
    match out {
        Ok(response) => Ok(response@),
        Err(e) => Err(e@),
    }
}

/// Whether a number is an HTTP status code.
pub open spec fn is_status(status: u16) -> bool {
    100 <= status <= 999
}

/// Whether a status tells of a success.
pub open spec fn is_success(status: u16) -> bool {
    200 <= status <= 299
}

/// The text that serde_json reads as the member `name` of the JSON object
/// in `body`; `None` where `body` is no JSON object or has no text under
/// that name.
pub uninterp spec fn json_text_member(body: Seq<u8>, name: Seq<char>) -> Option<Seq<char>>;

/// The failure that a response without success amounts to: the protocol
/// error, where the body gives both its code and its message; else the
/// decoder's own failure, where it had one; else the status alone.
pub open spec fn failure(
    status: u16,
    errcode: Option<Seq<char>>,
    error: Option<Seq<char>>,
    decoder: Option<DecodeErrorView>,
) -> DecodeErrorView {
    match (errcode, error) {
        (Some(errcode), Some(error)) => DecodeErrorView::Server { status, errcode, error },
        _ => match decoder {
            Some(e) => e,
            None => DecodeErrorView::NotSuccess { status },
        },
    }
}

/// The failure of a decoder, if it failed.
pub open spec fn failure_of<T>(decoded: Result<T, DecodeError>) -> Option<DecodeErrorView> {
    match decoded {
        Err(e) => Some(e@),
        Ok(_) => None,
    }
}

/// What a decoder's word counts for under a status: under a success it
/// stands; under any other status there is a failure, whatever was decoded.
pub open spec fn settled<T>(
    status: u16,
    errcode: Option<Seq<char>>,
    error: Option<Seq<char>>,
    decoded: Result<T, DecodeErrorView>,
) -> Result<T, DecodeErrorView> {
    if is_success(status) {
        decoded
    } else {
        Err(
            failure(
                status,
                errcode,
                error,
                match decoded {
                    Err(e) => Some(e),
                    Ok(_) => None,
                },
            ),
        )
    }
}

/// What a decoder's word counts for, given the response it was read from.
pub open spec fn judged<T>(response: WireResponseView, decoded: Result<T, DecodeErrorView>) -> Result<
    T,
    DecodeErrorView,
> {
    settled(
        response.status,
        json_text_member(response.body, "errcode"@),
        json_text_member(response.body, "error"@),
        decoded,
    )
}

/// Whether a number is an HTTP status code.
pub fn status_code(status: u16) -> (ok: bool)
    ensures
        ok == is_status(status),
{
    100 <= status && status <= 999
}

/// Calls `serde_json::from_slice` on the body and reads the member `name`
/// of the value through `Value::get` and `Value::as_str`. Claimed: the text
/// is what these calls give, and there is none where one of them gives
/// none.
#[verifier::external_body]
pub(crate) fn text_member(body: &[u8], name: &str) -> (out: Option<String>)
    ensures
        out.deep_view() == json_text_member(body@, name@),
{
    let value: serde_json::Value = serde_json::from_slice(body).ok()?;
    Some(value.get(name)?.as_str()?.into())
}

/// Settles what a decoder's word counts for under a status, given the code
/// and the message of the protocol error that the body holds, if it holds
/// them. Under a success the decoder's word stands. Under any other status
/// there is a failure: the protocol error where both its parts are there,
/// else the decoder's own failure, else the status alone.
pub fn settle<T>(
    status: u16,
    errcode: Option<String>,
    error: Option<String>,
    decoded: Result<T, DecodeError>,
) -> (out: Result<T, DecodeError>)
    ensures
        out == if is_success(status) {
            decoded
        } else {
            Err::<T, DecodeError>(
                match (errcode, error) {
                    (Some(errcode), Some(error)) => DecodeError::Server { status, errcode, error },
                    _ => match decoded {
                        Err(e) => e,
                        Ok(_) => DecodeError::NotSuccess { status },
                    },
                },
            )
        },
        !is_success(status) ==> out is Err,
{
    if 200 <= status && status <= 299 {
        return decoded;
    }
    match (errcode, error) {
        (Some(errcode), Some(error)) => Err(DecodeError::Server { status, errcode, error }),
        _ => match decoded {
            Err(e) => Err(e),
            Ok(_) => Err(DecodeError::NotSuccess { status }),
        },
    }
}

/// Judges a decoder's word by the response it was read from. Under a
/// success it stands. Under any other status the body is searched for the
/// code and the message of a protocol error, and the call fails with them,
/// or with the decoder's own failure, or with the status alone.
pub fn judge<T>(response: &WireResponse, decoded: Result<T, DecodeError>) -> (out: Result<
    T,
    DecodeError,
>)
    ensures
        is_success(response.status) ==> out == decoded,
        !is_success(response.status) ==> (out matches Err(e) && e@ == failure(
            response.status,
            json_text_member(response.body@, "errcode"@),
            json_text_member(response.body@, "error"@),
            failure_of(decoded),
        )),
{
    if 200 <= response.status && response.status <= 299 {
        return decoded;
    }
    let errcode = text_member(response.body.as_slice(), "errcode");
    let error = text_member(response.body.as_slice(), "error");
    settle(response.status, errcode, error, decoded)
}

/// A remote operation with a fixed shape of request and of response.
pub trait Endpoint {
    /// What a caller hands in.
    type Request;

    /// What a caller gets back.
    type Response: View;

    /// The wire request of a typed request, or the reason why it has none.
    spec fn encoding(request: Self::Request) -> Result<WireRequestView, Seq<char>>;

    /// The typed response of a wire response, or the reason why it has
    /// none.
    spec fn decoding(response: WireResponseView) -> Result<
        <Self::Response as View>::V,
        DecodeErrorView,
    >;

    /// Turns a typed request into a wire request, addressed by path and
    /// query alone.
    fn encode(request: Self::Request) -> (out: Result<WireRequest, EncodeError>)
        ensures
            encoding_view(out) == Self::encoding(request),
    ;

    /// Turns a wire response into a typed response. A response whose status
    /// tells of no success is refused, whatever its body holds.
    fn decode(response: &WireResponse) -> (out: Result<Self::Response, DecodeError>)
        ensures
            decoding_view(out) == Self::decoding(response@),
            !is_success(response.status) ==> out is Err,
    ;
}

} // verus!
