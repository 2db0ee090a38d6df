//! The dispatcher: one endpoint call from its encoded request to its
//! response, each step ending the call at its first failure.
//!
//! The transport does its work between the two halves of a call: [`send`]
//! readies the request for it, [`finish`] takes its reply. Their steps can
//! be had one by one as well: [`prepare`], [`receive`] and [`conclude`].

use crate::compose::{addressed_to, compose, composed};
use crate::endpoint::{encoding_view, is_success, Endpoint};
use crate::error::{DecodeError, DecodeErrorView, EncodeError, Error, ErrorView};
use crate::error::TransportError;
use crate::wire::{TransportRequest, TransportRequestView};
use crate::wire::{WireRequest, WireRequestView, WireResponse, WireResponseView};
use vstd::prelude::*;

verus! {

/// The model of what [`prepare`] hands back.
pub open spec fn outgoing_view(out: Result<TransportRequest, Error>) -> Result<
    TransportRequestView,
    ErrorView,
> {
    match out {
        Ok(request) => Ok(request@),
        Err(e) => Err(e@),
    }
}

/// The model of what the transport hands back.
pub open spec fn reply_view(reply: Result<WireResponse, TransportError>) -> Result<
    WireResponseView,
    Seq<char>,
> {
    match reply {
        Ok(response) => Ok(response@),
        Err(e) => Err(e@),
    }
}

/// The model of what [`receive`] hands back.
pub open spec fn incoming_view(out: Result<WireResponse, Error>) -> Result<
    WireResponseView,
    ErrorView,
> {
    match out {
        Ok(response) => Ok(response@),
        Err(e) => Err(e@),
    }
}

/// The request that goes to the transport: the encoder's failure ends the
/// call; else the URI is composed on `base`, and a failure there ends the
/// call; else the URI is attached to the request.
pub open spec fn prepared(base: Seq<char>, encoded: Result<WireRequestView, Seq<char>>) -> Result<
    TransportRequestView,
    ErrorView,
> {
    match encoded {
        Err(message) => Err(ErrorView::Encode(message)),
        Ok(request) => match composed(base, request.path, request.query) {
            Err(e) => Err(ErrorView::Compose(e)),
            Ok(uri) => Ok(request.addressed(uri)),
        },
    }
}

/// The response that goes to the decoder: the transport's failure ends the
/// call.
pub open spec fn received(reply: Result<WireResponseView, Seq<char>>) -> Result<
    WireResponseView,
    ErrorView,
> {
    match reply {
        Err(message) => Err(ErrorView::Transport(message)),
        Ok(response) => Ok(response),
    }
}

/// Steps one to three of a call: takes what the endpoint's encoder gave,
/// composes the absolute URI on the server's URL and attaches it.
pub fn prepare(base: &str, encoded: Result<WireRequest, EncodeError>) -> (out: Result<
    TransportRequest,
    Error,
>)
    ensures
        outgoing_view(out) == prepared(base@, encoding_view(encoded)),
        out matches Ok(sent) ==> (encoded matches Ok(request) && addressed_to(
            sent.uri@,
            base@,
            request.path@,
            request.query.deep_view(),
        )),
{
    let request = match encoded {
        Ok(request) => request,
        Err(e) => {
            return Err(Error::from_encode(e));
        },
    };
    let composed = match &request.query {
        Some(query) => compose(base, request.path.as_str(), Some(query.as_str())),
        None => compose(base, request.path.as_str(), None),
    };
    match composed {
        Ok(uri) => Ok(request.address(uri)),
        Err(e) => Err(Error::from_compose(e)),
    }
}

/// Step four of a call, once the transport is done: its response goes on
/// as it is, its failure becomes the call's error.
pub fn receive(reply: Result<WireResponse, TransportError>) -> (out: Result<WireResponse, Error>)
    ensures
        out == match reply {
            Ok(response) => Ok::<WireResponse, Error>(response),
            Err(e) => Err(Error::Transport(e)),
        },
        incoming_view(out) == received(reply_view(reply)),
{
    match reply {
        Ok(response) => Ok(response),
        Err(e) => Err(Error::from_transport(e)),
    }
}

/// Step five of a call, once the endpoint's decoder is done: its typed
/// response is the call's result, its failure becomes the call's error.
pub fn conclude<T>(decoded: Result<T, DecodeError>) -> (out: Result<T, Error>)
    ensures
        out == match decoded {
            Ok(response) => Ok::<T, Error>(response),
            Err(e) => Err(Error::Decode(e)),
        },
{
    match decoded {
        Ok(response) => Ok(response),
        Err(e) => Err(Error::from_decode(e)),
    }
}

/// What a call against the server at `base` hands to the transport.
pub open spec fn sent<E: Endpoint>(base: Seq<char>, request: E::Request) -> Result<
    TransportRequestView,
    ErrorView,
> {
    prepared(base, E::encoding(request))
}

/// What a call ends in, given the transport's reply and what the decoder
/// makes of a response: the transport's failure, or the decoder's, or the
/// typed response.
pub open spec fn answered<T>(
    reply: Result<WireResponseView, Seq<char>>,
    decoding: spec_fn(WireResponseView) -> Result<T, DecodeErrorView>,
) -> Result<T, ErrorView> {
    match received(reply) {
        Err(e) => Err(e),
        Ok(response) => match decoding(response) {
            Err(e) => Err(ErrorView::Decode(e)),
            Ok(typed) => Ok(typed),
        },
    }
}

/// What a call to an endpoint ends in, given the transport's reply.
pub open spec fn finished<E: Endpoint>(reply: Result<WireResponseView, Seq<char>>) -> Result<
    <E::Response as View>::V,
    ErrorView,
> {
    answered(reply, |response: WireResponseView| E::decoding(response))
}

/// Law: a call ends at its first failure, and in the error of the stage
/// that failed. An encoding failure keeps the composer from running; a
/// transport failure keeps the decoder from running; and a call that ends
/// well has passed every stage.
pub proof fn lemma_first_failure_ends_call<E: Endpoint>(
    base: Seq<char>,
    request: E::Request,
    reply: Result<WireResponseView, Seq<char>>,
)
    ensures
        E::encoding(request) matches Err(message) ==> sent::<E>(base, request) == Err::<
            TransportRequestView,
            ErrorView,
        >(ErrorView::Encode(message)),
        E::encoding(request) matches Ok(encoded) ==> (composed(
            base,
            encoded.path,
            encoded.query,
        ) matches Err(e) ==> sent::<E>(base, request) == Err::<TransportRequestView, ErrorView>(
            ErrorView::Compose(e),
        )),
        sent::<E>(base, request) is Ok ==> (E::encoding(request) matches Ok(encoded) && composed(
            base,
            encoded.path,
            encoded.query,
        ) is Ok),
        reply matches Err(message) ==> finished::<E>(reply) == Err::<
            <E::Response as View>::V,
            ErrorView,
        >(ErrorView::Transport(message)),
        reply matches Ok(response) ==> (E::decoding(response) matches Err(e) ==> finished::<E>(
            reply,
        ) == Err::<<E::Response as View>::V, ErrorView>(ErrorView::Decode(e))),
        finished::<E>(reply) is Ok ==> (reply matches Ok(response) && E::decoding(response) is Ok),
{
}

/// The model of what [`finish`] hands back.
pub open spec fn typed_view<T: View>(out: Result<T, Error>) -> Result<T::V, ErrorView> {
    match out {
        Ok(typed) => Ok(typed@),
        Err(e) => Err(e@),
    }
}

/// The first half of a call, up to the transport: encodes the request,
/// composes its URI on `base` and attaches it.
pub fn send<E: Endpoint>(base: &str, request: E::Request) -> (out: Result<TransportRequest, Error>)
    ensures
        outgoing_view(out) == sent::<E>(base@, request),
        out matches Ok(sent) ==> (E::encoding(request) matches Ok(encoded) && addressed_to(
            sent.uri@,
            base@,
            encoded.path,
            encoded.query,
        )),
{
    prepare(base, E::encode(request))
}

/// The second half of a call, from the transport on: takes the reply and
/// decodes the response. A response whose status tells of no success ends
/// in a decoding failure.
pub fn finish<E: Endpoint>(reply: Result<WireResponse, TransportError>) -> (out: Result<
    E::Response,
    Error,
>)
    ensures
        typed_view(out) == finished::<E>(reply_view(reply)),
        reply matches Err(e) ==> (out matches Err(Error::Transport(t)) && t == e),
        reply matches Ok(response) && !is_success(response.status) ==> out matches Err(
            Error::Decode(_),
        ),
{
    match receive(reply) {
        Err(e) => Err(e),
        Ok(response) => conclude(E::decode(&response)),
    }
}

/// What one call has to go on: what its endpoint's encoder gave, what the
/// transport will answer to its request, and what its endpoint's decoder
/// makes of a response.
pub struct CallInput<T> {
    pub encoded: Result<WireRequestView, Seq<char>>,
    pub reply: Result<WireResponseView, Seq<char>>,
    pub decoding: spec_fn(WireResponseView) -> Result<T, DecodeErrorView>,
}

/// How far one call has come.
pub enum Progress<T> {
    /// Nothing has been done yet.
    Waiting,
    /// The request is with the transport.
    Sent(TransportRequestView),
    /// The call is over: it has its typed response, or it has failed.
    Finished(Result<T, ErrorView>),
}

/// What a call ends in: the first failure on its way, or its typed
/// response.
pub open spec fn outcome<T>(base: Seq<char>, input: CallInput<T>) -> Result<T, ErrorView> {
    match prepared(base, input.encoded) {
        Err(e) => Err(e),
        Ok(_) => answered(input.reply, input.decoding),
    }
}

/// One step of one call: a waiting call is prepared, a sent one receives
/// its reply and decodes it, a finished one stays as it is.
pub open spec fn advance<T>(base: Seq<char>, input: CallInput<T>, progress: Progress<T>) -> Progress<
    T,
> {
    match progress {
        Progress::Waiting => match prepared(base, input.encoded) {
            Ok(request) => Progress::Sent(request),
            Err(e) => Progress::Finished(Err(e)),
        },
        Progress::Sent(_) => Progress::Finished(answered(input.reply, input.decoding)),
        Progress::Finished(end) => Progress::Finished(end),
    }
}

/// Where a call stands after `turns` steps, when it runs by itself.
pub open spec fn alone<T>(base: Seq<char>, input: CallInput<T>, turns: nat) -> Progress<T>
    decreases turns,
{
    if turns == 0 {
        Progress::Waiting
    } else {
        advance(base, input, alone(base, input, (turns - 1) as nat))
    }
}

/// How many of the steps in `schedule` are steps of `call`.
pub open spec fn turns_of(schedule: Seq<int>, call: int) -> nat
    decreases schedule.len(),
{
    if schedule.len() == 0 {
        0
    } else if schedule.last() == call {
        turns_of(schedule.drop_last(), call) + 1
    } else {
        turns_of(schedule.drop_last(), call)
    }
}

/// Where the calls of `inputs` stand when they run against one server in
/// the order of `schedule`, each entry of which names the call that takes
/// the next step.
pub open spec fn together<T>(
    base: Seq<char>,
    inputs: Seq<CallInput<T>>,
    schedule: Seq<int>,
) -> Seq<Progress<T>>
    decreases schedule.len(),
{
    if schedule.len() == 0 {
        Seq::new(inputs.len(), |call: int| Progress::Waiting)
    } else {
        let before = together(base, inputs, schedule.drop_last());
        let call = schedule.last();
        if 0 <= call < inputs.len() {
            before.update(call, advance(base, inputs[call], before[call]))
        } else {
            before
        }
    }
}

/// Law: calls that run against one server do not interfere. However their
/// steps are interleaved, each call stands where it would stand had it
/// taken its own steps alone: nothing of another call's request, reply or
/// response reaches it.
pub proof fn lemma_calls_do_not_interfere<T>(
    base: Seq<char>,
    inputs: Seq<CallInput<T>>,
    schedule: Seq<int>,
    call: int,
)
    requires
        0 <= call < inputs.len(),
    ensures
        together(base, inputs, schedule).len() == inputs.len(),
        together(base, inputs, schedule)[call] == alone(
            base,
            inputs[call],
            turns_of(schedule, call),
        ),
    decreases schedule.len(),
{
    if schedule.len() > 0 {
        lemma_calls_do_not_interfere(base, inputs, schedule.drop_last(), call);
        let other = schedule.last();
        if 0 <= other < inputs.len() {
            lemma_calls_do_not_interfere(base, inputs, schedule.drop_last(), other);
        }
    }
}

/// Law: a call that has taken two steps or more is over, and has ended in
/// its own outcome.
pub proof fn lemma_two_steps_finish<T>(base: Seq<char>, input: CallInput<T>, turns: nat)
    requires
        turns >= 2,
    ensures
        alone(base, input, turns) == Progress::Finished(outcome(base, input)),
    decreases turns,
{
    if turns == 2 {
        assert(alone(base, input, 0) == Progress::<T>::Waiting);
        assert(alone(base, input, 1) == advance(base, input, Progress::Waiting));
    } else {
        lemma_two_steps_finish(base, input, (turns - 1) as nat);
    }
}

/// Law: when every call has had its two steps, in whatever order, every
/// call has ended in its own outcome.
pub proof fn lemma_concurrent_calls_complete<T>(
    base: Seq<char>,
    inputs: Seq<CallInput<T>>,
    schedule: Seq<int>,
)
    requires
        forall|call: int| 0 <= call < inputs.len() ==> turns_of(schedule, call) >= 2,
    ensures
        together(base, inputs, schedule).len() == inputs.len(),
        forall|call: int|
            0 <= call < inputs.len() ==> #[trigger] together(base, inputs, schedule)[call]
                == Progress::Finished(outcome(base, inputs[call])),
{
    if inputs.len() > 0 {
        lemma_calls_do_not_interfere(base, inputs, schedule, 0);
    } else {
        lemma_together_len(base, inputs, schedule);
    }
    assert forall|call: int| 0 <= call < inputs.len() implies #[trigger] together(
        base,
        inputs,
        schedule,
    )[call] == Progress::Finished(outcome(base, inputs[call])) by {
        lemma_calls_do_not_interfere(base, inputs, schedule, call);
        lemma_two_steps_finish(base, inputs[call], turns_of(schedule, call));
    }
}

/// There is one state for each call, whatever the schedule.
proof fn lemma_together_len<T>(base: Seq<char>, inputs: Seq<CallInput<T>>, schedule: Seq<int>)
    ensures
        together(base, inputs, schedule).len() == inputs.len(),
    decreases schedule.len(),
{
    if schedule.len() > 0 {
        lemma_together_len(base, inputs, schedule.drop_last());
    }
}

} // verus!
