use vstd::prelude::*;
use vstd::slice::slice_to_vec;
use vstd::string::StringExecFns;

use crate::errors::SecretReadError;
use crate::keyid::murmurhash3_of;
use crate::layout::location;
use crate::layout::SecretLocation;
use crate::mode::Mode;
use crate::signing::hmac_sha256_of;
use crate::signing::read_view;
use crate::signing::select_secret;
use crate::signing::sign;
use crate::signing::signed;
use crate::signing::Digest;
use crate::signing::Secret;
use crate::signing::MAX_PAYLOAD_LEN;
use crate::store::SecretStore;

verus! {

/// Status of the one answer that carries a digest.
pub const STATUS_OK: u16 = 200;

/// Status of every other answer.
pub const STATUS_BAD_REQUEST: u16 = 400;

/// What is sent back: a status code and a body of raw bytes.
#[derive(Debug, PartialEq, Eq)]
pub struct Response {
    pub status: u16,
    pub body: Vec<u8>,
}

/// A response as a value: its status and the bytes of its body.
pub struct ResponseView {
    pub status: u16,
    pub body: Seq<u8>,
}

impl View for Response {
    type V = ResponseView;

    open spec fn view(&self) -> ResponseView {
        ResponseView { status: self.status, body: self.body@ }
    }
}

/// The answer to everything that is not a well-formed request that could be
/// signed: status 400 and no body.
pub open spec fn bad_request() -> ResponseView {
    ResponseView { status: 400, body: Seq::empty() }
}

/// The answer that carries a digest: status 200 and the raw digest as body.
pub open spec fn ok(digest: Seq<u8>) -> ResponseView {
    ResponseView { status: 200, body: digest }
}

/// The answer to a request, given how the read of the secret went that its
/// body selects. The branches are tried in this order, and the first that
/// matches decides.
pub open spec fn answer(
    method: Seq<char>,
    path: Seq<char>,
    body: Seq<u8>,
    read: Result<Seq<u8>, SecretReadError>,
) -> ResponseView {
    if method != "POST"@ {
        bad_request()
    } else if path != "/hmac"@ {
        bad_request()
    } else if body.len() == 0 {
        bad_request()
    } else {
        match signed(body, read) {
            Ok(digest) => ok(digest),
            Err(_) => bad_request(),
        }
    }
}

impl Response {
    /// The response with status 400 and no body.
    pub fn bad_request() -> (response: Response)
        ensures
            response@ == bad_request(),
    {
        Response { status: STATUS_BAD_REQUEST, body: Vec::new() }
    }

    /// The response with status 200 that carries a digest.
    pub fn ok(digest: &Digest) -> (response: Response)
        ensures
            response@ == ok(digest@),
            response.body@.len() == 32,
    {
        Response { status: STATUS_OK, body: slice_to_vec(digest.as_slice()) }
    }
}

/// How far the handling of one request has come: what it waits for.
pub enum State {
    /// Nothing has arrived yet.
    AwaitingHead,
    /// Method and path were accepted; the body has been asked for.
    AwaitingBody,
    /// The body was accepted as the payload held here; its secret has been
    /// asked for.
    AwaitingSecret { payload: Vec<u8> },
    /// The response was given.
    Finished,
}

/// What the transport or the secret store hands to the handler.
pub enum Event {
    /// The request's method and the path of its URL.
    Head { method: String, path: String },
    /// The request's whole body.
    Body { bytes: Vec<u8> },
    /// How the read of the secret went that was asked for.
    Secret { read: Result<Secret, SecretReadError> },
}

/// What the handler asks for next.
#[derive(Debug, PartialEq, Eq)]
pub enum Action {
    /// Read the request's body and hand it in.
    ReadBody,
    /// Read the secret at this location and hand in how that went.
    ReadSecret { location: SecretLocation },
    /// Send this response; the request is done.
    Respond { response: Response },
}

/// A state as a value.
pub enum StateView {
    AwaitingHead,
    AwaitingBody,
    AwaitingSecret { payload: Seq<u8> },
    Finished,
}

/// An event as a value.
pub enum EventView {
    Head { method: Seq<char>, path: Seq<char> },
    Body { bytes: Seq<u8> },
    Secret { read: Result<Seq<u8>, SecretReadError> },
}

/// An action as a value.
pub enum ActionView {
    ReadBody,
    ReadSecret { location: SecretLocation },
    Respond { response: ResponseView },
}

impl View for State {
    type V = StateView;

    open spec fn view(&self) -> StateView {
        match self {
            State::AwaitingHead => StateView::AwaitingHead,
            State::AwaitingBody => StateView::AwaitingBody,
            State::AwaitingSecret { payload } => StateView::AwaitingSecret { payload: payload@ },
            State::Finished => StateView::Finished,
        }
    }
}

impl View for Event {
    type V = EventView;

    open spec fn view(&self) -> EventView {
        match self {
            Event::Head { method, path } => EventView::Head { method: method@, path: path@ },
            Event::Body { bytes } => EventView::Body { bytes: bytes@ },
            Event::Secret { read } => EventView::Secret { read: read_view(*read) },
        }
    }
}

impl View for Action {
    type V = ActionView;

    open spec fn view(&self) -> ActionView {
        match self {
            Action::ReadBody => ActionView::ReadBody,
            Action::ReadSecret { location } => ActionView::ReadSecret { location: *location },
            Action::Respond { response } => ActionView::Respond { response: response@ },
        }
    }
}

/// One step of a request's handling: the state after an event, and what to do
/// next. There is no step where the state does not wait for the event, none
/// with a payload that is too long to be signed, and none from a state that
/// holds an empty payload, which no step leads to.
pub open spec fn step_of(mode: Mode, state: StateView, event: EventView) -> Option<
    (StateView, ActionView),
> {
    match (state, event) {
        (StateView::AwaitingHead, EventView::Head { method, path }) => {
            if method == "POST"@ && path == "/hmac"@ {
                Some((StateView::AwaitingBody, ActionView::ReadBody))
            } else {
                Some((StateView::Finished, ActionView::Respond { response: bad_request() }))
            }
        },
        (StateView::AwaitingBody, EventView::Body { bytes }) => {
            if bytes.len() == 0 {
                Some((StateView::Finished, ActionView::Respond { response: bad_request() }))
            } else if bytes.len() > MAX_PAYLOAD_LEN {
                None
            } else {
                Some(
                    (
                        StateView::AwaitingSecret { payload: bytes },
                        ActionView::ReadSecret {
                            location: location(mode, murmurhash3_of(bytes)),
                        },
                    ),
                )
            }
        },
        (StateView::AwaitingSecret { payload }, EventView::Secret { read }) => {
            if payload.len() == 0 || payload.len() > MAX_PAYLOAD_LEN {
                None
            } else {
                match signed(payload, read) {
                    Ok(digest) => Some(
                        (StateView::Finished, ActionView::Respond { response: ok(digest) }),
                    ),
                    Err(_) => Some(
                        (StateView::Finished, ActionView::Respond { response: bad_request() }),
                    ),
                }
            }
        },
        _ => None,
    }
}

/// Takes one step in the handling of a request against a validated store:
/// from the state it is in and the event that arrived to the state it is in
/// now and what to do next.
pub fn step(store: &SecretStore, state: State, event: Event) -> (next: Option<(State, Action)>)
    ensures
        match next {
            Some((after, action)) => step_of(store.mode(), state@, event@) == Some(
                (after@, action@),
            ),
            None => step_of(store.mode(), state@, event@) is None,
        },
        next matches Some((_, Action::Respond { response })) ==> (response.status == 200
            ==> response.body@.len() == 32),
{
    match state {
        State::AwaitingHead => match event {
            Event::Head { method, path } => {
                if method == String::from_str("POST") && path == String::from_str("/hmac") {
                    Some((State::AwaitingBody, Action::ReadBody))
                } else {
                    Some((State::Finished, Action::Respond { response: Response::bad_request() }))
                }
            },
            _ => None,
        },
        State::AwaitingBody => match event {
            Event::Body { bytes } => {
                if bytes.len() == 0 {
                    Some((State::Finished, Action::Respond { response: Response::bad_request() }))
                } else if bytes.len() as u64 > MAX_PAYLOAD_LEN {
                    None
                } else {
                    let location = select_secret(store.mode(), bytes.as_slice());
                    Some((State::AwaitingSecret { payload: bytes }, Action::ReadSecret { location }))
                }
            },
            _ => None,
        },
        State::AwaitingSecret { payload } => match event {
            Event::Secret { read } => {
                if payload.len() == 0 || payload.len() as u64 > MAX_PAYLOAD_LEN {
                    None
                } else {
                    match sign(payload.as_slice(), read) {
                        Ok(digest) => Some(
                            (State::Finished, Action::Respond { response: Response::ok(&digest) }),
                        ),
                        Err(_) => Some(
                            (
                                State::Finished,
                                Action::Respond { response: Response::bad_request() },
                            ),
                        ),
                    }
                }
            },
            _ => None,
        },
        State::Finished => None,
    }
}

/// The response that the steps of one request end in, where the body is
/// handed in when it is asked for, and then how the read of the secret went.
/// `None` where the steps do not end in a response.
pub open spec fn served(
    mode: Mode,
    method: Seq<char>,
    path: Seq<char>,
    body: Seq<u8>,
    read: Result<Seq<u8>, SecretReadError>,
) -> Option<ResponseView> {
    match step_of(mode, StateView::AwaitingHead, EventView::Head { method, path }) {
        Some((_, ActionView::Respond { response })) => Some(response),
        Some((after_head, ActionView::ReadBody)) => match step_of(
            mode,
            after_head,
            EventView::Body { bytes: body },
        ) {
            Some((_, ActionView::Respond { response })) => Some(response),
            Some((after_body, ActionView::ReadSecret { location: _ })) => match step_of(
                mode,
                after_body,
                EventView::Secret { read },
            ) {
                Some((_, ActionView::Respond { response })) => Some(response),
                _ => None,
            },
            _ => None,
        },
        _ => None,
    }
}

/// The steps of a request end in its answer, whatever the mode, as long as
/// the body is not too long to be signed.
pub proof fn lemma_steps_give_the_answer(
    mode: Mode,
    method: Seq<char>,
    path: Seq<char>,
    body: Seq<u8>,
    read: Result<Seq<u8>, SecretReadError>,
)
    requires
        body.len() <= MAX_PAYLOAD_LEN,
    ensures
        served(mode, method, path, body, read) == Some(answer(method, path, body, read)),
{
}

/// The secret that is asked for is the one that the body selects: the one at
/// the location of the body's key id under the mode.
pub proof fn lemma_body_selects_the_secret(mode: Mode, body: Seq<u8>)
    requires
        0 < body.len() <= MAX_PAYLOAD_LEN,
    ensures
        step_of(mode, StateView::AwaitingBody, EventView::Body { bytes: body }) == Some(
            (
                StateView::AwaitingSecret { payload: body },
                ActionView::ReadSecret { location: location(mode, murmurhash3_of(body)) },
            ),
        ),
{
}

/// Whatever the state and the event, a step gives a response with status 200
/// only where the state holds a payload that is not empty and the event is
/// the secret that was read for it; the body of the response is then the
/// digest of that payload under that secret. Every other response has status
/// 400 and no body.
pub proof fn lemma_digest_only_for_a_payload(mode: Mode, state: StateView, event: EventView)
    ensures
        match step_of(mode, state, event) {
            Some((after, ActionView::Respond { response })) => {
                &&& after == StateView::Finished
                &&& response.status == 200 ==> {
                    &&& state matches StateView::AwaitingSecret { payload }
                    &&& event matches EventView::Secret { read: Ok(secret) }
                    &&& payload.len() > 0
                    &&& response == ok(hmac_sha256_of(secret, payload))
                }
                &&& response.status != 200 ==> response == bad_request()
            },
            _ => true,
        },
{
}

/// A request with an empty body is answered with status 400 and no body,
/// whatever the mode, its method and its path, and whatever the state of the
/// secret store.
pub proof fn lemma_empty_body_is_refused(
    mode: Mode,
    method: Seq<char>,
    path: Seq<char>,
    read: Result<Seq<u8>, SecretReadError>,
)
    ensures
        served(mode, method, path, Seq::<u8>::empty(), read) == Some(bad_request()),
        answer(method, path, Seq::<u8>::empty(), read) == bad_request(),
{
}

/// A request whose method is not `POST`, or whose path is not `/hmac`, is
/// answered with status 400 and no body, whatever the mode and its body.
pub proof fn lemma_other_requests_are_refused(
    mode: Mode,
    method: Seq<char>,
    path: Seq<char>,
    body: Seq<u8>,
    read: Result<Seq<u8>, SecretReadError>,
)
    requires
        method != "POST"@ || path != "/hmac"@,
    ensures
        served(mode, method, path, body, read) == Some(bad_request()),
        answer(method, path, body, read) == bad_request(),
{
}

/// A request whose secret cannot be read is answered with status 400 and no
/// body, as if the request itself had been wrong.
pub proof fn lemma_failed_read_is_refused(
    mode: Mode,
    method: Seq<char>,
    path: Seq<char>,
    body: Seq<u8>,
    error: SecretReadError,
)
    requires
        body.len() <= MAX_PAYLOAD_LEN,
    ensures
        served(mode, method, path, body, Err(error)) == Some(bad_request()),
        answer(method, path, body, Err(error)) == bad_request(),
{
}

/// An answer has status 200 or 400. It has status 200 exactly for a `POST`
/// to `/hmac` with a body that is not empty and whose secret was read, and
/// then its body is the digest of the request's body under that secret.
pub proof fn lemma_answer_is_digest_or_refusal(
    method: Seq<char>,
    path: Seq<char>,
    body: Seq<u8>,
    read: Result<Seq<u8>, SecretReadError>,
)
    ensures
        answer(method, path, body, read).status == 200 || answer(method, path, body, read)
            == bad_request(),
        answer(method, path, body, read).status == 200 <==> method == "POST"@ && path == "/hmac"@
            && body.len() > 0 && read is Ok,
        answer(method, path, body, read).status == 200 ==> answer(method, path, body, read).body
            == hmac_sha256_of(read->Ok_0, body),
{
}

} // verus!
