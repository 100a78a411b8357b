//! The handling of one request as a state machine. The caller performs the
//! action that each step answers with and reports what came of it as the
//! next event; the machine itself never waits and never touches the network.

use crate::forward::{build_target_url, forward_headers, forwardable, target_url};
use crate::message::{
    header_views, ForwardedRequest, ForwardedRequestView, Header, HeaderView, RelayedResponse,
    RelayedResponseView,
};
use crate::route::{first_match, Route, RouteTable};
use vstd::prelude::*;
use vstd::string::*;
use vstd::utf8::encode_utf8;

verus! {

/// The status of the answer to a path that no route serves.
pub const NOT_FOUND: u16 = 404;

/// The status of the answer when the backend could not be reached.
pub const BAD_GATEWAY: u16 = 502;

/// The text of the answer to a path that no route serves.
pub open spec fn no_route_text() -> Seq<char> {
    "No matching route"@
}

/// The text of the answer when the backend could not be reached, for the
/// transport's own description `reason`.
pub open spec fn proxy_error_text(reason: Seq<char>) -> Seq<char> {
    "Proxy error: "@ + reason
}

/// The answer to a path that no route serves.
pub open spec fn not_found_view() -> RelayedResponseView {
    RelayedResponseView {
        status: NOT_FOUND,
        headers: Seq::empty(),
        body: encode_utf8(no_route_text()),
    }
}

/// The answer when the backend could not be reached.
pub open spec fn bad_gateway_view(reason: Seq<char>) -> RelayedResponseView {
    RelayedResponseView {
        status: BAD_GATEWAY,
        headers: Seq::empty(),
        body: encode_utf8(proxy_error_text(reason)),
    }
}

/// Where the handling of a request stands.
#[derive(Debug, PartialEq, Eq)]
pub enum Phase {
    /// Nothing has arrived yet.
    AwaitingRequest,
    /// A route was found; the inbound body is being read.
    AwaitingBody { method: String, target_url: String, headers: Vec<Header> },
    /// The outbound request was handed over; the backend has not answered.
    AwaitingBackend,
    /// The backend's status and headers are in; its body is being read.
    AwaitingBackendBody { status: u16, headers: Vec<Header> },
    /// The request is done with.
    Finished,
}

/// What the caller reports to the machine.
#[derive(Debug, PartialEq, Eq)]
pub enum Event {
    /// The inbound request line and headers. `query` is empty where the
    /// request has none.
    Request { method: String, path: String, query: String, headers: Vec<Header> },
    /// The whole inbound body.
    Body(Vec<u8>),
    /// The inbound body could not be read to its end.
    BodyFailed,
    /// The backend's status and headers.
    BackendHead { status: u16, headers: Vec<Header> },
    /// The outbound request failed in transport, with the failure's
    /// description.
    TransportFailed(String),
    /// The whole body of the backend's response.
    BackendBody(Vec<u8>),
    /// The backend's body could not be read to its end.
    BackendBodyFailed,
}

/// What the caller is to do next.
#[derive(Debug, PartialEq, Eq)]
pub enum Action {
    /// Read the inbound body to its end and report it.
    ReadBody,
    /// Send this request to its target and report the response's status and
    /// headers, or the transport's failure.
    Send(ForwardedRequest),
    /// Read the backend's body to its end and report it.
    ReadBackendBody,
    /// Answer the caller with this response.
    Reply(RelayedResponse),
    /// Give the request up to the serving layer's own error handling.
    Abort,
}

/// A phase as a mathematical value.
pub enum PhaseView {
    AwaitingRequest,
    AwaitingBody { method: Seq<char>, target_url: Seq<char>, headers: Seq<HeaderView> },
    AwaitingBackend,
    AwaitingBackendBody { status: u16, headers: Seq<HeaderView> },
    Finished,
}

/// An event as a mathematical value.
pub enum EventView {
    Request { method: Seq<char>, path: Seq<char>, query: Seq<char>, headers: Seq<HeaderView> },
    Body(Seq<u8>),
    BodyFailed,
    BackendHead { status: u16, headers: Seq<HeaderView> },
    TransportFailed(Seq<char>),
    BackendBody(Seq<u8>),
    BackendBodyFailed,
}

/// An action as a mathematical value.
pub enum ActionView {
    ReadBody,
    Send(ForwardedRequestView),
    ReadBackendBody,
    Reply(RelayedResponseView),
    Abort,
}

impl View for Phase {
    type V = PhaseView;

    open spec fn view(&self) -> PhaseView {
        match self {
            Phase::AwaitingRequest => PhaseView::AwaitingRequest,
            Phase::AwaitingBody { method, target_url, headers } => PhaseView::AwaitingBody {
                method: method@,
                target_url: target_url@,
                headers: header_views(headers@),
            },
            Phase::AwaitingBackend => PhaseView::AwaitingBackend,
            Phase::AwaitingBackendBody { status, headers } => PhaseView::AwaitingBackendBody {
                status: *status,
                headers: header_views(headers@),
            },
            Phase::Finished => PhaseView::Finished,
        }
    }
}

impl View for Event {
    type V = EventView;

    open spec fn view(&self) -> EventView {
        match self {
            Event::Request { method, path, query, headers } => EventView::Request {
                method: method@,
                path: path@,
                query: query@,
                headers: header_views(headers@),
            },
            Event::Body(body) => EventView::Body(body@),
            Event::BodyFailed => EventView::BodyFailed,
            Event::BackendHead { status, headers } => EventView::BackendHead {
                status: *status,
                headers: header_views(headers@),
            },
            Event::TransportFailed(reason) => EventView::TransportFailed(reason@),
            Event::BackendBody(body) => EventView::BackendBody(body@),
            Event::BackendBodyFailed => EventView::BackendBodyFailed,
        }
    }
}

impl View for Action {
    type V = ActionView;

    open spec fn view(&self) -> ActionView {
        match self {
            Action::ReadBody => ActionView::ReadBody,
            Action::Send(request) => ActionView::Send(request@),
            Action::ReadBackendBody => ActionView::ReadBackendBody,
            Action::Reply(response) => ActionView::Reply(response@),
            Action::Abort => ActionView::Abort,
        }
    }
}

/// The machine's rule: the phase that follows `phase` on `event` under
/// `routes`, and the action to take.
///
/// A request is matched against the routes front to back. Without a match it
/// is answered with 404 at once. With one, the body is read, the request is
/// sent on with response decompression off, and the backend's status,
/// headers and body come back as they are; a transport failure is answered
/// with 502. An event that the phase does not
/// wait for, a failed body read among them, gives the request up.
pub open spec fn next(routes: Seq<Route>, phase: PhaseView, event: EventView) -> (
    PhaseView,
    ActionView,
) {
    match (phase, event) {
        (PhaseView::AwaitingRequest, EventView::Request { method, path, query, headers }) => {
            match first_match(routes, path) {
                Some(i) => (
                    PhaseView::AwaitingBody {
                        method,
                        target_url: target_url(routes[i], path, query),
                        headers: forwardable(headers),
                    },
                    ActionView::ReadBody,
                ),
                None => (PhaseView::Finished, ActionView::Reply(not_found_view())),
            }
        },
        (PhaseView::AwaitingBody { method, target_url, headers }, EventView::Body(body)) => (
            PhaseView::AwaitingBackend,
            ActionView::Send(
                ForwardedRequestView { method, target_url, headers, body, decompress: false },
            ),
        ),
        (PhaseView::AwaitingBackend, EventView::BackendHead { status, headers }) => (
            PhaseView::AwaitingBackendBody { status, headers },
            ActionView::ReadBackendBody,
        ),
        (PhaseView::AwaitingBackend, EventView::TransportFailed(reason)) => (
            PhaseView::Finished,
            ActionView::Reply(bad_gateway_view(reason)),
        ),
        (PhaseView::AwaitingBackendBody { status, headers }, EventView::BackendBody(body)) => (
            PhaseView::Finished,
            ActionView::Reply(RelayedResponseView { status, headers, body }),
        ),
        _ => (PhaseView::Finished, ActionView::Abort),
    }
}

/// The answer to a path that no route serves: 404, no headers, a plain text.
pub fn not_found() -> (response: RelayedResponse)
    ensures
        response@ == not_found_view(),
{
    let response = RelayedResponse {
        status: NOT_FOUND,
        headers: Vec::new(),
        body: "No matching route".as_bytes_vec(),
    };
    assert(header_views(response.headers@) =~= Seq::<HeaderView>::empty());
    response
}

/// The answer when the backend could not be reached: 502, no headers, and a
/// text that names the proxy error and gives `reason`.
pub fn bad_gateway(reason: &str) -> (response: RelayedResponse)
    ensures
        response@ == bad_gateway_view(reason@),
{
    let mut text = String::from_str("Proxy error: ");
    text.append(reason);
    let response = RelayedResponse {
        status: BAD_GATEWAY,
        headers: Vec::new(),
        body: text.as_str().as_bytes_vec(),
    };
    assert(header_views(response.headers@) =~= Seq::<HeaderView>::empty());
    response
}

/// Takes one step of the machine.
pub fn step(table: &RouteTable, phase: Phase, event: Event) -> (out: (Phase, Action))
    ensures
        (out.0@, out.1@) == next(table@, phase@, event@),
{
    match (phase, event) {
        (Phase::AwaitingRequest, Event::Request { method, path, query, headers }) => {
            match table.resolve(path.as_str()) {
                Some(entry) => {
                    let target_url = build_target_url(entry, path.as_str(), query.as_str());
                    let headers = forward_headers(&headers);
                    (Phase::AwaitingBody { method, target_url, headers }, Action::ReadBody)
                },
                None => (Phase::Finished, Action::Reply(not_found())),
            }
        },
        (Phase::AwaitingBody { method, target_url, headers }, Event::Body(body)) => (
            Phase::AwaitingBackend,
            Action::Send(
                ForwardedRequest { method, target_url, headers, body, decompress: false },
            ),
        ),
        (Phase::AwaitingBackend, Event::BackendHead { status, headers }) => (
            Phase::AwaitingBackendBody { status, headers },
            Action::ReadBackendBody,
        ),
        (Phase::AwaitingBackend, Event::TransportFailed(reason)) => (
            Phase::Finished,
            Action::Reply(bad_gateway(reason.as_str())),
        ),
        (Phase::AwaitingBackendBody { status, headers }, Event::BackendBody(body)) => (
            Phase::Finished,
            Action::Reply(RelayedResponse { status, headers, body }),
        ),
        _ => (Phase::Finished, Action::Abort),
    }
}

} // verus!
