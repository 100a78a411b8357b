//! What holds of the gateway on every input, proved from the definitions
//! that the functions' contracts are stated with.

use crate::forward::{forwardable, is_forwarded, target_url};
use crate::gateway::{
    bad_gateway_view, next, not_found_view, ActionView, EventView, PhaseView,
};
use crate::message::{ForwardedRequestView, HeaderView, RelayedResponseView};
use crate::route::{
    applies, first_match, is_first_match, lemma_first_match_is, lemma_first_match_none, Route,
};
use crate::text::{is_host_name, query_suffix, remainder};
use vstd::prelude::*;
use vstd::utf8::encode_utf8;

verus! {

/// A request whose path begins with the prefix of route `i`, and with the
/// prefix of no route before it, is sent to that route's backend: once its
/// body is in, the machine asks for one outbound request, with the method
/// and the body as they came, to the backend's base URL followed by the path
/// without the prefix and by the query.
pub proof fn lemma_matched_request_is_forwarded(
    routes: Seq<Route>,
    i: int,
    method: Seq<char>,
    path: Seq<char>,
    query: Seq<char>,
    headers: Seq<HeaderView>,
    body: Seq<u8>,
)
    requires
        is_first_match(routes, path, i),
    ensures
        ({
            let first = next(
                routes,
                PhaseView::AwaitingRequest,
                EventView::Request { method, path, query, headers },
            );
            let second = next(routes, first.0, EventView::Body(body));
            &&& first.1 == ActionView::ReadBody
            &&& second.0 == PhaseView::AwaitingBackend
            &&& second.1 == ActionView::Send(
                ForwardedRequestView {
                    method,
                    target_url: routes[i].backend + path.skip(routes[i].prefix.len() as int)
                        + query_suffix(query),
                    headers: forwardable(headers),
                    body,
                    decompress: false,
                },
            )
        }),
{
    lemma_first_match_is(routes, path, i);
}

/// A request whose path begins with no route's prefix is answered with 404
/// at once, and the machine is finished.
pub proof fn lemma_unmatched_request_is_refused(
    routes: Seq<Route>,
    method: Seq<char>,
    path: Seq<char>,
    query: Seq<char>,
    headers: Seq<HeaderView>,
)
    requires
        forall|i: int| 0 <= i < routes.len() ==> !applies(#[trigger] routes[i], path),
    ensures
        next(
            routes,
            PhaseView::AwaitingRequest,
            EventView::Request { method, path, query, headers },
        ) == (PhaseView::Finished, ActionView::Reply(not_found_view())),
        not_found_view().status == 404,
{
    lemma_first_match_none(routes, path);
}

/// An outbound request is asked for only when the body of a request arrives
/// for which a route was found: no other phase and no other event leads to
/// one. No step leads back to the phase in which a request is awaited, so a
/// run asks for at most one; and a finished machine stays finished.
pub proof fn lemma_send_needs_a_route(routes: Seq<Route>, phase: PhaseView, event: EventView)
    ensures
        next(routes, phase, event).1 is Send ==> phase is AwaitingBody && event is Body,
        next(routes, phase, event).0 is AwaitingBody ==> phase is AwaitingRequest && (
        event matches EventView::Request { path, .. } && first_match(routes, path) is Some),
        next(routes, phase, event).1 is Send ==> next(routes, phase, event).0 is AwaitingBackend,
        !(next(routes, phase, event).0 is AwaitingRequest),
        phase is Finished ==> next(routes, phase, event) == (
            PhaseView::Finished,
            ActionView::Abort,
        ),
{
}

/// For a path that is a route's prefix and nothing more, nothing is left of
/// the path: the target is the backend's base URL, followed by the query
/// behind a question mark where there is one.
pub proof fn lemma_exact_prefix_targets_base(route: Route, query: Seq<char>)
    ensures
        remainder(route.prefix, route.prefix) == Seq::<char>::empty(),
        target_url(route, route.prefix, query) == route.backend + query_suffix(query),
        query.len() == 0 ==> target_url(route, route.prefix, query) == route.backend,
{
    assert(route.prefix.is_prefix_of(route.prefix));
    assert(remainder(route.prefix, route.prefix) =~= Seq::<char>::empty());
    assert(target_url(route, route.prefix, query) =~= route.backend + query_suffix(query));
    if query.len() == 0 {
        assert(route.backend + query_suffix(query) =~= route.backend);
    }
}

/// No header that goes out is named `Host`, in whatever case.
pub proof fn lemma_host_is_dropped(headers: Seq<HeaderView>, i: int)
    requires
        0 <= i < forwardable(headers).len(),
    ensures
        !is_host_name(forwardable(headers)[i].name),
{
    headers.lemma_filter_pred(is_forwarded(), i);
}

/// Every header that is not named `Host` goes out as it came.
pub proof fn lemma_other_headers_are_kept(headers: Seq<HeaderView>, i: int)
    requires
        0 <= i < headers.len(),
        !is_host_name(headers[i].name),
    ensures
        forwardable(headers).contains(headers[i]),
{
    headers.lemma_filter_contains(is_forwarded(), i);
}

/// Headers go out in the order in which they came, each as often as it came:
/// what goes out of two lists joined is what goes out of the first, then
/// what goes out of the second; a single header that is not `Host` goes out
/// alone, and a `Host` header gives nothing.
pub proof fn lemma_forwarding_keeps_order(
    first: Seq<HeaderView>,
    second: Seq<HeaderView>,
    header: HeaderView,
)
    ensures
        forwardable(first + second) == forwardable(first) + forwardable(second),
        forwardable(seq![header]) == if is_host_name(header.name) {
            Seq::<HeaderView>::empty()
        } else {
            seq![header]
        },
{
    Seq::filter_distributes_over_add(first, second, is_forwarded());
    let none = Seq::<HeaderView>::empty();
    assert(seq![header] =~= none.push(header));
    none.lemma_filter_push(header, is_forwarded());
    reveal(Seq::filter);
    assert(none.filter(is_forwarded()) =~= none);
    assert(none.push(header) =~= seq![header]);
}

/// Where no header is named `Host`, the headers that go out are the headers
/// that came.
pub proof fn lemma_headers_without_host_pass(headers: Seq<HeaderView>)
    requires
        forall|i: int| 0 <= i < headers.len() ==> !is_host_name(#[trigger] headers[i].name),
    ensures
        forwardable(headers) == headers,
    decreases headers.len(),
{
    if headers.len() == 0 {
        reveal(Seq::filter);
        assert(forwardable(headers) =~= headers);
    } else {
        let front = headers.drop_last();
        lemma_headers_without_host_pass(front);
        front.lemma_filter_push(headers.last(), is_forwarded());
        assert(front.push(headers.last()) =~= headers);
    }
}

/// The backend's status, headers and body reach the caller as the backend
/// sent them: after the two steps that take them in, the machine answers
/// with exactly these and is finished.
pub proof fn lemma_response_is_relayed(
    routes: Seq<Route>,
    status: u16,
    headers: Seq<HeaderView>,
    body: Seq<u8>,
)
    ensures
        ({
            let first = next(
                routes,
                PhaseView::AwaitingBackend,
                EventView::BackendHead { status, headers },
            );
            let second = next(routes, first.0, EventView::BackendBody(body));
            &&& first.1 == ActionView::ReadBackendBody
            &&& second == (
                PhaseView::Finished,
                ActionView::Reply(RelayedResponseView { status, headers, body }),
            )
        }),
{
}

/// Of two routes that both apply to a path, the later one is never chosen:
/// the route that is chosen stands at or before the earlier of the two.
pub proof fn lemma_earlier_route_wins(routes: Seq<Route>, path: Seq<char>, i: int, j: int)
    requires
        0 <= i < j < routes.len(),
        applies(routes[i], path),
        applies(routes[j], path),
    ensures
        (first_match(routes, path) matches Some(k) && 0 <= k <= i && applies(routes[k], path)),
        first_match(routes, path) != Some(j),
{
    lemma_first_match_none(routes, path);
    let k = first_match(routes, path).unwrap();
    assert(is_first_match(routes, path, k));
    if k > i {
        assert(!applies(routes[i], path));
    }
}

/// A route added behind the others changes nothing for a path that one of
/// them serves; it serves the paths that begin with its prefix and that none
/// of them serves.
pub proof fn lemma_added_route_comes_last(routes: Seq<Route>, route: Route, path: Seq<char>)
    ensures
        first_match(routes.push(route), path) == match first_match(routes, path) {
            Some(i) => Some(i),
            None => if applies(route, path) {
                Some(routes.len() as int)
            } else {
                None
            },
        },
{
    let longer = routes.push(route);
    lemma_first_match_none(routes, path);
    lemma_first_match_none(longer, path);
    assert forall|j: int| 0 <= j < routes.len() implies #[trigger] longer[j] == routes[j] by {}
    match first_match(routes, path) {
        Some(i) => {
            assert(is_first_match(routes, path, i));
            assert(is_first_match(longer, path, i));
            lemma_first_match_is(longer, path, i);
        },
        None => {
            if applies(route, path) {
                assert(is_first_match(longer, path, routes.len() as int));
                lemma_first_match_is(longer, path, routes.len() as int);
            } else {
                assert forall|j: int| 0 <= j < longer.len() implies !applies(
                    #[trigger] longer[j],
                    path,
                ) by {
                    if j < routes.len() {
                        assert(longer[j] == routes[j]);
                    }
                }
            }
        },
    }
}

/// A failure of the outbound transport is answered with 502 and a text that
/// begins with the proxy-error mark and ends with the failure's description;
/// nothing of a backend response is in it, and the machine is finished.
pub proof fn lemma_transport_failure_is_bad_gateway(routes: Seq<Route>, reason: Seq<char>)
    ensures
        next(routes, PhaseView::AwaitingBackend, EventView::TransportFailed(reason)) == (
            PhaseView::Finished,
            ActionView::Reply(bad_gateway_view(reason)),
        ),
        bad_gateway_view(reason).status == 502,
        bad_gateway_view(reason).headers.len() == 0,
        bad_gateway_view(reason).body == encode_utf8("Proxy error: "@ + reason),
{
}

/// A body that cannot be read to its end, inbound or from the backend, gives
/// the request up without an answer of the gateway's own.
pub proof fn lemma_failed_read_aborts(routes: Seq<Route>, phase: PhaseView)
    ensures
        next(routes, phase, EventView::BodyFailed) == (PhaseView::Finished, ActionView::Abort),
        next(routes, phase, EventView::BackendBodyFailed) == (
            PhaseView::Finished,
            ActionView::Abort,
        ),
{
}

} // verus!
