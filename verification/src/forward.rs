//! How an inbound request is rewritten for its backend: the target URL and
//! the headers that go along.

use crate::message::{copy_header, header_views, Header, HeaderView};
use crate::route::{Route, RouteEntry};
use crate::text::{is_host_name, names_host, query_suffix, remainder, strip_prefix};
use vstd::prelude::*;
use vstd::string::*;

verus! {

/// The URL that a request for `path` with `query` is sent to under `route`:
/// the backend's base URL, the path without the route's prefix, and the
/// query behind a question mark where it is not empty, joined as they are.
pub open spec fn target_url(route: Route, path: Seq<char>, query: Seq<char>) -> Seq<char> {
    route.backend + remainder(path, route.prefix) + query_suffix(query)
}

/// The test that a header passes to be forwarded: its name is not `host`.
pub open spec fn is_forwarded() -> spec_fn(HeaderView) -> bool {
    |h: HeaderView| !is_host_name(h.name)
}

/// The headers that go out: those of `headers` that are not `Host`, each as
/// it came and in the order in which they came.
pub open spec fn forwardable(headers: Seq<HeaderView>) -> Seq<HeaderView> {
    headers.filter(is_forwarded())
}

/// Builds the target URL for `path` and `query` under `entry`.
pub fn build_target_url(entry: &RouteEntry, path: &str, query: &str) -> (url: String)
    ensures
        url@ == target_url(entry@, path@, query@),
{
    let rest = strip_prefix(path, entry.prefix());
    let mut url = String::from_str(entry.backend());
    url.append(rest.as_str());
    if !query.is_empty() {
        proof {
            reveal_strlit("?");
            assert("?"@ =~= seq!['?']);
        }
        url.append("?");
        url.append(query);
        assert(url@ =~= target_url(entry@, path@, query@));
    } else {
        assert(url@ =~= target_url(entry@, path@, query@));
    }
    url
}

/// Copies every header but `Host` (in any case), keeping order and
/// repetitions.
pub fn forward_headers(headers: &Vec<Header>) -> (out: Vec<Header>)
    ensures
        header_views(out@) == forwardable(header_views(headers@)),
{
    let mut out: Vec<Header> = Vec::new();
    let mut i: usize = 0;
    proof {
        reveal(Seq::filter);
        assert(header_views(headers@.take(0)) =~= Seq::<HeaderView>::empty());
        assert(header_views(out@) =~= forwardable(header_views(headers@.take(0))));
    }
    while i < headers.len()
        invariant
            i <= headers@.len(),
            header_views(out@) == forwardable(header_views(headers@.take(i as int))),
        decreases headers@.len() - i,
    {
        let ghost before = header_views(headers@.take(i as int));
        let ghost kept = out@;
        let h = &headers[i];
        proof {
            assert(header_views(headers@.take(i + 1)) =~= before.push(h@));
            before.lemma_filter_push(h@, is_forwarded());
        }
        if !names_host(h.name.as_str()) {
            let copy = copy_header(h);
            out.push(copy);
            assert(header_views(out@) =~= header_views(kept).push(h@));
        }
        i += 1;
    }
    assert(headers@.take(i as int) =~= headers@);
    out
}

} // verus!
