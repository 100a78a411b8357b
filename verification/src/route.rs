//! The route table: an ordered list of path prefixes, each with the backend
//! that serves it, searched front to back.

use crate::text::starts_with;
use vstd::prelude::*;
use vstd::string::*;

verus! {

/// A route as a mathematical value.
pub struct Route {
    pub prefix: Seq<char>,
    pub backend: Seq<char>,
}

/// A prefix is not empty and begins with a slash.
pub open spec fn valid_prefix(prefix: Seq<char>) -> bool {
    prefix.len() > 0 && prefix[0] == '/'
}

/// `url` has a scheme of `k` characters, then `://`, then a host.
pub open spec fn scheme_ends_at(url: Seq<char>, k: int) -> bool {
    &&& 0 < k
    &&& k + 3 < url.len()
    &&& forall|j: int| 0 <= j < k ==> url[j] != ':' && url[j] != '/'
    &&& url[k] == ':'
    &&& url[k + 1] == '/'
    &&& url[k + 2] == '/'
    &&& url[k + 3] != '/'
}

/// An absolute URL: a non-empty scheme without colon or slash, `://`, and a
/// host that is not empty. Whatever follows the host's first character is
/// left alone.
pub open spec fn absolute_url(url: Seq<char>) -> bool {
    exists|k: int| scheme_ends_at(url, k)
}

/// What every route of a table satisfies.
pub open spec fn well_formed(route: Route) -> bool {
    valid_prefix(route.prefix) && absolute_url(route.backend)
}

/// `route` applies to `path`: its prefix is a literal, case-sensitive prefix
/// of the path.
pub open spec fn applies(route: Route, path: Seq<char>) -> bool {
    route.prefix.is_prefix_of(path)
}

/// `i` is the position of the first route that applies to `path`.
pub open spec fn is_first_match(routes: Seq<Route>, path: Seq<char>, i: int) -> bool {
    &&& 0 <= i < routes.len()
    &&& applies(routes[i], path)
    &&& forall|j: int| 0 <= j < i ==> !applies(#[trigger] routes[j], path)
}

/// The position of the first route that applies to `path`, if any does.
pub open spec fn first_match(routes: Seq<Route>, path: Seq<char>) -> Option<int> {
    if exists|i: int| is_first_match(routes, path, i) {
        Some(choose|i: int| is_first_match(routes, path, i))
    } else {
        None
    }
}

/// At most one position is the first match.
pub proof fn lemma_first_match_unique(routes: Seq<Route>, path: Seq<char>, i: int, j: int)
    requires
        is_first_match(routes, path, i),
        is_first_match(routes, path, j),
    ensures
        i == j,
{
    if i < j {
        assert(!applies(routes[i], path));
    } else if j < i {
        assert(!applies(routes[j], path));
    }
}

/// A position that is the first match is what `first_match` yields.
pub proof fn lemma_first_match_is(routes: Seq<Route>, path: Seq<char>, i: int)
    requires
        is_first_match(routes, path, i),
    ensures
        first_match(routes, path) == Some(i),
{
    let k = choose|k: int| is_first_match(routes, path, k);
    lemma_first_match_unique(routes, path, i, k);
}

/// Where no route applies, `first_match` yields nothing, and conversely.
pub proof fn lemma_first_match_none(routes: Seq<Route>, path: Seq<char>)
    ensures
        first_match(routes, path) is None <==> forall|i: int|
            0 <= i < routes.len() ==> !applies(#[trigger] routes[i], path),
{
    if exists|i: int| 0 <= i < routes.len() && applies(#[trigger] routes[i], path) {
        let i = choose|i: int| 0 <= i < routes.len() && applies(#[trigger] routes[i], path);
        lemma_some_applies(routes, path, i);
    }
}

/// Where some route applies, one of them is the first.
proof fn lemma_some_applies(routes: Seq<Route>, path: Seq<char>, i: int)
    requires
        0 <= i < routes.len(),
        applies(routes[i], path),
    ensures
        exists|k: int| 0 <= k <= i && is_first_match(routes, path, k),
    decreases i,
{
    if exists|j: int| 0 <= j < i && applies(#[trigger] routes[j], path) {
        let j = choose|j: int| 0 <= j < i && applies(#[trigger] routes[j], path);
        lemma_some_applies(routes, path, j);
    } else {
        assert(is_first_match(routes, path, i));
    }
}

/// Whether `url` is an absolute URL.
pub fn is_absolute_url(url: &str) -> (ok: bool)
    ensures
        ok == absolute_url(url@),
{
    let n: usize = url.unicode_len();
    let mut i: usize = 0;
    while i < n && url.get_char(i) != ':' && url.get_char(i) != '/'
        invariant
            i <= n,
            n == url@.len(),
            forall|j: int| 0 <= j < i ==> url@[j] != ':' && url@[j] != '/',
        decreases n - i,
    {
        i += 1;
    }
    // A scheme can only end where the scan stopped.
    assert(forall|k: int| scheme_ends_at(url@, k) ==> k == i);
    if i == 0 || n < 4 || i >= n - 3 {
        return false;
    }
    let ok = url.get_char(i) == ':' && url.get_char(i + 1) == '/' && url.get_char(i + 2) == '/'
        && url.get_char(i + 3) != '/';
    proof {
        if ok {
            assert(scheme_ends_at(url@, i as int));
        }
    }
    ok
}

/// Whether `prefix` can stand in a route.
pub fn is_valid_prefix(prefix: &str) -> (ok: bool)
    ensures
        ok == valid_prefix(prefix@),
{
    prefix.unicode_len() > 0 && prefix.get_char(0) == '/'
}

/// A path prefix and the base URL of the backend that serves it.
#[derive(Debug)]
pub struct RouteEntry {
    prefix: String,
    backend: String,
}

impl View for RouteEntry {
    type V = Route;

    closed spec fn view(&self) -> Route {
        Route { prefix: self.prefix@, backend: self.backend@ }
    }
}

impl RouteEntry {
    #[verifier::type_invariant]
    closed spec fn inv(self) -> bool {
        well_formed(self@)
    }

    /// The entry for `prefix` and `backend`, where the two make a
    /// well-formed route; nothing otherwise.
    pub fn new(prefix: String, backend: String) -> (made: Option<RouteEntry>)
        ensures
            made is Some <==> well_formed(Route { prefix: prefix@, backend: backend@ }),
            made matches Some(e) ==> e@ == (Route { prefix: prefix@, backend: backend@ }),
    {
        if is_valid_prefix(prefix.as_str()) && is_absolute_url(backend.as_str()) {
            Some(RouteEntry { prefix, backend })
        } else {
            None
        }
    }

    /// The path prefix.
    pub fn prefix(&self) -> (p: &str)
        ensures
            p@ == self@.prefix,
            well_formed(self@),
    {
        proof {
            use_type_invariant(self);
        }
        self.prefix.as_str()
    }

    /// The backend's base URL.
    pub fn backend(&self) -> (b: &str)
        ensures
            b@ == self@.backend,
            well_formed(self@),
    {
        proof {
            use_type_invariant(self);
        }
        self.backend.as_str()
    }
}

/// The routes in the order in which they were added.
#[derive(Debug)]
pub struct RouteTable {
    entries: Vec<RouteEntry>,
}

impl View for RouteTable {
    type V = Seq<Route>;

    closed spec fn view(&self) -> Seq<Route> {
        Seq::new(self.entries@.len(), |i: int| self.entries@[i]@)
    }
}

impl RouteTable {
    /// A table without routes.
    pub fn new() -> (table: RouteTable)
        ensures
            table@ == Seq::<Route>::empty(),
    {
        let table = RouteTable { entries: Vec::new() };
        assert(table@ =~= Seq::<Route>::empty());
        table
    }

    /// Adds a route behind those already there. An ill-formed route is not
    /// added, and the answer is `false`.
    pub fn insert(&mut self, prefix: String, backend: String) -> (added: bool)
        ensures
            added == well_formed(Route { prefix: prefix@, backend: backend@ }),
            added ==> final(self)@ == old(self)@.push(
                Route { prefix: prefix@, backend: backend@ },
            ),
            !added ==> final(self)@ == old(self)@,
    {
        match RouteEntry::new(prefix, backend) {
            Some(entry) => {
                self.entries.push(entry);
                assert(self@ =~= old(self)@.push(entry@));
                true
            },
            None => false,
        }
    }

    /// The number of routes.
    pub fn len(&self) -> (n: usize)
        ensures
            n == self@.len(),
    {
        self.entries.len()
    }

    /// The route at position `i`.
    pub fn get(&self, i: usize) -> (entry: Option<&RouteEntry>)
        ensures
            entry is Some <==> i < self@.len(),
            entry matches Some(e) ==> e@ == self@[i as int] && well_formed(e@),
    {
        if i < self.entries.len() {
            let e = &self.entries[i];
            proof {
                use_type_invariant(e);
            }
            Some(e)
        } else {
            None
        }
    }

    /// The position of the first route whose prefix `path` begins with.
    pub fn position(&self, path: &str) -> (found: Option<usize>)
        ensures
            match found {
                Some(i) => first_match(self@, path@) == Some(i as int) && is_first_match(
                    self@,
                    path@,
                    i as int,
                ),
                None => first_match(self@, path@) is None && forall|i: int|
                    0 <= i < self@.len() ==> !applies(#[trigger] self@[i], path@),
            },
    {
        let mut i: usize = 0;
        while i < self.entries.len()
            invariant
                i <= self.entries@.len(),
                self@.len() == self.entries@.len(),
                forall|j: int| 0 <= j < i ==> !applies(#[trigger] self@[j], path@),
            decreases self.entries@.len() - i,
        {
            if starts_with(path, self.entries[i].prefix.as_str()) {
                proof {
                    assert(self@[i as int] == self.entries@[i as int]@);
                    assert(is_first_match(self@, path@, i as int));
                    lemma_first_match_is(self@, path@, i as int);
                }
                return Some(i);
            }
            assert(self@[i as int] == self.entries@[i as int]@);
            i += 1;
        }
        proof {
            lemma_first_match_none(self@, path@);
        }
        None
    }

    /// The first route, in the order of insertion, whose prefix `path`
    /// begins with; nothing where no prefix fits.
    pub fn resolve(&self, path: &str) -> (found: Option<&RouteEntry>)
        ensures
            match found {
                Some(e) => first_match(self@, path@) is Some && e@ == self@[first_match(
                    self@,
                    path@,
                ).unwrap()] && well_formed(e@),
                None => first_match(self@, path@) is None,
            },
    {
        match self.position(path) {
            Some(i) => {
                let e = &self.entries[i];
                proof {
                    use_type_invariant(e);
                }
                Some(e)
            },
            None => None,
        }
    }
}

} // verus!
