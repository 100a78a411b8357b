//! Operations on character sequences that the routing rules are built from.

use vstd::prelude::*;
use vstd::string::*;

verus! {

/// What is left of `path` once `prefix` is taken from its front; empty where
/// `path` does not begin with `prefix`.
pub open spec fn remainder(path: Seq<char>, prefix: Seq<char>) -> Seq<char> {
    if prefix.is_prefix_of(path) {
        path.skip(prefix.len() as int)
    } else {
        Seq::empty()
    }
}

/// The query as it is appended to a URL: nothing for an empty query, else a
/// question mark and the query unchanged.
pub open spec fn query_suffix(query: Seq<char>) -> Seq<char> {
    if query.len() == 0 {
        Seq::empty()
    } else {
        seq!['?'] + query
    }
}

/// `c` is the letter given in its two ASCII cases.
pub open spec fn is_letter(c: char, lower: char, upper: char) -> bool {
    c == lower || c == upper
}

/// `name` spells `host`, in any mix of ASCII upper and lower case.
pub open spec fn is_host_name(name: Seq<char>) -> bool {
    &&& name.len() == 4
    &&& is_letter(name[0], 'h', 'H')
    &&& is_letter(name[1], 'o', 'O')
    &&& is_letter(name[2], 's', 'S')
    &&& is_letter(name[3], 't', 'T')
}

/// Whether `path` begins with `prefix`, character by character.
pub fn starts_with(path: &str, prefix: &str) -> (found: bool)
    ensures
        found == prefix@.is_prefix_of(path@),
{
    let n: usize = path.unicode_len();
    let m: usize = prefix.unicode_len();
    if m > n {
        return false;
    }
    let mut i: usize = 0;
    while i < m
        invariant
            i <= m <= n,
            n == path@.len(),
            m == prefix@.len(),
            forall|k: int| 0 <= k < i ==> path@[k] == prefix@[k],
        decreases m - i,
    {
        if path.get_char(i) != prefix.get_char(i) {
            proof {
                assert(path@.subrange(0, m as int)[i as int] != prefix@[i as int]);
            }
            return false;
        }
        i += 1;
    }
    proof {
        assert(path@.subrange(0, m as int) =~= prefix@);
    }
    true
}

/// `path` without `prefix` at its front, or the empty string where `path`
/// does not begin with `prefix`.
pub fn strip_prefix(path: &str, prefix: &str) -> (rest: String)
    ensures
        rest@ == remainder(path@, prefix@),
{
    if starts_with(path, prefix) {
        let n: usize = path.unicode_len();
        let m: usize = prefix.unicode_len();
        String::from_str(path.substring_char(m, n))
    } else {
        String::new()
    }
}

/// Whether a header name is `host`, compared without regard to ASCII case.
pub fn names_host(name: &str) -> (found: bool)
    ensures
        found == is_host_name(name@),
{
    if name.unicode_len() != 4 {
        return false;
    }
    let c0: char = name.get_char(0);
    let c1: char = name.get_char(1);
    let c2: char = name.get_char(2);
    let c3: char = name.get_char(3);
    (c0 == 'h' || c0 == 'H') && (c1 == 'o' || c1 == 'O') && (c2 == 's' || c2 == 'S') && (c3
        == 't' || c3 == 'T')
}

} // verus!
