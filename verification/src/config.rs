//! The gateway's fixed configuration: the three routes it serves and the
//! values that stand in for what the environment leaves unset.

use crate::route::{absolute_url, Route, RouteTable};
use vstd::prelude::*;
use vstd::string::*;

verus! {

/// The port to listen on where none is configured.
pub const DEFAULT_PORT: u16 = 5000;

/// The backend base URL of a route for which none is configured.
pub fn default_backend() -> (url: String)
    ensures
        url@ == "http://localhost:8080/api"@,
{
    String::from_str("http://localhost:8080/api")
}

/// The three routes in the order in which they are searched, for the base
/// URLs of the menu, order and auth backends.
pub open spec fn standard_routes(menu: Seq<char>, order: Seq<char>, auth: Seq<char>) -> Seq<
    Route,
> {
    seq![
        Route { prefix: "/v1/mewing"@, backend: menu },
        Route { prefix: "/v1/ohio"@, backend: order },
        Route { prefix: "/v1/sigma"@, backend: auth },
    ]
}

/// The table of the three standard routes. There is none where one of the
/// base URLs is not an absolute URL.
pub fn standard_table(menu: String, order: String, auth: String) -> (made: Option<RouteTable>)
    ensures
        made is Some <==> absolute_url(menu@) && absolute_url(order@) && absolute_url(auth@),
        made matches Some(table) ==> table@ == standard_routes(menu@, order@, auth@),
{
    proof {
        reveal_strlit("/v1/mewing");
        reveal_strlit("/v1/ohio");
        reveal_strlit("/v1/sigma");
    }
    let mut table = RouteTable::new();
    if !table.insert(String::from_str("/v1/mewing"), menu) {
        return None;
    }
    if !table.insert(String::from_str("/v1/ohio"), order) {
        return None;
    }
    if !table.insert(String::from_str("/v1/sigma"), auth) {
        return None;
    }
    assert(table@ =~= standard_routes(menu@, order@, auth@));
    Some(table)
}

/// `c` is one of the ten ASCII digits.
pub open spec fn is_digit(c: char) -> bool {
    '0' <= c && c <= '9'
}

/// The number that a digit stands for; 0 for any other character.
pub open spec fn digit_value(c: char) -> nat {
    if is_digit(c) {
        (c as int - '0' as int) as nat
    } else {
        0
    }
}

/// The number that `digits` spell in base ten.
pub open spec fn decimal(digits: Seq<char>) -> nat
    decreases digits.len(),
{
    if digits.len() == 0 {
        0
    } else {
        decimal(digits.drop_last()) * 10 + digit_value(digits.last())
    }
}

/// `text` without the plus sign that may stand at its front.
pub open spec fn unsigned_part(text: Seq<char>) -> Seq<char> {
    if text.len() > 0 && text[0] == '+' {
        text.drop_first()
    } else {
        text
    }
}

/// The port that `text` names: one or more digits, with or without a plus
/// sign before them, that spell a number of at most 65535. Any other text
/// names none.
pub open spec fn port_of(text: Seq<char>) -> Option<u16> {
    let digits = unsigned_part(text);
    if digits.len() > 0 && (forall|i: int| 0 <= i < digits.len() ==> is_digit(digits[i]))
        && decimal(digits) <= 65535 {
        Some(decimal(digits) as u16)
    } else {
        None
    }
}

/// The front of a digit string spells no more than the whole.
proof fn lemma_decimal_grows(digits: Seq<char>, k: int)
    requires
        0 <= k <= digits.len(),
    ensures
        decimal(digits.take(k)) <= decimal(digits),
    decreases digits.len(),
{
    if k == digits.len() {
        assert(digits.take(k) =~= digits);
    } else {
        assert(digits.drop_last().take(k) =~= digits.take(k));
        lemma_decimal_grows(digits.drop_last(), k);
    }
}

/// Reads a port number.
pub fn parse_port(text: &str) -> (port: Option<u16>)
    ensures
        port == port_of(text@),
{
    let n: usize = text.unicode_len();
    let start: usize = if n > 0 && text.get_char(0) == '+' {
        1
    } else {
        0
    };
    let ghost digits = unsigned_part(text@);
    assert(digits =~= text@.subrange(start as int, n as int));
    if start == n {
        return None;
    }
    let mut value: u32 = 0;
    let mut i: usize = start;
    while i < n
        invariant
            start <= i <= n,
            n == text@.len(),
            digits == unsigned_part(text@),
            digits == text@.subrange(start as int, n as int),
            forall|j: int| 0 <= j < i - start ==> is_digit(digits[j]),
            value == decimal(digits.take(i - start)),
            value <= 65535,
        decreases n - i,
    {
        let c: char = text.get_char(i);
        if c < '0' || c > '9' {
            assert(!is_digit(digits[i - start]));
            return None;
        }
        let d: u32 = c as u32 - '0' as u32;
        proof {
            let longer = digits.take(i - start + 1);
            assert(longer.drop_last() =~= digits.take(i - start));
            assert(longer.last() == c);
        }
        value = value * 10 + d;
        if value > 65535 {
            proof {
                lemma_decimal_grows(digits, i - start + 1);
            }
            return None;
        }
        i += 1;
    }
    assert(digits.take(i - start) =~= digits);
    Some(value as u16)
}

} // verus!
