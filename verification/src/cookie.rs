//! The session cookie in a `Cookie` header.

use crate::text::{find_from, find_from_bounds, position_from, text_of};
use vstd::prelude::*;

verus! {

/// The cookie value that a header carries: the text between its first `=`
/// and its second, or the end where there is no second. A header without
/// `=` carries none.
pub open spec fn cookie_value(header: Seq<char>) -> Option<Seq<char>> {
    let first = find_from(header, '=', 0);
    if first >= header.len() {
        None
    } else {
        Some(header.subrange(first + 1, find_from(header, '=', first + 1)))
    }
}

/// The cookie value that `header` carries.
pub fn session_cookie(header: &str) -> (value: Option<String>)
    ensures
        text_of(value) == cookie_value(header@),
{
    let n: usize = header.unicode_len();
    let first: usize = position_from(header, '=', 0);
    if first >= n {
        return None;
    }
    let second: usize = position_from(header, '=', first + 1);
    Some(header.substring_char(first + 1, second).to_owned())
}

/// A cookie value holds no `=`.
pub proof fn cookie_value_has_no_separator(header: Seq<char>)
    requires
        cookie_value(header) is Some,
    ensures
        forall|i: int|
            0 <= i < cookie_value(header)->Some_0.len() ==> (#[trigger] cookie_value(
                header,
            )->Some_0[i]) != '=',
{
    let first = find_from(header, '=', 0);
    find_from_bounds(header, '=', 0);
    find_from_bounds(header, '=', first + 1);
}

/// A header made of a name, `=` and a value carries that value, provided
/// neither holds a `=` of its own.
pub proof fn cookie_round_trip(name: Seq<char>, value: Seq<char>)
    requires
        !name.contains('='),
        !value.contains('='),
    ensures
        cookie_value(name + seq!['='] + value) == Some(value),
{
    let header = name + seq!['='] + value;
    find_from_bounds(header, '=', 0);
    let first = find_from(header, '=', 0);
    assert(header[name.len() as int] == '=');
    assert(first == name.len()) by {
        if first < name.len() {
            assert(name[first] == '=');
            assert(name.contains('='));
        }
    }
    find_from_bounds(header, '=', first + 1);
    let second = find_from(header, '=', first + 1);
    assert(second == header.len()) by {
        if second < header.len() {
            assert(value[second - first - 1] == '=');
            assert(value.contains('='));
        }
    }
    assert(header.subrange(first + 1, second) =~= value);
}

} // verus!
