//! Lookup of a parameter in a URL query string: the pairs are separated by
//! `&`, each pair splits at its first `=`, and a pair without `=` names
//! nothing.

use vstd::prelude::*;
use vstd::string::StrSliceExecFns;
use crate::strutil::str_eq;

verus! {

/// The position of the first occurrence of `c` in `s` at or after `from`,
/// or the length of `s` when there is none.
pub open spec fn spec_find_char(s: Seq<char>, c: char, from: int) -> int
    decreases s.len() - from,
{
    if from < 0 || from >= s.len() {
        s.len() as int
    } else if s[from] == c {
        from
    } else {
        spec_find_char(s, c, from + 1)
    }
}

/// The position found by the scan lies between its origin and the string's
/// end.
proof fn lemma_find_char_bounds(s: Seq<char>, c: char, from: int)
    requires
        0 <= from <= s.len(),
    ensures
        from <= spec_find_char(s, c, from) <= s.len(),
    decreases s.len() - from,
{
    if from < s.len() && s[from] != c {
        lemma_find_char_bounds(s, c, from + 1);
    }
}

#[via_fn]
proof fn lookup_from_decreases(q: Seq<char>, key: Seq<char>, start: int) {
    if 0 <= start <= q.len() {
        lemma_find_char_bounds(q, '&', start);
    }
}

/// The value of the first pair at or after `start` whose key is `key`, if
/// any. A pair runs to the next `&` or the end; its key is what precedes
/// its first `=`, its value what follows.
pub open spec fn spec_query_lookup_from(q: Seq<char>, key: Seq<char>, start: int) -> Option<
    Seq<char>,
>
    decreases q.len() - start,
        via lookup_from_decreases
{
    if start < 0 || start > q.len() {
        None
    } else {
        let amp = spec_find_char(q, '&', start);
        let eq = spec_find_char(q, '=', start);
        if eq < amp && q.subrange(start, eq) == key {
            Some(q.subrange(eq + 1, amp))
        } else if amp >= q.len() {
            None
        } else {
            spec_query_lookup_from(q, key, amp + 1)
        }
    }
}

/// The value bound to `key` in the query string, if any.
pub open spec fn spec_query_param(q: Seq<char>, key: Seq<char>) -> Option<Seq<char>> {
    spec_query_lookup_from(q, key, 0)
}

/// The position of the first occurrence of `c` at or after `from`, found by
/// scanning.
fn find_char_from(s: &str, c: char, from: usize, len: usize) -> (r: usize)
    requires
        len == s@.len(),
        from <= len,
    ensures
        r == spec_find_char(s@, c, from as int),
        from <= r <= len,
        r < len ==> s@[r as int] == c,
{
    let mut i: usize = from;
    while i < len
        invariant
            len == s@.len(),
            from <= i <= len,
            spec_find_char(s@, c, from as int) == spec_find_char(s@, c, i as int),
        decreases len - i,
    {
        if s.get_char(i) == c {
            return i;
        }
        i = i + 1;
    }
    i
}

/// The value bound to `key` in the query string, if any: the first pair
/// whose key part (before its first `=`) is `key` yields its value part.
pub fn get_query_param(query: &str, key: &str) -> (r: Option<String>)
    ensures
        r is Some <==> spec_query_param(query@, key@) is Some,
        r matches Some(v) ==> spec_query_param(query@, key@) == Some(v@),
{
    let q_len = query.unicode_len();
    let mut start: usize = 0;
    loop
        invariant
            q_len == query@.len(),
            0 <= start <= q_len,
            spec_query_param(query@, key@) == spec_query_lookup_from(query@, key@, start as int),
        decreases q_len - start,
    {
        let amp = find_char_from(query, '&', start, q_len);
        let eq = find_char_from(query, '=', start, q_len);
        if eq < amp {
            let key_part = query.substring_char(start, eq);
            if str_eq(key_part, key) {
                let value_part = query.substring_char(eq + 1, amp);
                return Some(value_part.to_owned());
            }
        }
        if amp >= q_len {
            return None;
        }
        start = amp + 1;
    }
}

} // verus!
