//! Small verified string utilities used across the crate.

use vstd::prelude::*;
use vstd::string::StrSliceExecFns;

verus! {

/// Append one character to a string.
///
/// Relies on std's `String::push`, for which vstd gives no specification:
/// it appends exactly the given character.
#[verifier::external_body]
fn string_push(s: &mut String, c: char)
    ensures
        final(s)@ == old(s)@.push(c),
{
    s.push(c);
}

/// A character with ASCII upper-case letters folded to lower case; any
/// other character is kept.
pub open spec fn spec_lower_char(c: char) -> char {
    if 65 <= c as u32 && c as u32 <= 90 {
        ((c as u32 + 32) as u8) as char
    } else {
        c
    }
}

/// A string with ASCII upper-case letters folded to lower case.
pub open spec fn spec_to_lower(s: Seq<char>) -> Seq<char> {
    s.map_values(|c: char| spec_lower_char(c))
}

/// Fold the ASCII upper-case letters of a string to lower case.
pub fn ascii_lowercase(s: &str) -> (r: String)
    ensures
        r@ == spec_to_lower(s@),
{
    let len = s.unicode_len();
    let mut out = String::new();
    let mut i: usize = 0;
    while i < len
        invariant
            len == s@.len(),
            0 <= i <= len,
            out@ == spec_to_lower(s@.take(i as int)),
        decreases len - i,
    {
        let c = s.get_char(i);
        let u = c as u32;
        let lowered: char = if 65 <= u && u <= 90 {
            ((u + 32) as u8) as char
        } else {
            c
        };
        string_push(&mut out, lowered);
        proof {
            assert(s@.take(i + 1).map_values(|ch: char| spec_lower_char(ch)) =~= s@.take(
                i as int,
            ).map_values(|ch: char| spec_lower_char(ch)).push(spec_lower_char(s@[i as int])));
        }
        i = i + 1;
    }
    proof {
        assert(s@.take(len as int) =~= s@);
    }
    out
}

/// Whether the needle occurs in the haystack starting at position `i`.
pub open spec fn spec_contains_at(hay: Seq<char>, needle: Seq<char>, i: int) -> bool {
    &&& 0 <= i
    &&& i + needle.len() <= hay.len()
    &&& forall|k: int| 0 <= k < needle.len() ==> hay[i + k] == needle[k]
}

/// Whether the needle occurs anywhere in the haystack.
pub open spec fn spec_contains(hay: Seq<char>, needle: Seq<char>) -> bool {
    exists|i: int| #[trigger] spec_contains_at(hay, needle, i)
}

/// Whether the needle occurs in the haystack, decided position by position.
pub fn str_contains(hay: &str, needle: &str) -> (r: bool)
    ensures
        r == spec_contains(hay@, needle@),
{
    let hay_len = hay.unicode_len();
    let needle_len = needle.unicode_len();
    if needle_len > hay_len {
        return false;
    }
    if needle_len == 0 {
        proof {
            assert(spec_contains_at(hay@, needle@, 0));
        }
        return true;
    }
    let limit = hay_len - needle_len;
    let mut i: usize = 0;
    while i <= limit
        invariant
            hay_len == hay@.len(),
            needle_len == needle@.len(),
            1 <= needle_len <= hay_len,
            limit == hay_len - needle_len,
            0 <= i <= limit + 1,
            forall|p: int| 0 <= p < i ==> !spec_contains_at(hay@, needle@, p),
        decreases limit + 1 - i,
    {
        let mut k: usize = 0;
        while k < needle_len && hay.get_char(i + k) == needle.get_char(k)
            invariant
                hay_len == hay@.len(),
                needle_len == needle@.len(),
                i + needle_len <= hay_len,
                0 <= k <= needle_len,
                forall|q: int| 0 <= q < k ==> hay@[i + q] == needle@[q],
            decreases needle_len - k,
        {
            k = k + 1;
        }
        if k == needle_len {
            proof {
                assert(spec_contains_at(hay@, needle@, i as int));
            }
            return true;
        }
        proof {
            assert(!spec_contains_at(hay@, needle@, i as int));
        }
        i = i + 1;
    }
    proof {
        assert forall|p: int| #[trigger] spec_contains_at(hay@, needle@, p) implies false by {
            assert(0 <= p < i);
        }
    }
    false
}

/// Equality of two string slices, decided character by character.
pub fn str_eq(a: &str, b: &str) -> (r: bool)
    ensures
        r == (a@ == b@),
{
    let a_len = a.unicode_len();
    let b_len = b.unicode_len();
    if a_len != b_len {
        assert(a@ != b@);
        return false;
    }
    let mut i: usize = 0;
    while i < a_len
        invariant
            a_len == a@.len(),
            b_len == b@.len(),
            a_len == b_len,
            0 <= i <= a_len,
            forall|j: int| 0 <= j < i ==> a@[j] == b@[j],
        decreases a_len - i,
    {
        if a.get_char(i) != b.get_char(i) {
            assert(a@ != b@);
            return false;
        }
        i = i + 1;
    }
    assert(a@ =~= b@);
    true
}

} // verus!
