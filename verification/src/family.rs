//! Matching of family names: ASCII case is ignored, and a query is trimmed
//! of the white space around it.

use vstd::prelude::*;

verus! {

/// The code point of `c` with the ASCII capitals folded onto the small
/// letters.
pub open spec fn ascii_lower(c: char) -> u32 {
    let code = c as u32;
    if 0x41 <= code <= 0x5A {
        (code + 0x20) as u32
    } else {
        code
    }
}

/// Two names that differ at most in the case of ASCII letters.
pub open spec fn same_family(a: Seq<char>, b: Seq<char>) -> bool {
    &&& a.len() == b.len()
    &&& forall|i: int| 0 <= i < a.len() ==> ascii_lower(#[trigger] a[i]) == ascii_lower(b[i])
}

/// The code points with the Unicode property `White_Space`.
pub open spec fn is_white_space(c: char) -> bool {
    let code = c as u32;
    ||| 0x09 <= code <= 0x0D
    ||| code == 0x20
    ||| code == 0x85
    ||| code == 0xA0
    ||| code == 0x1680
    ||| 0x2000 <= code <= 0x200A
    ||| code == 0x2028
    ||| code == 0x2029
    ||| code == 0x202F
    ||| code == 0x205F
    ||| code == 0x3000
}

/// `s` without the white space at its start.
pub open spec fn trim_start(s: Seq<char>) -> Seq<char>
    decreases s.len(),
{
    if s.len() > 0 && is_white_space(s[0]) {
        trim_start(s.subrange(1, s.len() as int))
    } else {
        s
    }
}

/// `s` without the white space at its end.
pub open spec fn trim_end(s: Seq<char>) -> Seq<char>
    decreases s.len(),
{
    if s.len() > 0 && is_white_space(s.last()) {
        trim_end(s.drop_last())
    } else {
        s
    }
}

/// `s` without the white space at either end.
pub open spec fn trimmed(s: Seq<char>) -> Seq<char> {
    trim_end(trim_start(s))
}

/// `str::eq_ignore_ascii_case`: whether the two strings are equal once `A`
/// to `Z` are mapped to `a` to `z`.
#[verifier::external_body]
pub(crate) fn eq_ignore_ascii_case(a: &str, b: &str) -> (r: bool)
    ensures
        r == same_family(a@, b@),
{
    a.eq_ignore_ascii_case(b)
}

/// `str::trim`: the slice without leading and trailing white space, as the
/// Unicode property `White_Space` defines it.
#[verifier::external_body]
pub(crate) fn trim(s: &str) -> (r: &str)
    ensures
        r@ == trimmed(s@),
{
    s.trim()
}

/// A name is of its own family.
pub proof fn lemma_same_family_reflexive(a: Seq<char>)
    ensures
        same_family(a, a),
{
}

/// The relation does not depend on the order of the two names.
pub proof fn lemma_same_family_symmetric(a: Seq<char>, b: Seq<char>)
    ensures
        same_family(a, b) == same_family(b, a),
{
    if same_family(a, b) {
        assert forall|i: int| 0 <= i < b.len() implies ascii_lower(#[trigger] b[i]) == ascii_lower(
            a[i],
        ) by {
            assert(ascii_lower(a[i]) == ascii_lower(b[i]));
        }
    }
    if same_family(b, a) {
        assert forall|i: int| 0 <= i < a.len() implies ascii_lower(#[trigger] a[i]) == ascii_lower(
            b[i],
        ) by {
            assert(ascii_lower(b[i]) == ascii_lower(a[i]));
        }
    }
}

/// Names of one family with a common name are of one family.
pub proof fn lemma_same_family_transitive(a: Seq<char>, b: Seq<char>, c: Seq<char>)
    requires
        same_family(a, b),
        same_family(b, c),
    ensures
        same_family(a, c),
{
    assert forall|i: int| 0 <= i < a.len() implies ascii_lower(#[trigger] a[i]) == ascii_lower(
        c[i],
    ) by {
        assert(ascii_lower(a[i]) == ascii_lower(b[i]));
        assert(ascii_lower(b[i]) == ascii_lower(c[i]));
    }
}

} // verus!
