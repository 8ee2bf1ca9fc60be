//! Text helpers over `&str`, specified over `Seq<char>`.

use vstd::prelude::*;
use vstd::string::*;

verus! {

/// `suffix` is the tail of `s`.
pub open spec fn has_suffix(s: Seq<char>, suffix: Seq<char>) -> bool {
    s.len() >= suffix.len() && s.subrange(s.len() - suffix.len(), s.len() as int) == suffix
}

/// `prefix` is the head of `s`.
pub open spec fn has_prefix(s: Seq<char>, prefix: Seq<char>) -> bool {
    s.len() >= prefix.len() && s.subrange(0, prefix.len() as int) == prefix
}

/// `names` joined, with `sep` between neighbours.
pub open spec fn joined(names: Seq<Seq<char>>, sep: Seq<char>) -> Seq<char>
    decreases names.len(),
{
    if names.len() == 0 {
        Seq::empty()
    } else if names.len() == 1 {
        names[0]
    } else {
        joined(names.drop_last(), sep) + sep + names.last()
    }
}

/// Whether two strings hold the same characters.
pub fn str_equals(a: &str, b: &str) -> (res: bool)
    ensures
        res == (a@ == b@),
{
    let x = a.as_bytes();
    let y = b.as_bytes();
    proof {
        vstd::utf8::encode_utf8_decode_utf8(a@);
        vstd::utf8::encode_utf8_decode_utf8(b@);
    }
    if x.len() != y.len() {
        return false;
    }
    let mut i: usize = 0;
    while i < x.len()
        invariant
            i <= x.len(),
            x.len() == y.len(),
            x@ == a.spec_bytes(),
            y@ == b.spec_bytes(),
            forall|j: int| 0 <= j < i ==> x@[j] == y@[j],
        decreases x.len() - i,
    {
        if x[i] != y[i] {
            return false;
        }
        i = i + 1;
    }
    assert(x@ =~= y@);
    true
}

/// Whether `s` ends in `suffix`.
pub fn ends_with(s: &str, suffix: &str) -> (res: bool)
    ensures
        res == has_suffix(s@, suffix@),
{
    let n = s.unicode_len();
    let m = suffix.unicode_len();
    if n < m {
        return false;
    }
    let start = n - m;
    let mut i: usize = 0;
    while i < m
        invariant
            i <= m,
            m == suffix@.len(),
            n == s@.len(),
            start == n - m,
            forall|j: int| 0 <= j < i ==> s@[start + j] == suffix@[j],
        decreases m - i,
    {
        if s.get_char(start + i) != suffix.get_char(i) {
            assert(s@.subrange(start as int, n as int)[i as int] != suffix@[i as int]);
            return false;
        }
        i = i + 1;
    }
    assert(s@.subrange(start as int, n as int) =~= suffix@);
    true
}

} // verus!
