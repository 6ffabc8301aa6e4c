//! Small text utilities shared by the model builder and the renderer:
//! decimal formatting of unsigned integers, string-slice equality, and
//! extraction of a path's final segment.

use vstd::prelude::*;
use vstd::string::*;

verus! {

/// A decimal digit as a one-character sequence.
pub open spec fn digit_seq(d: nat) -> Seq<char> {
    if d == 0 {
        "0"@
    } else if d == 1 {
        "1"@
    } else if d == 2 {
        "2"@
    } else if d == 3 {
        "3"@
    } else if d == 4 {
        "4"@
    } else if d == 5 {
        "5"@
    } else if d == 6 {
        "6"@
    } else if d == 7 {
        "7"@
    } else if d == 8 {
        "8"@
    } else {
        "9"@
    }
}

/// The decimal rendering of a natural number, most significant digit first,
/// with no leading zeros (a lone zero for 0).
pub open spec fn dec(n: nat) -> Seq<char>
    decreases n,
{
    if n < 10 {
        digit_seq(n)
    } else {
        dec(n / 10) + digit_seq(n % 10)
    }
}

fn digit_str(d: u64) -> (r: &'static str)
    requires
        d < 10,
    ensures
        r@ == digit_seq(d as nat),
{
    if d == 0 {
        "0"
    } else if d == 1 {
        "1"
    } else if d == 2 {
        "2"
    } else if d == 3 {
        "3"
    } else if d == 4 {
        "4"
    } else if d == 5 {
        "5"
    } else if d == 6 {
        "6"
    } else if d == 7 {
        "7"
    } else if d == 8 {
        "8"
    } else {
        "9"
    }
}

/// Renders `n` in decimal.
pub fn u64_str(n: u64) -> (r: String)
    ensures
        r@ == dec(n as nat),
    decreases n,
{
    if n < 10 {
        String::from_str(digit_str(n))
    } else {
        assert(n / 10 < n) by (nonlinear_arith)
            requires
                n >= 10,
        ;
        let mut s = u64_str(n / 10);
        s.append(digit_str(n % 10));
        s
    }
}

/// Whether two string slices consist of the same characters in the same
/// order.
pub(crate) fn str_eq(a: &str, b: &str) -> (r: bool)
    ensures
        r == (a@ == b@),
{
    let na = a.unicode_len();
    let nb = b.unicode_len();
    if na != nb {
        proof {
            assert(a@.len() != b@.len());
        }
        return false;
    }
    let mut i: usize = 0;
    while i < na
        invariant
            na == a@.len(),
            na == b@.len(),
            i <= na,
            forall|j: int| 0 <= j < i ==> a@[j] == b@[j],
        decreases na - i,
    {
        if a.get_char(i) != b.get_char(i) {
            proof {
                assert(a@[i as int] != b@[i as int]);
            }
            return false;
        }
        i = i + 1;
    }
    proof {
        assert(a@ =~= b@);
    }
    true
}

/// The final path segment: the text after the last '/', or the whole text
/// when it holds no '/'.
pub open spec fn basename(s: Seq<char>) -> Seq<char>
    decreases s.len(),
{
    if s.len() == 0 {
        s
    } else if s.last() == '/' {
        Seq::empty()
    } else {
        basename(s.drop_last()) + seq![s.last()]
    }
}

proof fn lemma_basename_is_suffix(s: Seq<char>, c: int)
    requires
        0 <= c <= s.len(),
        c > 0 ==> s[c - 1] == '/',
        forall|j: int| c <= j < s.len() ==> s[j] != '/',
    ensures
        basename(s) == s.subrange(c, s.len() as int),
    decreases s.len(),
{
    if s.len() == 0 {
        assert(basename(s) =~= s.subrange(c, s.len() as int));
    } else if c == s.len() {
        assert(s.last() == '/');
        assert(basename(s) =~= s.subrange(c, s.len() as int));
    } else {
        assert(s.last() != '/');
        lemma_basename_is_suffix(s.drop_last(), c);
        assert(basename(s) =~= s.subrange(c, s.len() as int));
    }
}

/// Extracts the final path segment of `s` (the text after the last '/').
pub fn basename_of(s: &str) -> (r: String)
    ensures
        r@ == basename(s@),
{
    let n = s.unicode_len();
    let mut cut: usize = 0;
    let mut i: usize = 0;
    while i < n
        invariant
            n == s@.len(),
            i <= n,
            cut <= i,
            cut > 0 ==> s@[cut - 1] == '/',
            forall|j: int| cut <= j < i ==> s@[j] != '/',
        decreases n - i,
    {
        if s.get_char(i) == '/' {
            cut = i + 1;
        }
        i = i + 1;
    }
    proof {
        lemma_basename_is_suffix(s@, cut as int);
    }
    let t = s.substring_char(cut, n);
    String::from_str(t)
}

} // verus!
