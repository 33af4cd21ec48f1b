//! Byte-level text helpers: keyword normalization (ASCII trim and
//! lower-casing) for the command parsers, and decimal rendering for error
//! messages.

use vstd::prelude::*;

verus! {

use vstd::string::StrSliceExecFns;
use vstd::string::StringExecFns;
use vstd::string::StringSliceAdditionalSpecFns;

/// ASCII whitespace as recognized by the command keyword parsers.
pub open spec fn is_space_byte(c: u8) -> bool {
    c == 32 || c == 9 || c == 10 || c == 13
}

/// ASCII lower-casing of a single byte.
pub open spec fn lower_byte(c: u8) -> u8 {
    if 65 <= c <= 90 {
        (c + 32) as u8
    } else {
        c
    }
}

/// `s` with leading and trailing ASCII whitespace removed.
pub open spec fn trim_bytes(s: Seq<u8>) -> Seq<u8>
    decreases s.len(),
{
    if s.len() == 0 {
        s
    } else if is_space_byte(s[0]) {
        trim_bytes(s.subrange(1, s.len() as int))
    } else if is_space_byte(s[s.len() - 1]) {
        trim_bytes(s.subrange(0, s.len() - 1))
    } else {
        s
    }
}

/// `s` lower-cased byte by byte.
pub open spec fn lower_bytes(s: Seq<u8>) -> Seq<u8> {
    s.map_values(|c: u8| lower_byte(c))
}

/// The canonical form a keyword is matched in: trimmed, then lower-cased.
pub open spec fn normal_bytes(s: Seq<u8>) -> Seq<u8> {
    lower_bytes(trim_bytes(s))
}

fn is_space_b(c: u8) -> (r: bool)
    ensures
        r == is_space_byte(c),
{
    c == 32 || c == 9 || c == 10 || c == 13
}

fn lower_b(c: u8) -> (r: u8)
    ensures
        r == lower_byte(c),
{
    if 65 <= c && c <= 90 {
        c + 32
    } else {
        c
    }
}

/// The bounds of `b` once leading and trailing ASCII whitespace is dropped.
fn trim_range(b: &Vec<u8>) -> (r: (usize, usize))
    ensures
        r.0 <= r.1 <= b@.len(),
        trim_bytes(b@) == b@.subrange(r.0 as int, r.1 as int),
{
    let ghost s0 = b@;
    let mut lo: usize = 0;
    let mut hi: usize = b.len();
    proof {
        assert(s0.subrange(0, s0.len() as int) =~= s0);
    }
    while lo < hi && is_space_b(b[lo])
        invariant
            lo <= hi <= s0.len(),
            b@ == s0,
            trim_bytes(s0) == trim_bytes(s0.subrange(lo as int, hi as int)),
        decreases hi - lo,
    {
        proof {
            let sub = s0.subrange(lo as int, hi as int);
            assert(sub.subrange(1, sub.len() as int) =~= s0.subrange(lo + 1, hi as int));
        }
        lo = lo + 1;
    }
    while lo < hi && is_space_b(b[hi - 1])
        invariant
            lo <= hi <= s0.len(),
            b@ == s0,
            trim_bytes(s0) == trim_bytes(s0.subrange(lo as int, hi as int)),
            lo == hi || !is_space_byte(s0[lo as int]),
        decreases hi,
    {
        proof {
            let sub = s0.subrange(lo as int, hi as int);
            assert(sub.subrange(0, sub.len() - 1) =~= s0.subrange(lo as int, hi - 1));
        }
        hi = hi - 1;
    }
    proof {
        let sub = s0.subrange(lo as int, hi as int);
        assert(trim_bytes(sub) == sub);
    }
    (lo, hi)
}

/// The UTF-8 bytes of `s`, trimmed of ASCII whitespace and lower-cased.
pub fn normalize_bytes(s: &str) -> (r: Vec<u8>)
    ensures
        r@ == normal_bytes(s.spec_bytes()),
{
    let b: Vec<u8> = s.as_bytes_vec();
    let ghost s0 = b@;
    let (lo, hi) = trim_range(&b);
    let mut r: Vec<u8> = Vec::new();
    let mut i: usize = lo;
    while i < hi
        invariant
            lo <= i <= hi <= s0.len(),
            b@ == s0,
            r@ =~= lower_bytes(s0.subrange(lo as int, i as int)),
        decreases hi - i,
    {
        r.push(lower_b(b[i]));
        proof {
            assert(s0.subrange(lo as int, i + 1).drop_last() =~= s0.subrange(
                lo as int,
                i as int,
            ));
            assert(s0.subrange(lo as int, i + 1).map_values(|c: u8| lower_byte(c))
                =~= s0.subrange(lo as int, i as int).map_values(|c: u8| lower_byte(c)).push(
                lower_byte(s0[i as int])));
        }
        i = i + 1;
    }
    proof {
        assert(r@ =~= normal_bytes(s0));
    }
    r
}

/// Element-wise equality of two byte strings.
pub fn bytes_eq(a: &[u8], b: &[u8]) -> (r: bool)
    ensures
        r == (a@ == b@),
{
    if a.len() != b.len() {
        return false;
    }
    let n = a.len();
    let mut i: usize = 0;
    while i < n
        invariant
            i <= n,
            n == a@.len() == b@.len(),
            forall|j: int| 0 <= j < i ==> a@[j] == b@[j],
        decreases n - i,
    {
        if a[i] != b[i] {
            return false;
        }
        i = i + 1;
    }
    proof {
        assert(a@ =~= b@);
    }
    true
}

/// True when the token `t` is exactly the keyword `s`.
pub fn token_is(t: &Vec<u8>, s: &str) -> (r: bool)
    ensures
        r == (t@ == s.spec_bytes()),
{
    bytes_eq(t.as_slice(), s.as_bytes())
}

/// The decimal digit `d` as a character; meaningful for `d < 10`.
pub open spec fn digit_char(d: u32) -> char {
    if d == 0 {
        '0'
    } else if d == 1 {
        '1'
    } else if d == 2 {
        '2'
    } else if d == 3 {
        '3'
    } else if d == 4 {
        '4'
    } else if d == 5 {
        '5'
    } else if d == 6 {
        '6'
    } else if d == 7 {
        '7'
    } else if d == 8 {
        '8'
    } else {
        '9'
    }
}

/// The decimal rendering of `n`, most significant digit first.
pub open spec fn dec_str(n: u32) -> Seq<char>
    decreases n,
{
    if n < 10 {
        seq![digit_char(n)]
    } else {
        dec_str(n / 10) + seq![digit_char(n % 10)]
    }
}

fn digit_str(d: u32) -> (r: &'static str)
    requires
        d < 10,
    ensures
        r@ == seq![digit_char(d)],
{
    proof {
        reveal_strlit("0");
        reveal_strlit("1");
        reveal_strlit("2");
        reveal_strlit("3");
        reveal_strlit("4");
        reveal_strlit("5");
        reveal_strlit("6");
        reveal_strlit("7");
        reveal_strlit("8");
        reveal_strlit("9");
    }
    if d == 0 {
        "0"
    } else if d == 1 {
        "1"
    } else if d == 2 {
        "2"
    } else if d == 3 {
        "3"
    } else if d == 4 {
        "4"
    } else if d == 5 {
        "5"
    } else if d == 6 {
        "6"
    } else if d == 7 {
        "7"
    } else if d == 8 {
        "8"
    } else {
        "9"
    }
}

/// `n` rendered in decimal.
pub fn u32_dec(n: u32) -> (r: String)
    ensures
        r@ == dec_str(n),
    decreases n,
{
    if n < 10 {
        String::from_str(digit_str(n))
    } else {
        let mut r = u32_dec(n / 10);
        r.append(digit_str(n % 10));
        r
    }
}

} // verus!
