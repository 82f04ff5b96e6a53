//! Rendering of numbers and small string predicates shared by the modules.
use vstd::prelude::*;
use vstd::string::*;

verus! {

/// The character of decimal (or octal) digit `d`.
pub open spec fn digit_char(d: int) -> char {
    "0123456789"@[d]
}

/// Decimal rendering of `n`, without leading zeros.
pub open spec fn decimal(n: nat) -> Seq<char>
    decreases n,
{
    if n < 10 {
        seq![digit_char(n as int)]
    } else {
        decimal(n / 10).push(digit_char((n % 10) as int))
    }
}

/// The three octal digits of `p`, most significant first.
pub open spec fn octal3(p: nat) -> Seq<char> {
    seq![digit_char((p / 64) as int), digit_char(((p / 8) % 8) as int), digit_char((p % 8) as int)]
}

/// Whether `s` begins with `p`.
pub open spec fn has_prefix(s: Seq<char>, p: Seq<char>) -> bool {
    p.len() <= s.len() && s.subrange(0, p.len() as int) == p
}

/// A one-character string holding digit `d`.
pub fn digit_str(d: u64) -> (r: String)
    requires
        d < 10,
    ensures
        r@ == seq![digit_char(d as int)],
{
    let digits = "0123456789";
    proof {
        reveal_strlit("0123456789");
    }
    let s = digits.substring_char(d as usize, d as usize + 1);
    assert(s@ =~= seq![digit_char(d as int)]);
    String::from_str(s)
}

/// Decimal rendering of `n`.
pub fn to_decimal(n: u64) -> (r: String)
    ensures
        r@ == decimal(n as nat),
{
    let mut m: u64 = n;
    let mut acc = String::new();
    while m >= 10
        invariant
            decimal(n as nat) == decimal(m as nat) + acc@,
        decreases m,
    {
        let d = digit_str(m % 10);
        proof {
            assert(decimal(m as nat) == decimal((m / 10) as nat).push(digit_char((m % 10) as int)));
            assert(decimal(m as nat) + acc@ =~= decimal((m / 10) as nat) + (d@ + acc@));
        }
        acc = d.concat(acc.as_str());
        m = m / 10;
    }
    let d = digit_str(m);
    d.concat(acc.as_str())
}

/// The three-digit octal rendering of permission bits `p`.
pub fn to_octal3(p: u32) -> (r: String)
    requires
        p < 512,
    ensures
        r@ == octal3(p as nat),
{
    let a = digit_str((p / 64) as u64);
    let b = digit_str(((p / 8) % 8) as u64);
    let c = digit_str((p % 8) as u64);
    let r = a.concat(b.as_str()).concat(c.as_str());
    assert(r@ =~= octal3(p as nat));
    r
}

/// Whether `s` begins with `p`, compared character by character.
pub fn starts_with(s: &str, p: &str) -> (r: bool)
    ensures
        r == has_prefix(s@, p@),
{
    let n = s.unicode_len();
    let m = p.unicode_len();
    if m > n {
        return false;
    }
    let mut i: usize = 0;
    while i < m
        invariant
            m == p@.len(),
            n == s@.len(),
            m <= n,
            i <= m,
            forall|k: int| 0 <= k < i ==> s@[k] == p@[k],
        decreases m - i,
    {
        if s.get_char(i) != p.get_char(i) {
            assert(s@.subrange(0, m as int)[i as int] != p@[i as int]);
            return false;
        }
        i = i + 1;
    }
    assert(s@.subrange(0, m as int) =~= p@);
    true
}

} // verus!
