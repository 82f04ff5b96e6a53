//! Human-readable sizes, in decimal units.
use vstd::prelude::*;
use vstd::string::*;
use crate::text::{decimal, digit_char, digit_str, octal3, to_decimal, to_octal3};

verus! {

/// The unit a size is shown in: the largest of Bytes, KB, MB, GB, TB and PB
/// (powers of 1000) in which the size is at least 1, Bytes for sizes under
/// 1000.
pub open spec fn unit_index(size: nat) -> nat {
    if size < 1000 {
        0
    } else if size < 1000_000 {
        1
    } else if size < 1000_000_000 {
        2
    } else if size < 1000_000_000_000 {
        3
    } else if size < 1000_000_000_000_000 {
        4
    } else {
        5
    }
}

/// The number of bytes in unit `k`.
pub open spec fn unit_scale(k: nat) -> nat
    decreases k,
{
    if k == 0 {
        1
    } else {
        1000 * unit_scale((k - 1) as nat)
    }
}

/// The name of unit `k`.
pub open spec fn unit_name(k: nat) -> Seq<char> {
    if k == 0 {
        "Bytes"@
    } else if k == 1 {
        "KB"@
    } else if k == 2 {
        "MB"@
    } else if k == 3 {
        "GB"@
    } else if k == 4 {
        "TB"@
    } else {
        "PB"@
    }
}

/// The size in its unit, in hundredths, rounded to the nearest hundredth
/// (halves up).
pub open spec fn hundredths(size: nat) -> nat {
    let d = unit_scale(unit_index(size));
    (size * 100 + d / 2) / d
}

/// The shown size: the value with two decimals, a space and the unit.
pub open spec fn friendly(size: nat) -> Seq<char> {
    let h = hundredths(size);
    decimal(h / 100) + "."@ + seq![digit_char(((h % 100) / 10) as int), digit_char((h % 10) as int)]
        + " "@ + unit_name(unit_index(size))
}

/// The unit and its number of bytes for a size.
fn unit_of(size: u64) -> (r: (usize, u64))
    ensures
        r.0 as nat == unit_index(size as nat),
        r.1 as nat == unit_scale(r.0 as nat),
        r.1 <= 1000_000_000_000_000,
        r.1 == 1 || r.1 >= 1000,
        r.1 == 1 ==> size < 1000,
{
    reveal_with_fuel(unit_scale, 6);
    if size < 1000 {
        (0, 1)
    } else if size < 1000_000 {
        (1, 1000)
    } else if size < 1000_000_000 {
        (2, 1000_000)
    } else if size < 1000_000_000_000 {
        (3, 1000_000_000)
    } else if size < 1000_000_000_000_000 {
        (4, 1000_000_000_000)
    } else {
        (5, 1000_000_000_000_000)
    }
}

fn unit_text(k: usize) -> (r: String)
    ensures
        r@ == unit_name(k as nat),
{
    if k == 0 {
        String::from_str("Bytes")
    } else if k == 1 {
        String::from_str("KB")
    } else if k == 2 {
        String::from_str("MB")
    } else if k == 3 {
        String::from_str("GB")
    } else if k == 4 {
        String::from_str("TB")
    } else {
        String::from_str("PB")
    }
}

proof fn lemma_hundredths(size: nat, d: nat, q: nat, r: nat, f: nat)
    requires
        d >= 1,
        q == size / d,
        r == size % d,
        f == (r * 100 + d / 2) / d,
    ensures
        (size * 100 + d / 2) / d == q * 100 + f,
        f <= 100,
{
    assert(size == q * d + r) by (nonlinear_arith)
        requires
            d >= 1,
            q == size / d,
            r == size % d,
    ;
    assert(size * 100 + d / 2 == (q * 100) * d + (r * 100 + d / 2)) by (nonlinear_arith)
        requires
            size == q * d + r,
    ;
    assert((size * 100 + d / 2) / d == q * 100 + f) by (nonlinear_arith)
        requires
            d >= 1,
            size * 100 + d / 2 == (q * 100) * d + (r * 100 + d / 2),
            f == (r * 100 + d / 2) / d,
            r * 100 + d / 2 >= 0,
    ;
    assert(f <= 100) by (nonlinear_arith)
        requires
            d >= 1,
            r < d,
            f == (r * 100 + d / 2) / d,
    ;
}

/// `size` bytes in the largest decimal unit up to PB in which it is at
/// least 1, with two decimals: `500.00 Bytes`, `1.50 KB`, `2.50 MB`.
pub fn friendly_size(size: u64) -> (r: String)
    ensures
        r@ == friendly(size as nat),
{
    let (k, d) = unit_of(size);
    let q = size / d;
    let rem = size % d;
    let f = (rem * 100 + d / 2) / d;
    proof {
        lemma_hundredths(size as nat, d as nat, q as nat, rem as nat, f as nat);
    }
    let ghost h = q * 100 + f;
    proof {
        if d >= 1000 {
            assert(q <= size / 1000) by (nonlinear_arith)
                requires
                    d >= 1000,
                    q == size / d,
            ;
        }
    }
    let (whole, frac) = if f >= 100 {
        (q + 1, f - 100)
    } else {
        (q, f)
    };
    assert(whole == h / 100 && frac == h % 100);
    let a = digit_str(frac / 10);
    let b = digit_str(frac % 10);
    let unit = unit_text(k);
    let r = to_decimal(whole).concat(".").concat(a.as_str()).concat(b.as_str()).concat(" ").concat(
        unit.as_str(),
    );
    assert(frac % 10 == h % 10);
    r
}

/// The line that shows one entry of the trash: its permission bits in
/// octal, its name and its size.
pub fn browse_line(perms: u32, name: &str, size: u64) -> (r: String)
    requires
        perms < 512,
    ensures
        r@ == "$"@ + octal3(perms as nat) + " "@ + name@ + " "@ + friendly(size as nat),
{
    let p = to_octal3(perms);
    let f = friendly_size(size);
    String::from_str("$").concat(p.as_str()).concat(" ").concat(name).concat(" ").concat(f.as_str())
}

} // verus!
