//! Human-readable byte counts on a decimal (1000-based) scale.
use vstd::prelude::*;

verus! {

/// ASCII digits of `n` in base ten, most significant first.
pub open spec fn decimal(n: nat) -> Seq<u8>
    decreases n,
{
    if n < 10 {
        seq![(48 + n) as u8]
    } else {
        decimal(n / 10) + seq![(48 + n % 10) as u8]
    }
}

/// Exactly two ASCII digits for a value below one hundred.
pub open spec fn two_digits(n: nat) -> Seq<u8> {
    seq![(48 + n / 10) as u8, (48 + n % 10) as u8]
}

/// How many times the amount can be divided by 1000 before it drops below 1000.
pub open spec fn prefix_index(n: nat) -> nat
    decreases n,
{
    if n < 1000 {
        0
    } else {
        1 + prefix_index(n / 1000)
    }
}

/// 1000 to the power `k`.
pub open spec fn scale(k: nat) -> nat
    decreases k,
{
    if k == 0 {
        1
    } else {
        1000 * scale((k - 1) as nat)
    }
}

/// The SI letter for the `k`-th power of 1000 (`k` between 1 and 6).
pub open spec fn prefix_letter(k: nat) -> u8 {
    if k == 1 {
        107u8
    } else if k == 2 {
        77u8
    } else if k == 3 {
        71u8
    } else if k == 4 {
        84u8
    } else if k == 5 {
        80u8
    } else {
        69u8
    }
}

/// The amount in hundredths of the chosen unit, rounded half up.
pub open spec fn hundredths(n: nat, unit: nat) -> nat
    recommends
        unit > 0,
{
    (n * 100 + unit / 2) / unit
}

/// A value given in hundredths: no decimals when it is whole, else two.
pub open spec fn fixed_two(h: nat) -> Seq<u8> {
    if h % 100 == 0 {
        decimal(h / 100)
    } else {
        decimal(h / 100) + seq![46u8] + two_digits(h % 100)
    }
}

/// "N bytes" below 1000, else the amount in the largest power of 1000 that fits,
/// rounded to zero or two decimals, followed by the prefixed unit ("1.50 MB").
pub open spec fn bytes_text(n: nat) -> Seq<u8> {
    if n < 1000 {
        decimal(n) + seq![32u8, 98u8, 121u8, 116u8, 101u8, 115u8]
    } else {
        let k = prefix_index(n);
        fixed_two(hundredths(n, scale(k))) + seq![32u8, prefix_letter(k), 66u8]
    }
}

/// Appends the decimal digits of `n`.
pub fn push_decimal(out: &mut Vec<u8>, n: u128)
    ensures
        final(out)@ == old(out)@ + decimal(n as nat),
    decreases n,
{
    if n >= 10 {
        push_decimal(out, n / 10);
    }
    let d: u8 = (n % 10) as u8;
    out.push(48u8 + d);
    assert(final(out)@ =~= old(out)@ + decimal(n as nat));
}

/// Appends a value given in hundredths, with no decimals when it is whole.
fn push_fixed_two(out: &mut Vec<u8>, h: u128)
    ensures
        final(out)@ == old(out)@ + fixed_two(h as nat),
{
    push_decimal(out, h / 100);
    if h % 100 != 0 {
        let r: u128 = h % 100;
        out.push(46u8);
        out.push(48u8 + (r / 10) as u8);
        out.push(48u8 + (r % 10) as u8);
    }
    assert(final(out)@ =~= old(out)@ + fixed_two(h as nat));
}

/// Formats a byte count on the decimal SI scale: `0 bytes`, `999 bytes`,
/// `1 kB`, `1.50 MB`.
pub fn fmt_bytes(n: u64) -> (r: Vec<u8>)
    ensures
        r@ == bytes_text(n as nat),
{
    let mut out: Vec<u8> = Vec::new();
    if n < 1000 {
        push_decimal(&mut out, n as u128);
        out.push(32u8);
        out.push(98u8);
        out.push(121u8);
        out.push(116u8);
        out.push(101u8);
        out.push(115u8);
        assert(out@ =~= bytes_text(n as nat));
        return out;
    }
    let mut m: u64 = n;
    let mut unit: u64 = 1;
    let mut k: u64 = 0;
    while m >= 1000
        invariant
            unit >= 1,
            unit as nat == scale(k as nat),
            m as nat == n as nat / unit as nat,
            prefix_index(n as nat) == k + prefix_index(m as nat),
            k <= unit,
            unit * m <= n,
        decreases m,
    {
        assert(unit * 1000 <= unit * m) by (nonlinear_arith)
            requires
                m >= 1000,
        ;
        proof {
            vstd::arithmetic::div_mod::lemma_div_denominator(n as int, unit as int, 1000);
        }
        assert((m / 1000) * 1000 <= m) by (nonlinear_arith)
            requires
                m >= 1000,
        ;
        assert(unit * 1000 * (m / 1000) <= unit * m) by (nonlinear_arith)
            requires
                (m / 1000) * 1000 <= m,
                unit >= 1,
        ;
        m = m / 1000;
        unit = unit * 1000;
        k = k + 1;
    }
    let h: u128 = ((n as u128) * 100 + (unit as u128) / 2) / (unit as u128);
    push_fixed_two(&mut out, h);
    out.push(32u8);
    let letter: u8 = if k == 1 {
        107u8
    } else if k == 2 {
        77u8
    } else if k == 3 {
        71u8
    } else if k == 4 {
        84u8
    } else if k == 5 {
        80u8
    } else {
        69u8
    };
    out.push(letter);
    out.push(66u8);
    assert(out@ =~= bytes_text(n as nat));
    out
}

} // verus!
