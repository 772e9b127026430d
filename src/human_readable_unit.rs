//! Byte counts for people to read.
//!
//! A count is scaled by its decimal order of magnitude: below a thousand it is
//! shown in bytes (`B`), below a million in thousands (`K`), below a billion in
//! millions (`M`), and from there on in billions (`G`). The scaled value is
//! written exactly, in decimal, with no trailing zeros after the point and no
//! point at all when it is whole: `999B`, `1.5K`, `2.5M`, `3G`.

use vstd::prelude::*;

verus! {

/// The decimal digit `d` as a character.
pub open spec fn digit_char(d: nat) -> char {
    if d == 0 {
        '0'
    } else if d == 1 {
        '1'
    } else if d == 2 {
        '2'
    } else if d == 3 {
        '3'
    } else if d == 4 {
        '4'
    } else if d == 5 {
        '5'
    } else if d == 6 {
        '6'
    } else if d == 7 {
        '7'
    } else if d == 8 {
        '8'
    } else {
        '9'
    }
}

/// `n` in decimal, without leading zeros.
pub open spec fn decimal(n: nat) -> Seq<char>
    decreases n,
{
    if n < 10 {
        seq![digit_char(n)]
    } else {
        decimal(n / 10).push(digit_char(n % 10))
    }
}

/// The last `w` decimal digits of `r`, with leading zeros.
pub open spec fn padded(r: nat, w: nat) -> Seq<char>
    decreases w,
{
    if w == 0 {
        seq![]
    } else {
        padded(r / 10, (w - 1) as nat).push(digit_char(r % 10))
    }
}

/// The fractional digits of `r / 10^w` for `r < 10^w`, without trailing zeros;
/// empty when `r` is zero.
pub open spec fn fraction(r: nat, w: nat) -> Seq<char>
    decreases w,
{
    if w > 0 && r % 10 == 0 {
        fraction(r / 10, (w - 1) as nat)
    } else {
        padded(r, w)
    }
}

/// Divisor, number of fractional digits and unit letter for the count `n`.
pub open spec fn scale_of(n: nat) -> (nat, nat, char) {
    if n < 1000 {
        (1, 0, 'B')
    } else if n < 1_000_000 {
        (1000, 3, 'K')
    } else if n < 1_000_000_000 {
        (1_000_000, 6, 'M')
    } else {
        (1_000_000_000, 9, 'G')
    }
}

/// The text for the count `n`.
pub open spec fn human_readable(n: nat) -> Seq<char> {
    let (d, w, unit) = scale_of(n);
    let frac = fraction(n % d, w);
    if frac.len() == 0 {
        decimal(n / d).push(unit)
    } else {
        decimal(n / d) + seq!['.'] + frac + seq![unit]
    }
}

proof fn lemma_padded_len(r: nat, w: nat)
    ensures
        padded(r, w).len() == w,
    decreases w,
{
    if w > 0 {
        lemma_padded_len(r / 10, (w - 1) as nat);
    }
}

/// Relies on `String::push`, which appends one character at the end.
#[verifier::external_body]
fn push_char(s: &mut String, c: char)
    ensures
        final(s)@ == old(s)@.push(c),
{
    s.push(c)
}

fn digit(d: u64) -> (c: char)
    requires
        d < 10,
    ensures
        c == digit_char(d as nat),
{
    if d == 0 {
        '0'
    } else if d == 1 {
        '1'
    } else if d == 2 {
        '2'
    } else if d == 3 {
        '3'
    } else if d == 4 {
        '4'
    } else if d == 5 {
        '5'
    } else if d == 6 {
        '6'
    } else if d == 7 {
        '7'
    } else if d == 8 {
        '8'
    } else {
        '9'
    }
}

fn push_decimal(s: &mut String, n: u64)
    ensures
        final(s)@ == old(s)@ + decimal(n as nat),
    decreases n,
{
    if n >= 10 {
        push_decimal(s, n / 10);
    }
    push_char(s, digit(n % 10));
    assert(s@ =~= old(s)@ + decimal(n as nat));
}

fn push_padded(s: &mut String, r: u64, w: u32)
    ensures
        final(s)@ == old(s)@ + padded(r as nat, w as nat),
    decreases w,
{
    if w > 0 {
        push_padded(s, r / 10, w - 1);
        push_char(s, digit(r % 10));
    }
    assert(s@ =~= old(s)@ + padded(r as nat, w as nat));
}

/// A byte count, shown scaled to a unit.
#[derive(Debug, Clone, Copy, PartialEq, Eq, Structural)]
pub struct HumanReadableUnit(u64);

impl HumanReadableUnit {
    /// The byte count shown.
    pub closed spec fn bytes_spec(&self) -> u64 {
        self.0
    }

    /// The count `bytes`, to be shown scaled.
    pub fn new(bytes: u64) -> (u: HumanReadableUnit)
        ensures
            u.bytes_spec() == bytes,
    {
        HumanReadableUnit(bytes)
    }

    /// The byte count shown.
    pub fn bytes(&self) -> (r: u64)
        ensures
            r == self.bytes_spec(),
    {
        self.0
    }

    /// The count as text, such as `1.5K`.
    pub fn to_string(&self) -> (r: String)
        ensures
            r@ == human_readable(self.bytes_spec() as nat),
    {
        let n = self.0;
        let (d, w, unit): (u64, u32, char) = if n < 1000 {
            (1, 0, 'B')
        } else if n < 1_000_000 {
            (1000, 3, 'K')
        } else if n < 1_000_000_000 {
            (1_000_000, 6, 'M')
        } else {
            (1_000_000_000, 9, 'G')
        };
        let mut s = String::new();
        push_decimal(&mut s, n / d);
        let mut r: u64 = n % d;
        let mut k: u32 = w;
        while k > 0 && r % 10 == 0
            invariant
                fraction(r as nat, k as nat) == fraction((n % d) as nat, w as nat),
            decreases k,
        {
            r = r / 10;
            k = k - 1;
        }
        proof {
            lemma_padded_len(r as nat, k as nat);
        }
        if k > 0 {
            push_char(&mut s, '.');
            push_padded(&mut s, r, k);
        }
        push_char(&mut s, unit);
        s
    }
}

} // verus!
