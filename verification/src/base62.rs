//! The canonical base-62 rendering of a remote track id: 22 digits over
//! `0-9a-zA-Z`, most significant digit first, zero padded. Every file name
//! carries this suffix so that names never collide and a file can be traced
//! back to its remote item.
use vstd::prelude::*;

use crate::text::push_char;

verus! {

/// The base-62 digit character for `d` (only meaningful for `d < 62`):
/// `0-9`, then `a-z`, then `A-Z`.
pub open spec fn base62_digit(d: nat) -> char {
    if d < 10 {
        ((d + 0x30) as u32) as char
    } else if d < 36 {
        ((d - 10 + 0x61) as u32) as char
    } else {
        ((d - 36 + 0x41) as u32) as char
    }
}

/// The `width` low-order base-62 digits of `n`, most significant first.
pub open spec fn base62_rep(n: nat, width: nat) -> Seq<char>
    decreases width,
{
    if width == 0 {
        Seq::empty()
    } else {
        base62_rep(n / 62, (width - 1) as nat) + seq![base62_digit(n % 62)]
    }
}

/// The canonical 22-character base-62 form of a remote id. 62^22 exceeds
/// 2^128, so every id fits without loss.
pub open spec fn base62_of(n: nat) -> Seq<char> {
    base62_rep(n, 22)
}

/// The digit character for one base-62 digit.
fn base62_digit_char(d: u8) -> (c: char)
    requires
        d < 62,
    ensures
        c == base62_digit(d as nat),
{
    if d < 10 {
        (d + 0x30) as char
    } else if d < 36 {
        (d - 10 + 0x61) as char
    } else {
        (d - 36 + 0x41) as char
    }
}

/// Renders `id` as its canonical 22-character base-62 form.
pub fn to_base62(id: u128) -> (s: String)
    ensures
        s@ == base62_of(id as nat),
        s@.len() == 22,
{
    let mut digits: Vec<char> = Vec::new();
    let mut m: u128 = id;
    let mut j: usize = 0;
    proof {
        assert(base62_of(id as nat) =~= base62_rep(id as nat, 22) + Seq::<char>::empty().reverse());
    }
    while j < 22
        invariant
            j <= 22,
            digits@.len() == j,
            base62_of(id as nat) == base62_rep(m as nat, (22 - j) as nat) + digits@.reverse(),
        decreases 22 - j,
    {
        let ghost prev = digits@;
        let d: u8 = (m % 62) as u8;
        digits.push(base62_digit_char(d));
        proof {
            assert(digits@.reverse() =~= seq![base62_digit((m as nat) % 62)] + prev.reverse());
            assert(base62_rep(m as nat, (22 - j) as nat) + prev.reverse() =~= base62_rep(
                (m as nat) / 62,
                (22 - j - 1) as nat,
            ) + digits@.reverse());
        }
        m = m / 62;
        j = j + 1;
    }
    proof {
        assert(base62_of(id as nat) =~= digits@.reverse());
    }
    let mut s = String::new();
    let mut i: usize = digits.len();
    while i > 0
        invariant
            i <= digits@.len(),
            s@ =~= digits@.reverse().take(digits@.len() - i),
        decreases i,
    {
        i = i - 1;
        let c = digits[i];
        push_char(&mut s, c);
        proof {
            assert(s@ =~= digits@.reverse().take(digits@.len() - i));
        }
    }
    proof {
        assert(s@ =~= digits@.reverse());
    }
    s
}

} // verus!
