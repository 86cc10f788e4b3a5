//! Small verified text utilities shared by the naming and wire-format code.
use vstd::prelude::*;

verus! {

/// Relies on String::push: appends exactly one character to the string.
#[verifier::external_body]
pub(crate) fn push_char(s: &mut String, c: char)
    ensures
        final(s)@ == old(s)@.push(c),
{
    s.push(c);
}

/// The decimal digit character for `d` (only meaningful for `d < 10`).
pub open spec fn decimal_digit(d: nat) -> char {
    ((d + 0x30) as u32) as char
}

/// The decimal representation of `n`, without a sign and without leading
/// zeros (`0` itself is the single character `'0'`).
pub open spec fn decimal_of(n: nat) -> Seq<char>
    decreases n,
{
    if n < 10 {
        seq![decimal_digit(n)]
    } else {
        decimal_of(n / 10) + seq![decimal_digit(n % 10)]
    }
}

/// Renders `n` in decimal.
pub fn usize_to_string(n: usize) -> (s: String)
    ensures
        s@ == decimal_of(n as nat),
{
    let mut digits: Vec<char> = Vec::new();
    let mut m: usize = n;
    loop
        invariant_except_break
            digits@.len() == 0 ==> m == n,
            digits@.len() > 0 ==> m > 0 && decimal_of(n as nat) == decimal_of(m as nat)
                + digits@.reverse(),
        ensures
            decimal_of(n as nat) == digits@.reverse(),
        decreases m,
    {
        let ghost prev = digits@;
        let d: usize = m % 10;
        digits.push(((d as u8) + 0x30) as char);
        proof {
            assert(digits@.reverse() =~= seq![decimal_digit((m % 10) as nat)]
                + prev.reverse());
        }
        m = m / 10;
        if m == 0 {
            break;
        }
    }
    let mut s = String::new();
    let mut i: usize = digits.len();
    while i > 0
        invariant
            i <= digits@.len(),
            s@ =~= digits@.reverse().take(digits@.len() - i),
        decreases i,
    {
        i = i - 1;
        let c = digits[i];
        push_char(&mut s, c);
        proof {
            assert(s@ =~= digits@.reverse().take(digits@.len() - i));
        }
    }
    proof {
        assert(s@ =~= digits@.reverse());
    }
    s
}

} // verus!
