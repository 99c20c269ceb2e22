//! Number and indentation formatting used by the report.
use vstd::prelude::*;

verus! {

/// The character of digit `d` (lower-case for hexadecimal digits).
pub open spec fn digit_char(d: nat) -> char {
    if d == 0 { '0' }
    else if d == 1 { '1' }
    else if d == 2 { '2' }
    else if d == 3 { '3' }
    else if d == 4 { '4' }
    else if d == 5 { '5' }
    else if d == 6 { '6' }
    else if d == 7 { '7' }
    else if d == 8 { '8' }
    else if d == 9 { '9' }
    else if d == 10 { 'a' }
    else if d == 11 { 'b' }
    else if d == 12 { 'c' }
    else if d == 13 { 'd' }
    else if d == 14 { 'e' }
    else { 'f' }
}

/// `n` written in `base`, most significant digit first, padded with
/// leading zeros to at least `width` digits (and never empty).
pub open spec fn digits(n: nat, base: nat, width: nat) -> Seq<char>
    decreases n, width
    via digits_decreases
{
    if base < 2 {
        seq![]
    } else if n < base && width <= 1 {
        seq![digit_char(n)]
    } else {
        let rest = if width > 0 { (width - 1) as nat } else { 0 };
        digits(n / base, base, rest) + seq![digit_char(n % base)]
    }
}

#[via_fn]
proof fn digits_decreases(n: nat, base: nat, width: nat) {
    if base >= 2 && n > 0 {
        vstd::arithmetic::div_mod::lemma_div_is_strictly_smaller(n as int, base as int);
    }
}

/// `n` in decimal, without padding.
pub open spec fn dec(n: nat) -> Seq<char> {
    digits(n, 10, 1)
}

/// `n` in lower-case hexadecimal, zero-padded to `width` digits.
pub open spec fn hex(n: nat, width: nat) -> Seq<char> {
    digits(n, 16, width)
}

/// `n` in binary, zero-padded to `width` digits.
pub open spec fn bin(n: nat, width: nat) -> Seq<char> {
    digits(n, 2, width)
}

/// `k` spaces.
pub open spec fn spaces(k: nat) -> Seq<char> {
    Seq::new(k, |i: int| ' ')
}

fn digit_str(d: u64) -> (r: &'static str)
    requires
        d < 16,
    ensures
        r@ == seq![digit_char(d as nat)],
{
    proof {
        reveal_strlit("0");
        reveal_strlit("1");
        reveal_strlit("2");
        reveal_strlit("3");
        reveal_strlit("4");
        reveal_strlit("5");
        reveal_strlit("6");
        reveal_strlit("7");
        reveal_strlit("8");
        reveal_strlit("9");
        reveal_strlit("a");
        reveal_strlit("b");
        reveal_strlit("c");
        reveal_strlit("d");
        reveal_strlit("e");
        reveal_strlit("f");
    }
    let r = if d == 0 { "0" }
    else if d == 1 { "1" }
    else if d == 2 { "2" }
    else if d == 3 { "3" }
    else if d == 4 { "4" }
    else if d == 5 { "5" }
    else if d == 6 { "6" }
    else if d == 7 { "7" }
    else if d == 8 { "8" }
    else if d == 9 { "9" }
    else if d == 10 { "a" }
    else if d == 11 { "b" }
    else if d == 12 { "c" }
    else if d == 13 { "d" }
    else if d == 14 { "e" }
    else { "f" };
    assert(r@ =~= seq![digit_char(d as nat)]);
    r
}

/// Writes `n` in `base` with at least `width` digits.
pub fn radix_string(n: u64, base: u64, width: u64) -> (r: String)
    requires
        2 <= base <= 16,
    ensures
        r@ == digits(n as nat, base as nat, width as nat),
    decreases n, width,
{
    if n < base && width <= 1 {
        String::from_str(digit_str(n))
    } else {
        let rest: u64 = if width > 0 { width - 1 } else { 0 };
        proof {
            if n > 0 {
                vstd::arithmetic::div_mod::lemma_div_is_strictly_smaller(n as int, base as int);
            }
        }
        let mut s = radix_string(n / base, base, rest);
        s.append(digit_str(n % base));
        s
    }
}

/// `n` in decimal.
pub fn dec_string(n: u64) -> (r: String)
    ensures
        r@ == dec(n as nat),
{
    radix_string(n, 10, 1)
}

/// `n` in lower-case hexadecimal with at least `width` digits.
pub fn hex_string(n: u64, width: u64) -> (r: String)
    ensures
        r@ == hex(n as nat, width as nat),
{
    radix_string(n, 16, width)
}

/// `n` in binary with at least `width` digits.
pub fn bin_string(n: u64, width: u64) -> (r: String)
    ensures
        r@ == bin(n as nat, width as nat),
{
    radix_string(n, 2, width)
}

/// A string of `k` spaces.
pub fn spaces_string(k: usize) -> (r: String)
    ensures
        r@ == spaces(k as nat),
{
    let mut s = String::new();
    let mut i: usize = 0;
    while i < k
        invariant
            i <= k,
            s@ =~= spaces(i as nat),
        decreases k - i,
    {
        proof { reveal_strlit(" "); }
        s.append(" ");
        i = i + 1;
    }
    s
}

} // verus!
