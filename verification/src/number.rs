//! Decimal text of integers, as `Display` writes them.
use vstd::prelude::*;
use vstd::string::*;
use crate::text::push_char;

verus! {

/// The decimal digit character for `d`.
pub open spec fn digit_of(d: nat) -> char {
    (48 + d) as char
}

/// The decimal digits of `n`, without leading zeros.
pub open spec fn decimal(n: nat) -> Seq<char>
    decreases n,
{
    if n < 10 {
        seq![digit_of(n)]
    } else {
        decimal(n / 10) + seq![digit_of(n % 10)]
    }
}

/// The decimal text of a signed integer: a minus sign before negatives.
pub open spec fn signed_decimal(v: int) -> Seq<char> {
    if v < 0 {
        seq!['-'] + decimal((-v) as nat)
    } else {
        decimal(v as nat)
    }
}

/// Appends the decimal digits of `n` to `out`.
pub fn push_decimal(out: &mut String, n: u64)
    ensures
        final(out)@ == old(out)@ + decimal(n as nat),
    decreases n,
{
    if n >= 10 {
        push_decimal(out, n / 10);
    }
    let d = (n % 10) as u8;
    push_char(out, (48 + d) as char);
    assert(old(out)@ + decimal(n as nat) =~= final(out)@) by {
        if n >= 10 {
            assert(decimal(n as nat) == decimal((n / 10) as nat) + seq![digit_of((n % 10) as nat)]);
        }
    }
}

/// The decimal text of `n`.
pub fn u64_to_decimal(n: u64) -> (r: String)
    ensures
        r@ == decimal(n as nat),
{
    let mut out = String::new();
    push_decimal(&mut out, n);
    assert(out@ =~= decimal(n as nat));
    out
}

/// The decimal text of `v`.
pub fn i64_to_decimal(v: i64) -> (r: String)
    ensures
        r@ == signed_decimal(v as int),
{
    let mut out = String::new();
    if v < 0 {
        push_char(&mut out, '-');
        let m: u64 = ((-(v + 1)) as u64) + 1;
        push_decimal(&mut out, m);
    } else {
        push_decimal(&mut out, v as u64);
        assert(out@ =~= decimal(v as nat));
    }
    out
}

/// `n` zero characters.
pub open spec fn zeros(n: int) -> Seq<char> {
    Seq::new(if n > 0 { n as nat } else { 0 }, |i: int| '0')
}

/// The text that `{:0w}` gives for `v`: its sign, then zeros up to the
/// width `w` (which counts the sign), then its digits.
pub open spec fn zero_padded(v: int, w: int) -> Seq<char> {
    let digits = decimal((if v < 0 { -v } else { v }) as nat);
    if v < 0 {
        seq!['-'] + zeros(w - 1 - digits.len()) + digits
    } else {
        zeros(w - digits.len()) + digits
    }
}

/// `v` in decimal, with zeros after the sign up to `width` characters.
pub fn pad_zeros(v: i64, width: usize) -> (r: String)
    ensures
        r@ == zero_padded(v as int, width as int),
{
    let negative = v < 0;
    let magnitude: u64 = if negative { ((-(v + 1)) as u64) + 1 } else { v as u64 };
    let digits = u64_to_decimal(magnitude);
    let mut out = String::new();
    if negative {
        push_char(&mut out, '-');
    }
    let used: usize = if negative { 1 } else { 0 };
    let n = digits.unicode_len();
    let mut k: usize = 0;
    let fill: usize = if n < width && width - n > used { width - n - used } else { 0 };
    let ghost start = out@;
    while k < fill
        invariant
            k <= fill,
            out@ == start + zeros(k as int),
        decreases fill - k,
    {
        push_char(&mut out, '0');
        k = k + 1;
        assert(out@ =~= start + zeros(k as int));
    }
    let r = out.concat(digits.as_str());
    assert(r@ =~= zero_padded(v as int, width as int));
    r
}

} // verus!
