//! Decimal rendering of integers, as `{}` and `{:02}` print them.

use vstd::prelude::*;

verus! {

/// The character of the decimal digit `d` (`0 <= d < 10`).
pub open spec fn digit_char(d: int) -> char {
    if d == 0 { '0' }
    else if d == 1 { '1' }
    else if d == 2 { '2' }
    else if d == 3 { '3' }
    else if d == 4 { '4' }
    else if d == 5 { '5' }
    else if d == 6 { '6' }
    else if d == 7 { '7' }
    else if d == 8 { '8' }
    else { '9' }
}

/// The decimal digits of `n`, most significant first, without leading zeros.
pub open spec fn decimal(n: nat) -> Seq<char>
    decreases n,
{
    if n < 10 {
        seq![digit_char(n as int)]
    } else {
        decimal(n / 10).push(digit_char((n % 10) as int))
    }
}

/// A signed integer as `{}` prints it: a minus sign, then the digits of its magnitude.
pub open spec fn signed_decimal(v: int) -> Seq<char> {
    if v >= 0 { decimal(v as nat) } else { seq!['-'] + decimal((-v) as nat) }
}

/// A signed integer as `{:02}` prints it: zero-padded to at least two characters,
/// the padding going after the sign.
pub open spec fn pad2(v: int) -> Seq<char> {
    if 0 <= v < 10 { seq!['0'] + decimal(v as nat) } else { signed_decimal(v) }
}

/// The one-character literal of the digit `d`.
fn digit_str(d: u64) -> (s: &'static str)
    requires
        d < 10,
    ensures
        s@ == seq![digit_char(d as int)],
{
    if d == 0 {
        proof { reveal_strlit("0"); }
        "0"
    } else if d == 1 {
        proof { reveal_strlit("1"); }
        "1"
    } else if d == 2 {
        proof { reveal_strlit("2"); }
        "2"
    } else if d == 3 {
        proof { reveal_strlit("3"); }
        "3"
    } else if d == 4 {
        proof { reveal_strlit("4"); }
        "4"
    } else if d == 5 {
        proof { reveal_strlit("5"); }
        "5"
    } else if d == 6 {
        proof { reveal_strlit("6"); }
        "6"
    } else if d == 7 {
        proof { reveal_strlit("7"); }
        "7"
    } else if d == 8 {
        proof { reveal_strlit("8"); }
        "8"
    } else {
        proof { reveal_strlit("9"); }
        "9"
    }
}

/// Appends the decimal digits of `n` to `out`.
pub fn push_decimal(out: &mut String, n: u64)
    ensures
        final(out)@ == old(out)@ + decimal(n as nat),
    decreases n,
{
    if n >= 10 {
        push_decimal(out, n / 10);
        out.append(digit_str(n % 10));
        assert(decimal(n as nat) == decimal((n / 10) as nat).push(digit_char((n % 10) as int)));
    } else {
        out.append(digit_str(n));
    }
}

/// The magnitude of `v`, which fits `u64` for every `i64`.
fn magnitude(v: i64) -> (m: u64)
    ensures
        m as int == if v >= 0 { v as int } else { -(v as int) },
{
    if v >= 0 {
        v as u64
    } else {
        (-(v + 1)) as u64 + 1
    }
}

/// Appends `v` as `{}` prints it.
pub fn push_signed_decimal(out: &mut String, v: i64)
    ensures
        final(out)@ == old(out)@ + signed_decimal(v as int),
{
    if v >= 0 {
        push_decimal(out, v as u64);
    } else {
        proof { reveal_strlit("-"); }
        out.append("-");
        push_decimal(out, magnitude(v));
    }
}

/// Appends `v` as `{:02}` prints it.
pub fn push_pad2(out: &mut String, v: i64)
    ensures
        final(out)@ == old(out)@ + pad2(v as int),
{
    if 0 <= v && v < 10 {
        proof { reveal_strlit("0"); }
        out.append("0");
        push_decimal(out, v as u64);
    } else {
        push_signed_decimal(out, v);
    }
}

/// `n` as `{}` prints it.
pub fn to_decimal(n: u64) -> (s: String)
    ensures
        s@ == decimal(n as nat),
{
    let mut s = String::new();
    push_decimal(&mut s, n);
    s
}

/// The number a string of decimal digits stands for.
pub open spec fn digits_value(s: Seq<char>) -> int
    decreases s.len(),
{
    if s.len() == 0 { 0 } else { digits_value(s.drop_last()) * 10 + (s.last() as int - '0' as int) }
}

/// Each digit character is the ASCII digit of its value.
pub proof fn law_digit_chars_are_ascii_digits(d: int)
    requires
        0 <= d < 10,
    ensures
        digit_char(d) as int == '0' as int + d,
{
}

/// The digits written for `n` read back as `n`, and start with a nonzero digit unless `n` is 0.
pub proof fn law_decimal_reads_back(n: nat)
    ensures
        digits_value(decimal(n)) == n,
        decimal(n).len() >= 1,
        n > 0 ==> decimal(n)[0] != '0',
    decreases n,
{
    law_digit_chars_are_ascii_digits((n % 10) as int);
    if n >= 10 {
        law_decimal_reads_back(n / 10);
        let s = decimal(n);
        assert(s.drop_last() =~= decimal(n / 10));
        assert(s[0] == decimal(n / 10)[0]);
        assert(s.last() == digit_char((n % 10) as int));
        assert((n / 10) * 10 + n % 10 == n) by (nonlinear_arith);
        assert(digits_value(s) == digits_value(decimal(n / 10)) * 10 + (n % 10));
    } else {
        law_digit_chars_are_ascii_digits(n as int);
        let s = seq![digit_char(n as int)];
        assert(s.drop_last() =~= Seq::<char>::empty());
        assert(digits_value(Seq::<char>::empty()) == 0);
        assert(digits_value(s) == digits_value(s.drop_last()) * 10 + (s.last() as int - '0' as int));
    }
}

/// A field from 0 to 99 is printed as exactly two digits, tens first.
pub proof fn law_two_digit_fields(v: int)
    requires
        0 <= v < 100,
    ensures
        pad2(v) == seq![digit_char(v / 10), digit_char(v % 10)],
{
    if v < 10 {
        assert(pad2(v) =~= seq![digit_char(0), digit_char(v)]);
    } else {
        assert(decimal((v / 10) as nat) == seq![digit_char(v / 10)]);
        assert(pad2(v) =~= seq![digit_char(v / 10), digit_char(v % 10)]);
    }
}

} // verus!
