//! Decimal rendering of unsigned integers, verified against its
//! specification.
//!
//! Command lines carry numbers — ports, thread counts, timestamps — and the
//! contracts of the command builders speak of the decimal text of those
//! numbers, so the rendering itself is verified here.

use vstd::prelude::*;
use vstd::string::StringExecFns;

verus! {

/// The character of one decimal digit.
pub open spec fn spec_digit_char(d: u64) -> char {
    if d == 0 {
        '0'
    } else if d == 1 {
        '1'
    } else if d == 2 {
        '2'
    } else if d == 3 {
        '3'
    } else if d == 4 {
        '4'
    } else if d == 5 {
        '5'
    } else if d == 6 {
        '6'
    } else if d == 7 {
        '7'
    } else if d == 8 {
        '8'
    } else {
        '9'
    }
}

/// The decimal rendering of an unsigned integer, most significant digit
/// first, with no leading zeros (but `"0"` for zero).
pub open spec fn spec_u64_string(n: u64) -> Seq<char>
    decreases n,
{
    if n < 10 {
        seq![spec_digit_char(n)]
    } else {
        spec_u64_string(n / 10) + seq![spec_digit_char(n % 10)]
    }
}

/// The numeric value a digit character denotes.
pub open spec fn spec_digit_value(c: char) -> u64 {
    if c == '0' {
        0
    } else if c == '1' {
        1
    } else if c == '2' {
        2
    } else if c == '3' {
        3
    } else if c == '4' {
        4
    } else if c == '5' {
        5
    } else if c == '6' {
        6
    } else if c == '7' {
        7
    } else if c == '8' {
        8
    } else {
        9
    }
}

/// The number a run of digit characters denotes.
pub open spec fn spec_digits_value(s: Seq<char>) -> int
    decreases s.len(),
{
    if s.len() == 0 {
        0
    } else {
        spec_digits_value(s.drop_last()) * 10 + spec_digit_value(s.last())
    }
}

/// A digit character denotes the digit it was made from.
pub proof fn lemma_digit_value_of_char(d: u64)
    requires
        d < 10,
    ensures
        spec_digit_value(spec_digit_char(d)) == d,
{
}

/// The rendering of a number denotes that number back.
pub proof fn lemma_u64_string_value(n: u64)
    ensures
        spec_digits_value(spec_u64_string(n)) == n,
    decreases n,
{
    if n < 10 {
        lemma_digit_value_of_char(n);
        let s = spec_u64_string(n);
        assert(s == seq![spec_digit_char(n)]);
        assert(s.len() == 1);
        assert(s.drop_last() =~= Seq::<char>::empty());
        assert(s.last() == spec_digit_char(n));
        assert(spec_digits_value(Seq::<char>::empty()) == 0);
        assert(spec_digits_value(s) == spec_digits_value(s.drop_last()) * 10 + spec_digit_value(
            s.last(),
        ));
    } else {
        lemma_digit_value_of_char(n % 10);
        lemma_u64_string_value(n / 10);
        let prefix = spec_u64_string(n / 10);
        let s = prefix + seq![spec_digit_char(n % 10)];
        assert(s.drop_last() =~= prefix);
        assert(s.last() == spec_digit_char(n % 10));
        assert(n / 10 * 10 + n % 10 == n) by (nonlinear_arith);
    }
}

/// Distinct numbers render to distinct texts.
pub proof fn lemma_u64_string_injective(a: u64, b: u64)
    requires
        a != b,
    ensures
        spec_u64_string(a) != spec_u64_string(b),
{
    lemma_u64_string_value(a);
    lemma_u64_string_value(b);
}

/// One decimal digit as text.
fn digit_str(d: u64) -> (r: &'static str)
    requires
        d < 10,
    ensures
        r@ == seq![spec_digit_char(d)],
{
    proof {
        reveal_strlit("0");
        reveal_strlit("1");
        reveal_strlit("2");
        reveal_strlit("3");
        reveal_strlit("4");
        reveal_strlit("5");
        reveal_strlit("6");
        reveal_strlit("7");
        reveal_strlit("8");
        reveal_strlit("9");
    }
    let r = if d == 0 {
        "0"
    } else if d == 1 {
        "1"
    } else if d == 2 {
        "2"
    } else if d == 3 {
        "3"
    } else if d == 4 {
        "4"
    } else if d == 5 {
        "5"
    } else if d == 6 {
        "6"
    } else if d == 7 {
        "7"
    } else if d == 8 {
        "8"
    } else {
        "9"
    };
    proof {
        assert(r@ =~= seq![spec_digit_char(d)]);
    }
    r
}

/// Render an unsigned integer as decimal text.
pub fn u64_to_string(n: u64) -> (r: String)
    ensures
        r@ == spec_u64_string(n),
    decreases n,
{
    if n < 10 {
        String::from_str(digit_str(n))
    } else {
        let mut prefix = u64_to_string(n / 10);
        prefix.append(digit_str(n % 10));
        prefix
    }
}

} // verus!
