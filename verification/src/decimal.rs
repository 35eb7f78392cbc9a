//! Decimal text of parameter values.

use vstd::prelude::*;

verus! {

/// The numeral for a value below ten.
pub open spec fn digit(d: nat) -> char
    recommends
        d < 10,
{
    (48 + d) as char
}

/// The decimal text of `n`: most significant digit first, no sign, no padding.
pub open spec fn digits(n: nat) -> Seq<char>
    decreases n,
{
    if n < 10 {
        seq![digit(n)]
    } else {
        digits(n / 10).push(digit(n % 10))
    }
}

/// Whether `c` is one of the ten numerals `0` to `9`.
pub open spec fn is_numeral(c: char) -> bool {
    '0' <= c <= '9'
}

/// The number that a text of numerals denotes in base ten.
pub open spec fn value(text: Seq<char>) -> nat
    decreases text.len(),
{
    if text.len() == 0 {
        0
    } else {
        (value(text.drop_last()) * 10 + (text.last() as nat - 48)) as nat
    }
}

/// A decimal text is never empty and holds numerals only.
pub proof fn lemma_digits_numerals(n: nat)
    ensures
        digits(n).len() >= 1,
        forall|i: int| 0 <= i < digits(n).len() ==> is_numeral(#[trigger] digits(n)[i]),
    decreases n,
{
    if n >= 10 {
        lemma_digits_numerals(n / 10);
    }
}

/// Reading a decimal text gives back the number it was written from.
pub proof fn lemma_digits_value(n: nat)
    ensures
        value(digits(n)) == n,
    decreases n,
{
    if n < 10 {
        assert(digits(n).drop_last() =~= Seq::<char>::empty());
        assert(value(digits(n).drop_last()) == 0);
    } else {
        lemma_digits_value(n / 10);
        assert(digits(n).drop_last() =~= digits(n / 10));
    }
}

/// Different numbers have different decimal texts.
pub proof fn lemma_digits_distinct(a: nat, b: nat)
    requires
        a != b,
    ensures
        digits(a) != digits(b),
{
    lemma_digits_value(a);
    lemma_digits_value(b);
}

fn push_digits(text: &mut String, n: usize)
    ensures
        final(text)@ == old(text)@ + digits(n as nat),
    decreases n,
{
    if n >= 10 {
        push_digits(text, n / 10);
    }
    let d: u8 = (n % 10) as u8;
    text.push((48 + d) as char);
}

/// Renders `n` in decimal.
pub fn render(n: usize) -> (text: String)
    ensures
        text@ == digits(n as nat),
{
    let mut text = String::new();
    push_digits(&mut text, n);
    text
}

} // verus!
