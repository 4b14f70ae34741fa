//! Integers as decimal text.

use vstd::prelude::*;

verus! {

/// Appends one character to a string.
///
/// `String::push` of the standard library appends the given character to the
/// end of the string and leaves what stood before it.
pub assume_specification[ std::string::String::push ](s: &mut std::string::String, c: char)
    ensures
        final(s)@ == old(s)@.push(c),
;

/// The decimal digit of a number below ten.
pub open spec fn digit(d: nat) -> char {
    (48 + d) as char
}

/// The decimal digits of a natural number, most significant first and without
/// leading zeros.
pub open spec fn digits(n: nat) -> Seq<char>
    decreases n,
{
    if n < 10 {
        seq![digit(n)]
    } else {
        digits(n / 10).push(digit(n % 10))
    }
}

/// An integer in decimal, with a minus sign in front of a negative one.
pub open spec fn decimal(i: int) -> Seq<char> {
    if i < 0 {
        seq!['-'] + digits((-i) as nat)
    } else {
        digits(i as nat)
    }
}

/// The natural number that a sequence of decimal digits denotes.
pub open spec fn digits_value(text: Seq<char>) -> int
    decreases text.len(),
{
    if text.len() == 0 {
        0
    } else {
        10 * digits_value(text.drop_last()) + (text.last() as int - 48)
    }
}

/// The integer that a decimal text denotes.
pub open spec fn decimal_value(text: Seq<char>) -> int {
    if text.len() > 0 && text[0] == '-' {
        -digits_value(text.drop_first())
    } else {
        digits_value(text)
    }
}

fn push_digits(text: &mut String, n: u128)
    ensures
        final(text)@ == old(text)@ + digits(n as nat),
    decreases n,
{
    if n >= 10 {
        push_digits(text, n / 10);
    }
    let d: u8 = (n % 10) as u8;
    text.push((48 + d) as char);
}

/// A natural number in decimal.
pub fn natural_text(n: u128) -> (text: String)
    ensures
        text@ == decimal(n as int),
{
    let mut text = String::new();
    push_digits(&mut text, n);
    text
}

/// An integer in decimal.
pub fn integer_text(i: i128) -> (text: String)
    ensures
        text@ == decimal(i as int),
{
    let mut text = String::new();
    if i < 0 {
        text.push('-');
        // `-i` itself may be out of range.
        push_digits(&mut text, (-(i + 1)) as u128 + 1);
    } else {
        push_digits(&mut text, i as u128);
    }
    text
}

proof fn lemma_digits_denote(n: nat)
    ensures
        digits_value(digits(n)) == n,
        digits(n).len() > 0,
        digits(n)[0] != '-',
    decreases n,
{
    reveal_with_fuel(digits_value, 2);
    if n >= 10 {
        lemma_digits_denote(n / 10);
        assert(digits(n).drop_last() == digits(n / 10));
    } else {
        assert(digits(n).drop_last() == Seq::<char>::empty());
    }
}

/// Decimal text loses nothing: it denotes the integer that it was written for.
pub proof fn law_decimal_denotes(i: int)
    ensures
        decimal_value(decimal(i)) == i,
{
    if i < 0 {
        lemma_digits_denote((-i) as nat);
        assert(decimal(i).drop_first() == digits((-i) as nat));
    } else {
        lemma_digits_denote(i as nat);
    }
}

} // verus!
