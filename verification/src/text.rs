//! Integers written out in decimal, for identifiers and request parameters.

use vstd::prelude::*;

verus! {

/// `String::push` appends one character to the end of the string.
pub assume_specification[ String::push ](text: &mut String, ch: char)
    ensures
        final(text)@ == old(text)@.push(ch),
;

/// The character that stands for a digit from 0 to 9.
pub open spec fn digit_char(digit: int) -> char {
    if digit == 0 {
        '0'
    } else if digit == 1 {
        '1'
    } else if digit == 2 {
        '2'
    } else if digit == 3 {
        '3'
    } else if digit == 4 {
        '4'
    } else if digit == 5 {
        '5'
    } else if digit == 6 {
        '6'
    } else if digit == 7 {
        '7'
    } else if digit == 8 {
        '8'
    } else {
        '9'
    }
}

/// The decimal digits of a natural number, without leading zeros.
pub open spec fn unsigned_decimal(n: nat) -> Seq<char>
    decreases n,
{
    if n < 10 {
        seq![digit_char(n as int)]
    } else {
        unsigned_decimal(n / 10).push(digit_char((n % 10) as int))
    }
}

/// An integer in decimal, with a minus sign in front where it is negative.
pub open spec fn decimal(n: int) -> Seq<char> {
    if n < 0 {
        seq!['-'] + unsigned_decimal((-n) as nat)
    } else {
        unsigned_decimal(n as nat)
    }
}

fn digit_to_char(digit: u64) -> (ch: char)
    requires
        digit < 10,
    ensures
        ch == digit_char(digit as int),
{
    if digit == 0 {
        '0'
    } else if digit == 1 {
        '1'
    } else if digit == 2 {
        '2'
    } else if digit == 3 {
        '3'
    } else if digit == 4 {
        '4'
    } else if digit == 5 {
        '5'
    } else if digit == 6 {
        '6'
    } else if digit == 7 {
        '7'
    } else if digit == 8 {
        '8'
    } else {
        '9'
    }
}

/// Appends the decimal digits of `n` to `text`.
fn push_unsigned(text: &mut String, n: u64)
    ensures
        final(text)@ == old(text)@ + unsigned_decimal(n as nat),
{
    let mut rest: u64 = n;
    let mut low_first: Vec<char> = Vec::new();
    while rest >= 10
        invariant
            unsigned_decimal(n as nat) == unsigned_decimal(rest as nat) + low_first@.reverse(),
        decreases rest,
    {
        let ch = digit_to_char(rest % 10);
        proof {
            let longer = low_first@.push(ch);
            assert(longer.reverse() =~= seq![ch] + low_first@.reverse());
            assert(unsigned_decimal((rest / 10) as nat).push(ch) + low_first@.reverse()
                =~= unsigned_decimal((rest / 10) as nat) + longer.reverse());
        }
        low_first.push(ch);
        rest = rest / 10;
    }
    let ch = digit_to_char(rest);
    proof {
        let longer = low_first@.push(ch);
        assert(longer.reverse() =~= seq![ch] + low_first@.reverse());
    }
    low_first.push(ch);
    let mut left: usize = low_first.len();
    while left > 0
        invariant
            left <= low_first.len(),
            low_first@.reverse() == unsigned_decimal(n as nat),
            text@ == old(text)@ + low_first@.reverse().subrange(0, low_first.len() - left),
        decreases left,
    {
        left = left - 1;
        let ch = low_first[left];
        proof {
            let digits = low_first@.reverse();
            let done = low_first.len() - left - 1;
            assert(digits.subrange(0, done + 1) =~= digits.subrange(0, done).push(ch));
            assert((old(text)@ + digits.subrange(0, done)).push(ch) =~= old(text)@
                + digits.subrange(0, done + 1));
        }
        text.push(ch);
    }
    proof {
        let digits = low_first@.reverse();
        assert(digits.subrange(0, digits.len() as int) =~= digits);
    }
}

/// The position of a row in its stream, written in decimal.
pub fn index_to_string(index: usize) -> (text: String)
    ensures
        text@ == decimal(index as int),
{
    let mut text = String::new();
    push_unsigned(&mut text, index as u64);
    assert(text@ =~= unsigned_decimal(index as nat));
    text
}

/// A signed integer written in decimal.
pub fn int_to_string(n: i64) -> (text: String)
    ensures
        text@ == decimal(n as int),
{
    let mut text = String::new();
    if n < 0 {
        text.push('-');
        let magnitude: u64 = if n == i64::MIN {
            9_223_372_036_854_775_808
        } else {
            (-n) as u64
        };
        push_unsigned(&mut text, magnitude);
    } else {
        push_unsigned(&mut text, n as u64);
        assert(text@ =~= unsigned_decimal(n as nat));
    }
    text
}

/// Whether `text` is among the first `upto` of the texts.
pub fn contains_text_before(texts: &Vec<String>, upto: usize, text: &String) -> (found: bool)
    requires
        upto <= texts.len(),
    ensures
        found == texts.deep_view().take(upto as int).contains(text@),
{
    let mut i: usize = 0;
    while i < upto
        invariant
            i <= upto <= texts.len(),
            forall|j: int| 0 <= j < i ==> texts.deep_view()[j] != text@,
        decreases upto - i,
    {
        if texts[i] == *text {
            assert(texts.deep_view().take(upto as int)[i as int] == text@);
            return true;
        }
        i = i + 1;
    }
    false
}

/// Whether `text` is among the texts.
pub fn contains_text(texts: &Vec<String>, text: &String) -> (found: bool)
    ensures
        found == texts.deep_view().contains(text@),
{
    assert(texts.deep_view().take(texts.len() as int) =~= texts.deep_view());
    contains_text_before(texts, texts.len(), text)
}

} // verus!
