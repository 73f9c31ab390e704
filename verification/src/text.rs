//! Building texts: numbers in decimal notation and lists of them.

use vstd::prelude::*;

verus! {

/// Calls `String::push_str`. Trusted: the text grows by the piece.
#[verifier::external_body]
pub(crate) fn append(text: &mut String, piece: &str)
    ensures
        final(text)@ == old(text)@ + piece@,
{
    text.push_str(piece)
}

/// Calls `String::push`. Trusted: the text grows by the letter.
#[verifier::external_body]
pub(crate) fn append_letter(text: &mut String, letter: char)
    ensures
        final(text)@ == old(text)@.push(letter),
{
    text.push(letter)
}

/// The decimal digit for a number below ten.
pub open spec fn digit(value: nat) -> char {
    ('0' as u8 + value) as char
}

/// A natural number in decimal notation, without leading zeros.
pub open spec fn decimal(value: nat) -> Seq<char>
    decreases value,
{
    if value < 10 {
        seq![digit(value)]
    } else {
        decimal(value / 10).push(digit(value % 10))
    }
}

/// An integer in decimal notation, with a minus sign if it is negative.
pub open spec fn signed_decimal(value: int) -> Seq<char> {
    if value < 0 {
        seq!['-'] + decimal((-value) as nat)
    } else {
        decimal(value as nat)
    }
}

/// Numbers in decimal notation with `separator` between them.
pub open spec fn joined(values: Seq<u32>, separator: Seq<char>) -> Seq<char>
    decreases values.len(),
{
    if values.len() == 0 {
        Seq::empty()
    } else if values.len() == 1 {
        decimal(values[0] as nat)
    } else {
        joined(values.drop_last(), separator) + separator + decimal(values.last() as nat)
    }
}

/// Appends a natural number in decimal notation.
pub fn append_decimal(text: &mut String, value: u64)
    ensures
        final(text)@ == old(text)@ + decimal(value as nat),
    decreases value,
{
    if value >= 10 {
        append_decimal(text, value / 10);
    }
    let low: u8 = (value % 10) as u8;
    append_letter(text, ('0' as u8 + low) as char);
}

/// Appends an integer in decimal notation.
pub fn append_signed(text: &mut String, value: i64)
    ensures
        final(text)@ == old(text)@ + signed_decimal(value as int),
{
    if value < 0 {
        append_letter(text, '-');
        append_decimal(text, (-(value as i128)) as u64);
    } else {
        append_decimal(text, value as u64);
    }
}

/// Appends numbers in decimal notation with `separator` between them.
pub fn append_joined(text: &mut String, values: &Vec<u32>, separator: &str)
    ensures
        final(text)@ == old(text)@ + joined(values@, separator@),
{
    let mut index: usize = 0;
    while index < values.len()
        invariant
            index <= values.len(),
            text@ == old(text)@ + joined(values@.take(index as int), separator@),
        decreases values.len() - index,
    {
        if index > 0 {
            append(text, separator);
        }
        append_decimal(text, values[index] as u64);
        proof {
            let done = values@.take(index + 1);
            assert(done.drop_last() =~= values@.take(index as int));
        }
        index += 1;
    }
    assert(values@.take(index as int) =~= values@);
}

} // verus!
