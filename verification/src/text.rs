//! Text building blocks: equality, ordering, and decimal and hexadecimal
//! rendering over the character views of strings.

use vstd::prelude::*;
use vstd::string::StringExecFns;

verus! {

/// `String::push` appends exactly the given character.
pub assume_specification[ std::string::String::push ](target: &mut std::string::String, added: char)
    ensures
        final(target)@ == old(target)@.push(added),
;

/// The UTF-8 bytes of a text.
pub open spec fn utf8(text: Seq<char>) -> Seq<u8> {
    vstd::utf8::encode_utf8(text)
}

/// Texts with equal UTF-8 bytes are equal.
pub proof fn lemma_utf8_injective(left: Seq<char>, right: Seq<char>)
    ensures
        utf8(left) == utf8(right) ==> left == right,
{
    vstd::utf8::encode_utf8_decode_utf8(left);
    vstd::utf8::encode_utf8_decode_utf8(right);
}

/// The bytes of texts in a row are the texts' bytes in a row.
pub proof fn lemma_utf8_concat(left: Seq<char>, right: Seq<char>)
    ensures
        utf8(left + right) == utf8(left) + utf8(right),
    decreases left.len(),
{
    if left.len() == 0 {
        assert(left + right =~= right);
        assert(utf8(left) + utf8(right) =~= utf8(right));
    } else {
        assert((left + right).drop_first() =~= left.drop_first() + right);
        lemma_utf8_concat(left.drop_first(), right);
        assert(utf8(left + right) =~= utf8(left) + utf8(right));
    }
}

/// Returns whether two byte slices hold the same bytes.
pub fn bytes_equal(left: &[u8], right: &[u8]) -> (equal: bool)
    ensures
        equal == (left@ == right@),
{
    if left.len() != right.len() {
        return false;
    }
    let mut index: usize = 0;
    while index < left.len()
        invariant
            left@.len() == right@.len(),
            index <= left@.len(),
            left@.take(index as int) =~= right@.take(index as int),
        decreases left@.len() - index,
    {
        if left[index] != right[index] {
            assert(left@[index as int] != right@[index as int]);
            return false;
        }
        assert(left@.take(index + 1) =~= left@.take(index as int).push(left@[index as int]));
        assert(right@.take(index + 1) =~= right@.take(index as int).push(right@[index as int]));
        index = index + 1;
    }
    assert(left@ =~= left@.take(left@.len() as int));
    assert(right@ =~= right@.take(right@.len() as int));
    true
}

/// Returns whether two texts hold the same characters.
pub fn text_equal(left: &str, right: &str) -> (equal: bool)
    ensures
        equal == (left@ == right@),
{
    proof {
        lemma_utf8_injective(left@, right@);
    }
    bytes_equal(left.as_bytes(), right.as_bytes())
}

/// The decimal digit character for a value below ten.
pub open spec fn digit_char(digit: int) -> char {
    (48 + digit) as char
}

/// The decimal spelling of a natural number, without leading zeros.
pub open spec fn decimal(number: nat) -> Seq<char>
    decreases number,
{
    if number < 10 {
        seq![digit_char(number as int)]
    } else {
        decimal(number / 10).push(digit_char((number % 10) as int))
    }
}

/// Appends the decimal spelling of `number`.
pub fn push_decimal(out: &mut String, number: u64)
    ensures
        final(out)@ == old(out)@ + decimal(number as nat),
    decreases number,
{
    let ghost before = out@;
    if number >= 10 {
        push_decimal(out, number / 10);
    }
    let digit: u8 = (number % 10) as u8;
    out.push((48 + digit) as char);
    assert(out@ =~= before + decimal(number as nat));
}

/// Returns the decimal spelling of `number`.
pub fn decimal_text(number: u64) -> (text: String)
    ensures
        text@ == decimal(number as nat),
{
    let mut text = String::new();
    push_decimal(&mut text, number);
    assert(text@ =~= decimal(number as nat));
    text
}

/// The lowercase hexadecimal digit character for a value below sixteen.
pub open spec fn hex_digit_char(digit: int) -> char {
    if digit < 10 {
        (48 + digit) as char
    } else {
        (87 + digit) as char
    }
}

/// The lowercase hexadecimal spelling of a natural number, without leading zeros.
pub open spec fn hexadecimal(number: nat) -> Seq<char>
    decreases number,
{
    if number < 16 {
        seq![hex_digit_char(number as int)]
    } else {
        hexadecimal(number / 16).push(hex_digit_char((number % 16) as int))
    }
}

/// Returns the lowercase hexadecimal digit of a value below sixteen.
pub fn hex_digit(digit: u8) -> (character: char)
    requires
        digit < 16,
    ensures
        character == hex_digit_char(digit as int),
{
    if digit < 10 {
        (48 + digit) as char
    } else {
        (87 + digit) as char
    }
}

/// Appends the lowercase hexadecimal spelling of `number`.
pub fn push_hexadecimal(out: &mut String, number: u32)
    ensures
        final(out)@ == old(out)@ + hexadecimal(number as nat),
    decreases number,
{
    let ghost before = out@;
    if number >= 16 {
        push_hexadecimal(out, number / 16);
    }
    let digit: u8 = (number % 16) as u8;
    out.push(hex_digit(digit));
    assert(out@ =~= before + hexadecimal(number as nat));
}

/// Returns `prefix`, the decimal spelling of `number`, and `suffix`, in that order.
pub fn text_around_number(prefix: &str, number: u64, suffix: &str) -> (text: String)
    ensures
        text@ == prefix@ + decimal(number as nat) + suffix@,
{
    let mut text = prefix.to_owned();
    push_decimal(&mut text, number);
    text.append(suffix);
    text
}

} // verus!
