//! Text that is safe to show on a terminal.

use vstd::prelude::*;
use vstd::string::StringExecFns;

use crate::text;
use crate::text::push_hexadecimal;

verus! {

/// Whether a character controls the terminal or the direction of text: the
/// C0 and C1 controls, delete, and the bidirectional formatting characters.
pub open spec fn is_unsafe_char(character: char) -> bool {
    let value = character as u32;
    ||| value <= 0x1f
    ||| 0x7f <= value <= 0x9f
    ||| value == 0x61c
    ||| value == 0x200e
    ||| value == 0x200f
    ||| 0x202a <= value <= 0x202e
    ||| 0x2066 <= value <= 0x2069
}

/// What is shown for one character.
pub open spec fn escaped_char(character: char) -> Seq<char> {
    if is_unsafe_char(character) {
        "\\u{"@ + text::hexadecimal((character as u32) as nat) + "}"@
    } else {
        seq![character]
    }
}

/// What is shown for a text.
pub open spec fn escaped(text: Seq<char>) -> Seq<char>
    decreases text.len(),
{
    if text.len() == 0 {
        Seq::empty()
    } else {
        escaped(text.drop_last()) + escaped_char(text.last())
    }
}

/// Returns whether a character controls the terminal or the direction of text.
pub fn is_unsafe(character: char) -> (found: bool)
    ensures
        found == is_unsafe_char(character),
{
    let value: u32 = character as u32;
    value <= 0x1f || (0x7f <= value && value <= 0x9f) || value == 0x61c || value == 0x200e || value
        == 0x200f || (0x202a <= value && value <= 0x202e) || (0x2066 <= value && value <= 0x2069)
}

/// Returns the text with every unsafe character spelled as `\u{..}`.
pub fn escape_terminal_text(text: &str) -> (shown: String)
    ensures
        shown@ == escaped(text@),
{
    let mut shown = String::new();
    assert(text@.take(0) =~= Seq::<char>::empty());
    for character in chars: text.chars()
        invariant
            chars.seq() == text@,
            shown@ == escaped(text@.take(chars.index() as int)),
    {
        let ghost taken = text@.take(chars.index() + 1);
        assert(taken.drop_last() =~= text@.take(chars.index() as int));
        assert(character == text@[chars.index() as int]);
        if is_unsafe(character) {
            shown.append("\\u{");
            push_hexadecimal(&mut shown, character as u32);
            shown.append("}");
        } else {
            shown.push(character);
        }
        assert(shown@ =~= escaped(taken));
    }
    assert(text@.take(text@.len() as int) =~= text@);
    shown
}

/// Hexadecimal digits are safe to show.
proof fn lemma_hexadecimal_is_safe(number: nat)
    ensures
        forall|i: int|
            0 <= i < text::hexadecimal(number).len() ==> !is_unsafe_char(
                #[trigger] text::hexadecimal(number)[i],
            ),
    decreases number,
{
    if number >= 16 {
        lemma_hexadecimal_is_safe(number / 16);
        let before = text::hexadecimal(number / 16);
        assert forall|i: int| 0 <= i < text::hexadecimal(number).len() implies !is_unsafe_char(
            #[trigger] text::hexadecimal(number)[i],
        ) by {
            if i < before.len() {
                assert(text::hexadecimal(number)[i] == before[i]);
            }
        }
    }
}

/// What is shown holds no character that controls the terminal or the
/// direction of text.
pub proof fn law_escaped_text_is_safe(text: Seq<char>)
    ensures
        forall|i: int| 0 <= i < escaped(text).len() ==> !is_unsafe_char(#[trigger] escaped(text)[i]),
    decreases text.len(),
{
    if text.len() > 0 {
        law_escaped_text_is_safe(text.drop_last());
        let before = escaped(text.drop_last());
        let added = escaped_char(text.last());
        lemma_hexadecimal_is_safe((text.last() as u32) as nat);
        reveal_strlit("\\u{");
        reveal_strlit("}");
        let digits = text::hexadecimal((text.last() as u32) as nat);
        assert forall|i: int| 0 <= i < added.len() implies !is_unsafe_char(#[trigger] added[i]) by {
            if is_unsafe_char(text.last()) {
                if 3 <= i < 3 + digits.len() {
                    assert(added[i] == digits[i - 3]);
                }
            }
        }
        assert forall|i: int| 0 <= i < escaped(text).len() implies !is_unsafe_char(
            #[trigger] escaped(text)[i],
        ) by {
            if i < before.len() {
                assert(escaped(text)[i] == before[i]);
            } else {
                assert(escaped(text)[i] == added[i - before.len()]);
            }
        }
    }
}

/// A text without such characters is shown as it is.
pub proof fn law_safe_text_is_shown_unchanged(text: Seq<char>)
    requires
        forall|i: int| 0 <= i < text.len() ==> !is_unsafe_char(#[trigger] text[i]),
    ensures
        escaped(text) == text,
    decreases text.len(),
{
    if text.len() > 0 {
        let before = text.drop_last();
        assert forall|i: int| 0 <= i < before.len() implies !is_unsafe_char(
            #[trigger] before[i],
        ) by {
            assert(before[i] == text[i]);
        }
        law_safe_text_is_shown_unchanged(before);
        assert(escaped(text) =~= text);
    } else {
        assert(escaped(text) =~= text);
    }
}

} // verus!
