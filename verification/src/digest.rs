//! SHA-256 digests and their textual form.

use vstd::prelude::*;

use crate::text;
use crate::text::hex_digit;

verus! {

/// A SHA-256 digest.
#[derive(Clone, Copy, Debug, PartialEq, Eq)]
pub struct Sha256Digest(pub [u8; 32]);

/// The two lowercase hexadecimal digits of each byte, in order.
pub open spec fn hex_text(bytes: Seq<u8>) -> Seq<char>
    decreases bytes.len(),
{
    if bytes.len() == 0 {
        Seq::empty()
    } else {
        hex_text(bytes.drop_last()).push(text::hex_digit_char(bytes.last() as int / 16)).push(
            text::hex_digit_char(bytes.last() as int % 16),
        )
    }
}

/// The textual form of a digest: its hexadecimal digits after `sha256:`.
pub open spec fn prefixed_hex(digest: Seq<u8>) -> Seq<char> {
    "sha256:"@ + hex_text(digest)
}

impl Sha256Digest {
    /// Returns `sha256:` followed by the lowercase hexadecimal digits.
    pub fn to_prefixed_hex(&self) -> (text: String)
        ensures
            text@ == prefixed_hex(self.0@),
    {
        let mut text = "sha256:".to_owned();
        let mut index: usize = 0;
        assert(self.0@.take(0) =~= Seq::<u8>::empty());
        assert(text@ =~= "sha256:"@ + hex_text(self.0@.take(0)));
        while index < 32
            invariant
                index <= 32,
                self.0@.len() == 32,
                text@ == "sha256:"@ + hex_text(self.0@.take(index as int)),
            decreases 32 - index,
        {
            let byte: u8 = self.0[index];
            let ghost taken = self.0@.take(index + 1);
            assert(taken.drop_last() =~= self.0@.take(index as int));
            text.push(hex_digit(byte / 16));
            text.push(hex_digit(byte % 16));
            assert(text@ =~= "sha256:"@ + hex_text(taken));
            index = index + 1;
        }
        assert(self.0@.take(32) =~= self.0@);
        text
    }
}

/// The digest that `sha2::Sha256` computes of a byte string.
pub uninterp spec fn sha256_of(bytes: Seq<u8>) -> Seq<u8>;

/// Computes a digest with `sha2::Sha256::digest`.
///
/// The digest depends on the bytes alone and is named [`sha256_of`].
#[verifier::external_body]
pub(crate) fn sha256(bytes: &[u8]) -> (digest: Sha256Digest)
    ensures
        digest.0@ == sha256_of(bytes@),
{
    Sha256Digest(<sha2::Sha256 as sha2::Digest>::digest(bytes).into())
}

/// Hexadecimal texts of equally many bytes agree only on equal bytes.
proof fn lemma_hex_text_injective(left: Seq<u8>, right: Seq<u8>)
    requires
        left.len() == right.len(),
        hex_text(left) == hex_text(right),
    ensures
        left == right,
    decreases left.len(),
{
    if left.len() > 0 {
        let a = hex_text(left);
        let b = hex_text(right);
        assert(a.last() == b.last());
        assert(a.drop_last().last() == b.drop_last().last());
        assert(a.drop_last().drop_last() =~= hex_text(left.drop_last()));
        assert(b.drop_last().drop_last() =~= hex_text(right.drop_last()));
        lemma_hex_text_injective(left.drop_last(), right.drop_last());
        assert(left.last() == right.last());
        assert(left =~= left.drop_last().push(left.last()));
        assert(right =~= right.drop_last().push(right.last()));
    } else {
        assert(left =~= right);
    }
}

/// Distinct digests have distinct textual forms.
pub proof fn law_digest_texts_are_unique(left: Sha256Digest, right: Sha256Digest)
    requires
        prefixed_hex(left.0@) == prefixed_hex(right.0@),
    ensures
        left.0@ == right.0@,
{
    let prefix = "sha256:"@;
    let a = prefixed_hex(left.0@);
    let b = prefixed_hex(right.0@);
    assert(a.skip(prefix.len() as int) =~= hex_text(left.0@));
    assert(b.skip(prefix.len() as int) =~= hex_text(right.0@));
    lemma_hex_text_injective(left.0@, right.0@);
}

} // verus!
