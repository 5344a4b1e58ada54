//! The text that takes an obfuscated value's place.

use vstd::prelude::*;
use vstd::string::StringExecFns;

verus! {

/// The SHA-256 digest of `bytes`, written as the `sha256` crate writes it.
pub uninterp spec fn sha256_hex(bytes: Seq<u8>) -> Seq<char>;

/// Whether `c` is a hexadecimal digit, the letters in lower case.
pub open spec fn is_hex_digit(c: char) -> bool {
    '0' <= c <= '9' || 'a' <= c <= 'f'
}

/// Whether `text` has the shape of a SHA-256 digest: 64 hexadecimal digits,
/// two for each of its 32 bytes.
pub open spec fn is_hex_digest(text: Seq<char>) -> bool {
    text.len() == 64 && forall|i: int| 0 <= i < text.len() ==> is_hex_digit(#[trigger] text[i])
}

/// Calls `sha256::digest`, which hashes the bytes with the `sha2` crate and
/// encodes the 32 bytes of the digest with `hex::encode`, two digits for a
/// byte, the letters in lower case. The text is taken as `sha256_hex` of the
/// bytes.
#[verifier::external_body]
pub(crate) fn digest_hex(bytes: &[u8]) -> (hex: String)
    ensures
        hex@ == sha256_hex(bytes@),
        is_hex_digest(hex@),
{
    sha256::digest(bytes)
}

/// What stands before the digest in an obfuscated value.
pub open spec fn digest_label() -> Seq<char> {
    seq!['s', 'h', 'a', '2', '5', '6', ':']
}

/// The JSON string that replaces an obfuscated value: the label and the
/// digest, between double quotes.
pub open spec fn obfuscated_literal(digest: Seq<char>) -> Seq<char> {
    seq!['"'] + digest_label() + digest + seq!['"']
}

/// The digest can be read back out of the literal: it stands between the
/// label and the closing quote.
pub proof fn lemma_literal_holds_digest(digest: Seq<char>)
    ensures
        obfuscated_literal(digest).len() == digest.len() + 9,
        obfuscated_literal(digest).subrange(8, 8 + digest.len() as int) == digest,
        obfuscated_literal(digest).subrange(0, 8) == seq!['"'] + digest_label(),
        obfuscated_literal(digest).last() == '"',
{
}

/// Two literals are equal only if they hold the same digest.
pub proof fn lemma_literal_tells_digests_apart(first: Seq<char>, second: Seq<char>)
    requires
        obfuscated_literal(first) == obfuscated_literal(second),
    ensures
        first == second,
{
    lemma_literal_holds_digest(first);
    lemma_literal_holds_digest(second);
}

/// Builds the literal around a digest.
pub fn obfuscated_text(digest: &str) -> (text: String)
    ensures
        text@ == obfuscated_literal(digest@),
{
    proof {
        reveal_strlit("\"sha256:");
    }
    let mut text: String = "\"sha256:".to_owned();
    text.append(digest);
    text.push('"');
    text
}

} // verus!
