//! Names of values kept in a contract's dictionaries.
use vstd::prelude::*;

verus! {

/// The lowercase hexadecimal digit of `n < 16`.
pub open spec fn hex_digit(n: nat) -> char {
    if n < 10 {
        digit_of(n)
    } else if n == 10 {
        'a'
    } else if n == 11 {
        'b'
    } else if n == 12 {
        'c'
    } else if n == 13 {
        'd'
    } else if n == 14 {
        'e'
    } else {
        'f'
    }
}

/// The decimal digit character of `n < 10`.
pub open spec fn digit_of(n: nat) -> char {
    crate::text::digit_char(n)
}

/// Each byte written as two lowercase hexadecimal digits, high nibble first.
pub open spec fn hex_text(bytes: Seq<u8>) -> Seq<char>
    decreases bytes.len(),
{
    if bytes.len() == 0 {
        Seq::empty()
    } else {
        hex_text(bytes.drop_last()) + seq![
            hex_digit((bytes.last() / 16) as nat),
            hex_digit((bytes.last() % 16) as nat),
        ]
    }
}

/// Encodes `data` with `hex::encode`: as its documentation states, each byte as two lowercase
/// hexadecimal digits, high nibble first.
#[verifier::external_body]
fn hex_encode(data: &[u8]) -> (text: String)
    ensures
        text@ == hex_text(data@),
{
    hex::encode(data)
}

proof fn lemma_hex_text_len(bytes: Seq<u8>)
    ensures
        hex_text(bytes).len() == 2 * bytes.len(),
    decreases bytes.len(),
{
    if bytes.len() > 0 {
        lemma_hex_text_len(bytes.drop_last());
    }
}

/// The dictionary key of an item, from the digest of the item's encoding: the digest in
/// lowercase hexadecimal.
pub fn to_dictionary_key(digest: &[u8; 32]) -> (key: String)
    ensures
        key@ == hex_text(digest@),
        key@.len() == 64,
{
    proof {
        lemma_hex_text_len(digest@);
    }
    hex_encode(digest.as_slice())
}

} // verus!
