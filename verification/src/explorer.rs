//! The public reference to a submission: an explorer URL built from the
//! root of the batch that includes it.

use vstd::prelude::*;
use vstd::string::*;

verus! {

/// Start of every batch URL of the explorer; the batch root follows in
/// lowercase hexadecimal.
pub const EXPLORER_BATCH_URL: &'static str = "https://explorer.alignedlayer.com/batches/0x";

/// The lowercase hexadecimal digit for a value below sixteen.
pub open spec fn hex_digit(nibble: int) -> char {
    if nibble == 0 {
        '0'
    } else if nibble == 1 {
        '1'
    } else if nibble == 2 {
        '2'
    } else if nibble == 3 {
        '3'
    } else if nibble == 4 {
        '4'
    } else if nibble == 5 {
        '5'
    } else if nibble == 6 {
        '6'
    } else if nibble == 7 {
        '7'
    } else if nibble == 8 {
        '8'
    } else if nibble == 9 {
        '9'
    } else if nibble == 10 {
        'a'
    } else if nibble == 11 {
        'b'
    } else if nibble == 12 {
        'c'
    } else if nibble == 13 {
        'd'
    } else if nibble == 14 {
        'e'
    } else {
        'f'
    }
}

/// Lowercase hexadecimal text of a byte string: two digits per byte, the
/// high half first, bytes in order.
pub open spec fn hex_lower(bytes: Seq<u8>) -> Seq<char> {
    Seq::new(
        2 * bytes.len(),
        |i: int|
            if i % 2 == 0 {
                hex_digit(bytes[i / 2] as int / 16)
            } else {
                hex_digit(bytes[i / 2] as int % 16)
            },
    )
}

/// The explorer URL of the batch with the given root.
pub open spec fn explorer_url_of(batch_root: Seq<u8>) -> Seq<char> {
    EXPLORER_BATCH_URL@ + hex_lower(batch_root)
}

/// Calls `hex::encode`. Trusted: the result is the lowercase hexadecimal
/// text of the bytes, two digits for each byte.
#[verifier::external_body]
pub(crate) fn encode_hex(bytes: &[u8]) -> (text: String)
    ensures
        text@ == hex_lower(bytes@),
{
    hex::encode(bytes)
}

/// Builds the explorer URL that refers to a batch by its root.
pub fn explorer_url(batch_root: &[u8; 32]) -> (url: String)
    ensures
        url@ == explorer_url_of(batch_root@),
{
    let digits = encode_hex(batch_root.as_slice());
    String::from_str(EXPLORER_BATCH_URL).concat(digits.as_str())
}

/// A batch URL is the fixed prefix followed by exactly two digits per byte
/// of the root, each digit that of the corresponding half byte.
pub proof fn lemma_explorer_url_shape(batch_root: Seq<u8>)
    ensures
        explorer_url_of(batch_root).len() == EXPLORER_BATCH_URL@.len() + 2 * batch_root.len(),
        explorer_url_of(batch_root).subrange(0, EXPLORER_BATCH_URL@.len() as int)
            == EXPLORER_BATCH_URL@,
        forall|i: int|
            0 <= i < batch_root.len() ==> {
                &&& #[trigger] explorer_url_of(batch_root)[EXPLORER_BATCH_URL@.len() + 2 * i]
                    == hex_digit(batch_root[i] as int / 16)
                &&& explorer_url_of(batch_root)[EXPLORER_BATCH_URL@.len() + 2 * i + 1]
                    == hex_digit(batch_root[i] as int % 16)
            },
{
    let prefix = EXPLORER_BATCH_URL@;
    assert(explorer_url_of(batch_root).subrange(0, prefix.len() as int) =~= prefix);
    assert forall|i: int| 0 <= i < batch_root.len() implies {
        &&& #[trigger] explorer_url_of(batch_root)[prefix.len() + 2 * i] == hex_digit(
            batch_root[i] as int / 16,
        )
        &&& explorer_url_of(batch_root)[prefix.len() + 2 * i + 1] == hex_digit(
            batch_root[i] as int % 16,
        )
    } by {
        assert((2 * i) % 2 == 0 && (2 * i) / 2 == i);
        assert((2 * i + 1) % 2 == 1 && (2 * i + 1) / 2 == i);
        assert(hex_lower(batch_root)[2 * i] == hex_digit(batch_root[i] as int / 16));
        assert(hex_lower(batch_root)[2 * i + 1] == hex_digit(batch_root[i] as int % 16));
    }
}

} // verus!
