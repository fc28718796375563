//! Encoding one chunk of raw audio as base64 text.

use crate::base64::{base64_bytes, base64_text, encoded_len, law_decode_inverts_encode, lemma_text_len};
use base64_stream::ToBase64Reader;
use std::io::Cursor;
use std::io::Read;
use vstd::prelude::*;

verus! {

/// Trusted: `base64_stream::ToBase64Reader::new` over a `std::io::Cursor` on
/// `bytes`, read to its end with `std::io::Read::read_to_string`.
///
/// The contract claims that what is read is the standard, padded base64
/// encoding of `bytes`, which is what the reader's engine produces for all the
/// bytes of its source. Reading cannot fail here: the reader only hands on
/// the errors of its source, a cursor on a slice has none, and the text is
/// ASCII.
#[verifier::external_body]
fn read_through_base64(bytes: &[u8]) -> (text: String)
    ensures
        text@ == base64_text(bytes@),
{
    let mut reader = ToBase64Reader::new(Cursor::new(bytes));
    let mut text = String::new();
    reader.read_to_string(&mut text).unwrap();
    text
}

/// Encodes `buf` as base64 text: standard alphabet, padded, four characters
/// for every three bytes. Each call stands by itself; nothing is carried over
/// from one chunk to the next.
pub fn encode_base64(buf: &[u8]) -> (text: String)
    ensures
        text@ == base64_text(buf@),
        text@.len() == encoded_len(buf@.len()),
        base64_bytes(text@) == Some(buf@),
{
    let text = read_through_base64(buf);
    proof {
        lemma_text_len(buf@);
        law_decode_inverts_encode(buf@);
    }
    text
}

} // verus!
