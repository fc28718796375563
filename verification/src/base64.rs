//! The standard base64 encoding with padding, as a mathematical function on
//! byte sequences, its inverse, and the facts about both that the rest of
//! the crate relies on.

use vstd::prelude::*;

verus! {

/// The character that fills the last group of a text up to four characters.
pub const PAD: char = '=';

/// The character that stands for the six-bit value `v` in the standard
/// alphabet: `A`–`Z`, `a`–`z`, `0`–`9`, `+`, `/`.
pub open spec fn symbol(v: int) -> char
    recommends
        0 <= v < 64,
{
    if v < 26 {
        ('A' as int + v) as char
    } else if v < 52 {
        ('a' as int + (v - 26)) as char
    } else if v < 62 {
        ('0' as int + (v - 52)) as char
    } else if v == 62 {
        '+'
    } else {
        '/'
    }
}

/// The six-bit value that `c` stands for, or `-1` where `c` is no symbol of
/// the alphabet.
pub open spec fn value(c: char) -> int {
    if 'A' <= c <= 'Z' {
        c as int - 'A' as int
    } else if 'a' <= c <= 'z' {
        c as int - 'a' as int + 26
    } else if '0' <= c <= '9' {
        c as int - '0' as int + 52
    } else if c == '+' {
        62
    } else if c == '/' {
        63
    } else {
        -1
    }
}

/// The four characters that stand for a group of one, two or three bytes.
/// The bytes are read as one big-endian number, cut into six-bit values from
/// the top; a group of fewer than three bytes is padded.
pub open spec fn group(bytes: Seq<u8>) -> Seq<char>
    recommends
        1 <= bytes.len() <= 3,
{
    let b0 = bytes[0] as int;
    let b1 = if bytes.len() > 1 { bytes[1] as int } else { 0 };
    let b2 = if bytes.len() > 2 { bytes[2] as int } else { 0 };
    seq![
        symbol(b0 / 4),
        symbol((b0 % 4) * 16 + b1 / 16),
        if bytes.len() > 1 { symbol((b1 % 16) * 4 + b2 / 64) } else { PAD },
        if bytes.len() > 2 { symbol(b2 % 64) } else { PAD },
    ]
}

/// The base64 text of `bytes`: the groups of its three-byte pieces, one after
/// the other, the last piece being the one, two or three bytes left over.
pub open spec fn base64_text(bytes: Seq<u8>) -> Seq<char>
    decreases bytes.len(),
{
    if bytes.len() == 0 {
        Seq::empty()
    } else if bytes.len() <= 3 {
        group(bytes)
    } else {
        group(bytes.take(3)) + base64_text(bytes.skip(3))
    }
}

/// The number of characters in the base64 text of `n` bytes: four for every
/// three bytes, rounded up.
pub open spec fn encoded_len(n: nat) -> nat {
    ((n + 2) / 3 * 4) as nat
}

/// The bytes that a group of four characters stands for, or `None` where the
/// four are no group: a character outside the alphabet, or padding anywhere
/// but at the end.
pub open spec fn ungroup(quad: Seq<char>) -> Option<Seq<u8>>
    recommends
        quad.len() == 4,
{
    let v0 = value(quad[0]);
    let v1 = value(quad[1]);
    let v2 = value(quad[2]);
    let v3 = value(quad[3]);
    let b0 = (v0 * 4 + v1 / 16) as u8;
    let b1 = ((v1 % 16) * 16 + v2 / 4) as u8;
    let b2 = ((v2 % 4) * 64 + v3) as u8;
    if v0 < 0 || v1 < 0 {
        None
    } else if quad[2] == PAD {
        if quad[3] == PAD {
            Some(seq![b0])
        } else {
            None
        }
    } else if v2 < 0 {
        None
    } else if quad[3] == PAD {
        Some(seq![b0, b1])
    } else if v3 < 0 {
        None
    } else {
        Some(seq![b0, b1, b2])
    }
}

/// The bytes that a base64 text stands for, or `None` where `text` is no
/// base64 text: its length is no multiple of four, one of its groups is no
/// group, or a padded group is followed by more text.
pub open spec fn base64_bytes(text: Seq<char>) -> Option<Seq<u8>>
    decreases text.len(),
{
    if text.len() == 0 {
        Some(Seq::empty())
    } else if text.len() < 4 {
        None
    } else {
        match (ungroup(text.take(4)), base64_bytes(text.skip(4))) {
            (Some(head), Some(tail)) => if head.len() == 3 || text.len() == 4 {
                Some(head + tail)
            } else {
                None
            },
            _ => None,
        }
    }
}

/// The base64 text of `n` bytes has `encoded_len(n)` characters.
pub proof fn lemma_text_len(bytes: Seq<u8>)
    ensures
        base64_text(bytes).len() == encoded_len(bytes.len()),
    decreases bytes.len(),
{
    if bytes.len() > 3 {
        lemma_text_len(bytes.skip(3));
    }
}

/// Every six-bit value is recovered from its symbol, and no symbol is the
/// padding character.
pub proof fn lemma_value_of_symbol(v: int)
    requires
        0 <= v < 64,
    ensures
        value(symbol(v)) == v,
        symbol(v) != PAD,
{
}

/// A group of one, two or three bytes is recovered from its four characters.
pub proof fn lemma_ungroup_group(bytes: Seq<u8>)
    requires
        1 <= bytes.len() <= 3,
    ensures
        group(bytes).len() == 4,
        ungroup(group(bytes)) == Some(bytes),
{
    let b0 = bytes[0] as int;
    let b1 = if bytes.len() > 1 { bytes[1] as int } else { 0 };
    let b2 = if bytes.len() > 2 { bytes[2] as int } else { 0 };
    let quad = group(bytes);
    lemma_value_of_symbol(b0 / 4);
    lemma_value_of_symbol((b0 % 4) * 16 + b1 / 16);
    lemma_value_of_symbol((b1 % 16) * 4 + b2 / 64);
    lemma_value_of_symbol(b2 % 64);
    assert(ungroup(quad).unwrap() =~= bytes);
}

/// Decoding undoes encoding: the base64 text of any byte sequence stands for
/// that sequence and no other. Two byte sequences with the same text are
/// therefore the same, and the same bytes always give the same text.
pub proof fn law_decode_inverts_encode(bytes: Seq<u8>)
    ensures
        base64_bytes(base64_text(bytes)) == Some(bytes),
    decreases bytes.len(),
{
    let text = base64_text(bytes);
    if bytes.len() == 0 {
    } else if bytes.len() <= 3 {
        lemma_ungroup_group(bytes);
        assert(text.take(4) =~= text);
        assert(text.skip(4) =~= Seq::<char>::empty());
        assert(base64_bytes(text.skip(4)) == Some(Seq::<u8>::empty()));
        assert(bytes + Seq::<u8>::empty() =~= bytes);
    } else {
        let head = bytes.take(3);
        let tail = bytes.skip(3);
        lemma_ungroup_group(head);
        law_decode_inverts_encode(tail);
        assert(text.take(4) =~= group(head));
        assert(text.skip(4) =~= base64_text(tail));
        assert(head + tail =~= bytes);
    }
}

/// Encoding is compatible with cutting the input at a multiple of three
/// bytes: the text of `a + b` is the text of `a` followed by the text of `b`.
pub proof fn law_text_of_concat(a: Seq<u8>, b: Seq<u8>)
    requires
        a.len() % 3 == 0,
    ensures
        base64_text(a + b) == base64_text(a) + base64_text(b),
    decreases a.len(),
{
    if a.len() == 0 {
        assert(a + b =~= b);
        assert(base64_text(a) + base64_text(b) =~= base64_text(b));
    } else {
        let whole = a + b;
        assert(whole.take(3) =~= a.take(3));
        assert(whole.skip(3) =~= a.skip(3) + b);
        law_text_of_concat(a.skip(3), b);
        if a.len() == 3 {
            assert(a.take(3) =~= a);
            assert(base64_text(a.skip(3)) =~= Seq::<char>::empty());
            if b.len() == 0 {
                assert(whole =~= a);
                assert(base64_text(a) + base64_text(b) =~= base64_text(a));
            } else {
                assert(base64_text(a.skip(3)) + base64_text(b) =~= base64_text(b));
            }
        } else {
            assert(base64_text(whole) =~= group(a.take(3)) + (base64_text(a.skip(3)) + base64_text(
                b,
            )));
            assert(base64_text(a) + base64_text(b) =~= group(a.take(3)) + (base64_text(a.skip(3))
                + base64_text(b)));
        }
    }
}

/// The bytes of a sequence of chunks, one chunk after the other.
pub open spec fn joined_bytes(chunks: Seq<Seq<u8>>) -> Seq<u8>
    decreases chunks.len(),
{
    if chunks.len() == 0 {
        Seq::empty()
    } else {
        joined_bytes(chunks.drop_last()) + chunks.last()
    }
}

/// The texts of a sequence of chunks, each chunk encoded by itself, one text
/// after the other.
pub open spec fn joined_text(chunks: Seq<Seq<u8>>) -> Seq<char>
    decreases chunks.len(),
{
    if chunks.len() == 0 {
        Seq::empty()
    } else {
        joined_text(chunks.drop_last()) + base64_text(chunks.last())
    }
}

/// Whether every chunk but the last holds a multiple of three bytes.
pub open spec fn cut_at_groups(chunks: Seq<Seq<u8>>) -> bool {
    forall|i: int| 0 <= i < chunks.len() - 1 ==> (#[trigger] chunks[i]).len() % 3 == 0
}

/// Encoding chunk by chunk is encoding the whole: where every chunk but the
/// last holds a multiple of three bytes, the texts of the chunks, put
/// together, are the base64 text of the bytes put together, and decoding
/// them as one text gives those bytes back.
pub proof fn law_chunked_text_decodes_to_whole(chunks: Seq<Seq<u8>>)
    requires
        cut_at_groups(chunks),
    ensures
        joined_text(chunks) == base64_text(joined_bytes(chunks)),
        base64_bytes(joined_text(chunks)) == Some(joined_bytes(chunks)),
        joined_text(chunks).len() == encoded_len(joined_bytes(chunks).len()),
    decreases chunks.len(),
{
    if chunks.len() > 0 {
        let front = chunks.drop_last();
        assert(cut_at_groups(front)) by {
            assert forall|i: int| 0 <= i < front.len() - 1 implies (#[trigger] front[i]).len() % 3
                == 0 by {
                assert(front[i] == chunks[i]);
            }
        }
        law_chunked_text_decodes_to_whole(front);
        lemma_joined_len_of_full_chunks(front, chunks);
        law_text_of_concat(joined_bytes(front), chunks.last());
    }
    law_decode_inverts_encode(joined_bytes(chunks));
    lemma_text_len(joined_bytes(chunks));
}

/// Chunks that each hold a multiple of three bytes hold a multiple of three
/// bytes together.
proof fn lemma_joined_len_of_full_chunks(front: Seq<Seq<u8>>, chunks: Seq<Seq<u8>>)
    requires
        cut_at_groups(chunks),
        front.len() <= chunks.len() - 1,
        forall|i: int| 0 <= i < front.len() ==> front[i] == chunks[i],
    ensures
        joined_bytes(front).len() % 3 == 0,
    decreases front.len(),
{
    if front.len() > 0 {
        lemma_joined_len_of_full_chunks(front.drop_last(), chunks);
        assert(front.last() == chunks[front.len() - 1]);
    }
}

/// A run of zero bytes, cut at a multiple of three, encodes to nothing but
/// the first symbol of the alphabet, without padding.
pub proof fn lemma_text_of_zeros(bytes: Seq<u8>)
    requires
        bytes.len() % 3 == 0,
        forall|i: int| 0 <= i < bytes.len() ==> bytes[i] == 0,
    ensures
        base64_text(bytes).len() == bytes.len() / 3 * 4,
        forall|j: int| 0 <= j < base64_text(bytes).len() ==> base64_text(bytes)[j] == 'A',
    decreases bytes.len(),
{
    if bytes.len() > 3 {
        lemma_text_of_zeros(bytes.skip(3));
    }
}

} // verus!
