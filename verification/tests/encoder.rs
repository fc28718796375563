use base64_stream::FromBase64Reader;
use capture_stream::encoder::encode_base64;
use std::io::Cursor;
use std::io::Read;

fn decode(text: &str) -> Vec<u8> {
    let mut reader = FromBase64Reader::new(Cursor::new(text.as_bytes()));
    let mut bytes = Vec::new();
    reader.read_to_end(&mut bytes).unwrap();
    bytes
}

#[test]
fn empty_input_gives_empty_text() {
    assert_eq!(encode_base64(&[]), "");
}

#[test]
fn one_byte_is_padded_twice() {
    assert_eq!(encode_base64(b"f"), "Zg==");
    assert_eq!(encode_base64(&[0xfb]), "+w==");
}

#[test]
fn two_bytes_are_padded_once() {
    assert_eq!(encode_base64(b"fo"), "Zm8=");
    assert_eq!(encode_base64(&[0xff, 0xfe]), "//4=");
}

#[test]
fn three_bytes_need_no_padding() {
    assert_eq!(encode_base64(b"foo"), "Zm9v");
    assert_eq!(encode_base64(&[0xff, 0xff, 0xff]), "////");
}

#[test]
fn longer_inputs_are_encoded_group_by_group() {
    assert_eq!(encode_base64(b"foob"), "Zm9vYg==");
    assert_eq!(encode_base64(b"fooba"), "Zm9vYmE=");
    assert_eq!(encode_base64(b"foobar"), "Zm9vYmFy");
    assert_eq!(encode_base64(&[1, 2, 3, 4, 5, 6, 7]), "AQIDBAUGBw==");
}

#[test]
fn a_sentence_is_encoded() {
    let sentence = b"Hi there, this is a simple sentence used for testing this crate. I hope all cases are correct.";
    assert_eq!(
        encode_base64(sentence),
        "SGkgdGhlcmUsIHRoaXMgaXMgYSBzaW1wbGUgc2VudGVuY2UgdXNlZCBmb3IgdGVzdGluZyB0aGlzIGNyYXRlLiBJIGhvcGUgYWxsIGNhc2VzIGFyZSBjb3JyZWN0Lg=="
    );
}

#[test]
fn every_symbol_of_the_alphabet_is_used_in_order() {
    let bytes: [u8; 48] = [
        0, 16, 131, 16, 81, 135, 32, 146, 139, 48, 211, 143, 65, 20, 147, 81, 85, 151, 97, 150,
        155, 113, 215, 159, 130, 24, 163, 146, 89, 167, 162, 154, 171, 178, 219, 175, 195, 28,
        179, 211, 93, 183, 227, 158, 187, 243, 223, 191,
    ];
    assert_eq!(
        encode_base64(&bytes),
        "ABCDEFGHIJKLMNOPQRSTUVWXYZabcdefghijklmnopqrstuvwxyz0123456789+/"
    );
}

#[test]
fn a_full_chunk_of_zeros_is_6400_times_a() {
    let chunk = [0u8; 4800];
    let text = encode_base64(&chunk);
    assert_eq!(text.len(), 6400);
    assert!(text.chars().all(|c| c == 'A'));
    assert!(!text.contains('='));
}

#[test]
fn the_text_has_four_characters_for_every_three_bytes_rounded_up() {
    let bytes = [0xa5u8; 100];
    for n in 0..=100usize {
        let text = encode_base64(&bytes[..n]);
        assert_eq!(text.len(), (n + 2) / 3 * 4);
        assert_eq!(text.chars().count(), text.len());
    }
    assert_eq!(encode_base64(&bytes[..1]).len(), 4);
    assert_eq!(encode_base64(&bytes[..3]).len(), 4);
    assert_eq!(encode_base64(&bytes[..4]).len(), 8);
    assert_eq!(encode_base64(&bytes[..100]).len(), 136);
}

#[test]
fn the_text_differs_from_the_input() {
    let bytes = b"AAAA";
    let text = encode_base64(bytes);
    assert_ne!(text.as_bytes(), bytes);
    assert_eq!(text, "QUFBQQ==");
}

#[test]
fn the_same_bytes_give_the_same_text() {
    let bytes: Vec<u8> = (0..=255u8).collect();
    let first = encode_base64(&bytes);
    let second = encode_base64(&bytes);
    assert_eq!(first, second);
    assert!(first.starts_with("AAECAwQFBgcICQoLDA0O"));
}

#[test]
fn the_text_decodes_to_the_input() {
    let bytes: Vec<u8> = (0..=255u8).collect();
    for n in [0usize, 1, 2, 3, 4, 5, 6, 255, 256] {
        assert_eq!(decode(&encode_base64(&bytes[..n])), &bytes[..n]);
    }
}

#[test]
fn chunks_cut_at_multiples_of_three_decode_as_one_text() {
    let audio: Vec<u8> = (0..9614u32).map(|i| (i * 31 % 251) as u8).collect();
    let cuts = [0usize, 4800, 4803, 4809, 9609, 9614];
    let mut body = String::new();
    for pair in cuts.windows(2) {
        body.push_str(&encode_base64(&audio[pair[0]..pair[1]]));
    }
    assert_eq!(body, encode_base64(&audio));
    assert_eq!(decode(&body), audio);
    assert_eq!(body.len(), (9614 + 2) / 3 * 4);
}

#[test]
fn a_cut_off_the_groups_shows_in_the_text() {
    let audio = b"foobar";
    let mut body = encode_base64(&audio[..4]);
    body.push_str(&encode_base64(&audio[4..]));
    assert_eq!(body, "Zm9vYg==YXI=");
    assert_ne!(body, encode_base64(audio));
}
