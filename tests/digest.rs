use ones_core::digest::{digest_hex, md5, to_hex};

#[test]
fn md5_of_empty_text() {
    assert_eq!(md5(""), "d41d8cd98f00b204e9800998ecf8427e");
}

#[test]
fn md5_of_short_text() {
    assert_eq!(md5("abc"), "900150983cd24fb0d6963f7d28e17f72");
}

#[test]
fn digest_of_bytes_matches_digest_of_text() {
    let text = "console.log('Hello, world!');";
    assert_eq!(digest_hex(text.as_bytes()), md5(text));
    assert_eq!(digest_hex(b"hello"), "5d41402abc4b2a76b9719d911017c592");
    assert_eq!(digest_hex(b"hello").len(), 32);
}

#[test]
fn hex_is_lower_case_high_nibble_first() {
    assert_eq!(to_hex(&[0x00, 0xff, 0x1a, 0xb0]), "00ff1ab0");
    assert_eq!(to_hex(&[]), "");
}
