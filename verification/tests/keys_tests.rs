use vaultchat::keys::{binary_bytes, binary_string, decrypted_text, require_plaintext};

#[test]
fn binary_string_round_trip() {
    let all: Vec<u8> = (0..=255u8).collect();
    let s = binary_string(&all);
    assert_eq!(s.chars().count(), 256);
    assert_eq!(s.chars().nth(200).unwrap() as u32, 200);
    assert_eq!(binary_bytes(&s), all);
}

#[test]
fn binary_bytes_keep_low_bits() {
    assert_eq!(binary_bytes("AB\u{e9}"), vec![0x41, 0x42, 0xe9]);
    assert_eq!(binary_bytes("\u{141}"), vec![0x41]);
    assert_eq!(binary_string(&[]), "");
}

#[test]
fn plaintext_must_not_be_empty() {
    assert!(require_plaintext("x").is_ok());
    assert_eq!(require_plaintext("").unwrap_err(), "Empty message");
}

#[test]
fn decrypted_bytes_as_text() {
    assert_eq!(decrypted_text("héllo".as_bytes().to_vec()).unwrap(), "héllo");
    assert_eq!(
        decrypted_text(vec![0x61, 0xff]).unwrap_err(),
        "invalid utf-8 sequence of 1 bytes from index 1"
    );
}
