use splice_alt::fingerprint::{compute_fingerprint, to_hex};

#[test]
fn to_hex_is_two_lowercase_digits_per_byte() {
    assert_eq!(to_hex(&vec![]), "");
    assert_eq!(to_hex(&vec![0x00, 0xff]), "00ff");
    assert_eq!(to_hex(&vec![0x0a, 0x1b, 0x2c]), "0a1b2c");
}

#[test]
fn fingerprint_of_known_content() {
    let data: Vec<u8> = b"AAAA".to_vec();
    assert_eq!(
        compute_fingerprint(&data),
        "63c1dd951ffedf6f7fd968ad4efa39b8ed584f162f46e715114ee184f8de9201"
    );
}

#[test]
fn fingerprint_of_empty_input() {
    assert_eq!(
        compute_fingerprint(&vec![]),
        "e3b0c44298fc1c149afbf4c8996fb92427ae41e4649b934ca495991b7852b855"
    );
}

#[test]
fn fingerprint_is_64_chars_and_content_addressed() {
    let a = compute_fingerprint(&b"AAAA".to_vec());
    let b = compute_fingerprint(&b"AAAB".to_vec());
    assert_eq!(a.len(), 64);
    assert_eq!(b.len(), 64);
    assert_ne!(a, b);
    // identical content gives the identical fingerprint, whatever name it had
    assert_eq!(a, compute_fingerprint(&b"AAAA".to_vec()));
}
