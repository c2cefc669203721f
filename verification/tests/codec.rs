use signature_to_keys::signature_generators::eth::trezor::{
    signature_to_hex_bytes, signature_to_hex_string, Signature,
};

fn sample() -> Signature {
    let mut r = [0u8; 32];
    r[31] = 0x01;
    Signature { r, s: [0xff; 32], v: 0x1b }
}

#[test]
fn encodes_r_s_v_in_order() {
    let expected = format!("0x{}01{}1b", "0".repeat(62), "ff".repeat(32));
    assert_eq!(signature_to_hex_string(&sample()), expected);
}

#[test]
fn text_has_132_characters() {
    assert_eq!(signature_to_hex_string(&sample()).len(), 132);
    let zero = Signature { r: [0; 32], s: [0; 32], v: 0 };
    assert_eq!(signature_to_hex_string(&zero), format!("0x{}", "0".repeat(130)));
}

#[test]
fn digits_are_lowercase_and_high_digit_comes_first() {
    let mut r = [0u8; 32];
    r[0] = 0xab;
    r[1] = 0x0c;
    r[2] = 0xd0;
    r[3] = 0x9f;
    let mut s = [0u8; 32];
    s[0] = 0x10;
    s[31] = 0xef;
    let text = signature_to_hex_string(&Signature { r, s, v: 0x0a });
    assert_eq!(&text[..10], "0xab0cd09f");
    assert_eq!(&text[66..68], "10");
    assert_eq!(&text[128..130], "ef");
    assert_eq!(&text[130..], "0a");
    assert!(text.chars().all(|c| c.is_ascii_digit() || ('a'..='x').contains(&c)));
}

#[test]
fn every_byte_value_has_its_own_two_digits() {
    for value in 0..=255u8 {
        let text = signature_to_hex_string(&Signature { r: [0; 32], s: [0; 32], v: value });
        assert_eq!(&text[130..], format!("{:02x}", value));
    }
}

#[test]
fn bytes_are_the_text() {
    let signature = sample();
    assert_eq!(
        signature_to_hex_bytes(&signature),
        signature_to_hex_string(&signature).into_bytes()
    );
    assert_eq!(signature_to_hex_bytes(&signature).len(), 132);
}

#[test]
fn different_signatures_have_different_texts() {
    let a = sample();
    let mut b = sample();
    b.s[31] = 0xfe;
    let mut c = sample();
    c.v = 0x1c;
    assert_ne!(signature_to_hex_string(&a), signature_to_hex_string(&b));
    assert_ne!(signature_to_hex_string(&a), signature_to_hex_string(&c));
    assert_ne!(signature_to_hex_string(&b), signature_to_hex_string(&c));
}

#[test]
fn text_order_is_signature_order() {
    let low = Signature { r: [0x09; 32], s: [0xff; 32], v: 0xff };
    let mut middle = Signature { r: [0x09; 32], s: [0xff; 32], v: 0xff };
    middle.r[31] = 0x0a;
    let high = Signature { r: [0x10; 32], s: [0; 32], v: 0 };
    assert!(signature_to_hex_string(&low) < signature_to_hex_string(&middle));
    assert!(signature_to_hex_string(&middle) < signature_to_hex_string(&high));
}
