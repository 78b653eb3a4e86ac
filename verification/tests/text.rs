use emvault_securosys::keys::{fingerprint_from_digest, fingerprint_of, PublicKey, SchnorrSignature};
use emvault_securosys::text::{decimal_of, hexadecimal_of, join3, starts_with, strip_suffix, trim_end_slashes};

#[test]
fn numbers_in_decimal() {
    assert_eq!(decimal_of(0), "0");
    assert_eq!(decimal_of(9), "9");
    assert_eq!(decimal_of(10), "10");
    assert_eq!(decimal_of(u64::MAX), "18446744073709551615");
}

#[test]
fn numbers_in_hexadecimal() {
    assert_eq!(hexadecimal_of(0), "0");
    assert_eq!(hexadecimal_of(0xf), "f");
    assert_eq!(hexadecimal_of(0x8000_1100), "80001100");
    assert_eq!(hexadecimal_of(0x0123_4567_89ab_cdef), "123456789abcdef");
}

#[test]
fn texts_are_joined_and_trimmed() {
    assert_eq!(join3("a", "", "b"), "ab");
    assert_eq!(trim_end_slashes("https://h/v1///"), "https://h/v1");
    assert_eq!(trim_end_slashes("https://h/v1"), "https://h/v1");
    assert_eq!(trim_end_slashes("///"), "");
    assert_eq!(trim_end_slashes(""), "");
    assert_eq!(strip_suffix("a/priv", "/priv"), Some("a"));
    assert_eq!(strip_suffix("a", "/priv"), None);
    assert_eq!(strip_suffix("a", ""), Some("a"));
    assert!(starts_with("ab", "a") && starts_with("ab", "ab") && starts_with("", ""));
    assert!(!starts_with("ab", "b") && !starts_with("a", "ab"));
}

#[test]
fn public_key_rejects_what_is_no_point() {
    assert_eq!(PublicKey::from_slice(&[]), Err("malformed public key".to_string()));
    assert_eq!(PublicKey::from_slice(&[5; 33]), Err("malformed public key".to_string()));
    assert_eq!(PublicKey::from_slice(&[0xff; 65]), Err("malformed public key".to_string()));
}

#[test]
fn public_key_keeps_the_parity_of_y() {
    let mut even = [0u8; 33];
    even[0] = 2;
    even[32] = 1;
    let mut odd = even;
    odd[0] = 3;
    assert_eq!(PublicKey::from_slice(&even), Ok(PublicKey { compressed: even }));
    assert_eq!(PublicKey::from_slice(&odd), Ok(PublicKey { compressed: odd }));
    match bitcoin::secp256k1::PublicKey::from_slice(&odd) {
        Ok(key) => assert_eq!(
            PublicKey::from_slice(&key.serialize_uncompressed()),
            Ok(PublicKey { compressed: odd })
        ),
        Err(e) => panic!("{e}"),
    }
}

#[test]
fn fingerprint_is_the_head_of_the_digest() {
    let mut digest = [0u8; 20];
    for (i, byte) in digest.iter_mut().enumerate() {
        *byte = i as u8 + 1;
    }
    assert_eq!(fingerprint_from_digest(&digest).bytes, [1, 2, 3, 4]);
    let mut generator = [0u8; 33];
    generator[0] = 2;
    generator[1..].copy_from_slice(&[
        0x79, 0xbe, 0x66, 0x7e, 0xf9, 0xdc, 0xbb, 0xac, 0x55, 0xa0, 0x62, 0x95, 0xce, 0x87, 0x0b,
        0x07, 0x02, 0x9b, 0xfc, 0xdb, 0x2d, 0xce, 0x28, 0xd9, 0x59, 0xf2, 0x81, 0x5b, 0x16, 0xf8,
        0x17, 0x98,
    ]);
    let key = PublicKey { compressed: generator };
    assert_eq!(fingerprint_of(&key).bytes, [0x75, 0x1e, 0x76, 0xe8]);
}

#[test]
fn schnorr_signature_has_64_bytes() {
    assert_eq!(
        SchnorrSignature::from_slice(&[0xab; 64]),
        Ok(SchnorrSignature { bytes: [0xab; 64] })
    );
    assert_eq!(
        SchnorrSignature::from_slice(&[0; 63]),
        Err("malformed signature".to_string())
    );
    assert_eq!(
        SchnorrSignature::from_slice(&[0; 65]),
        Err("malformed signature".to_string())
    );
}
