use ed25519_dalek::{Signer, SigningKey};
use mod_images::signature_validation::{
    decode_hex, extract_interaction, ExtractFailure, Key, KeyConversionError, SIGNATURE_HEADER,
    TIMESTAMP_HEADER,
};

fn signing_key() -> SigningKey {
    SigningKey::from_bytes(&[7u8; 32])
}

fn public_key() -> Key {
    let hex = hex::encode(signing_key().verifying_key().to_bytes());
    Key::from_hex(hex.as_bytes()).unwrap()
}

fn signature_of(timestamp: &[u8], body: &[u8]) -> Vec<u8> {
    let mut message = timestamp.to_vec();
    message.extend_from_slice(body);
    hex::encode(signing_key().sign(&message).to_bytes()).into_bytes()
}

#[test]
fn header_names_are_the_platforms() {
    assert_eq!(SIGNATURE_HEADER, "x-signature-ed25519");
    assert_eq!(TIMESTAMP_HEADER, "x-signature-timestamp");
}

#[test]
fn hex_decodes_both_cases() {
    assert_eq!(decode_hex::<4>(b"00ff7Fa0"), Some([0x00, 0xff, 0x7f, 0xa0]));
    assert_eq!(decode_hex::<2>(b"BEef"), Some([0xbe, 0xef]));
    assert_eq!(decode_hex::<0>(b""), Some([]));
}

#[test]
fn hex_rejects_wrong_length_and_foreign_digits() {
    assert_eq!(decode_hex::<2>(b"abc"), None);
    assert_eq!(decode_hex::<2>(b"ab"), None);
    assert_eq!(decode_hex::<2>(b"abcdef"), None);
    assert_eq!(decode_hex::<2>(b"abcg"), None);
    assert_eq!(decode_hex::<1>(b" 1"), None);
}

#[test]
fn key_from_hex_keeps_the_bytes() {
    let expected = signing_key().verifying_key().to_bytes();
    assert_eq!(public_key().to_bytes(), expected);
}

#[test]
fn key_from_hex_rejects_bad_text() {
    assert!(matches!(Key::from_hex(b"zz"), Err(KeyConversionError::Hex)));
    assert!(matches!(Key::from_hex(&[b'0'; 62]), Err(KeyConversionError::Hex)));
}

#[test]
fn key_from_hex_rejects_bytes_off_the_curve() {
    // y = 2 has no matching x on the curve.
    let mut bytes = [0u8; 32];
    bytes[0] = 2;
    assert!(ed25519_dalek::VerifyingKey::from_bytes(&bytes).is_err());
    let hex = hex::encode(bytes);
    assert!(matches!(Key::from_hex(hex.as_bytes()), Err(KeyConversionError::Point)));
}

#[test]
fn valid_signature_is_accepted() {
    let key = public_key();
    let timestamp = b"1700000000";
    let body = br#"{"type":1}"#;
    let signature = signature_of(timestamp, body);
    assert_eq!(key.verify(&signature, timestamp, body), Ok(()));
    let verified = extract_interaction(&signature, timestamp, body, &key).ok().unwrap();
    assert_eq!(verified.as_bytes(), body);
}

#[test]
fn upper_case_signature_is_accepted() {
    let key = public_key();
    let signature = signature_of(b"12", b"payload").to_ascii_uppercase();
    assert_eq!(key.verify(&signature, b"12", b"payload"), Ok(()));
}

#[test]
fn message_is_timestamp_then_body() {
    let key = public_key();
    let signature = signature_of(b"12", b"34");
    assert_eq!(key.verify(&signature, b"12", b"34"), Ok(()));
    assert_eq!(key.verify(&signature, b"1", b"234"), Ok(()));
    assert_eq!(key.verify(&signature, b"34", b"12"), Err(ExtractFailure::Signature));
}

#[test]
fn every_single_byte_mutation_is_rejected() {
    let key = public_key();
    let timestamp = b"1700000000".to_vec();
    let body = br#"{"type":2,"id":"1"}"#.to_vec();
    let signature = signature_of(&timestamp, &body);
    for i in 0..timestamp.len() {
        let mut changed = timestamp.clone();
        changed[i] ^= 1;
        assert_eq!(key.verify(&signature, &changed, &body), Err(ExtractFailure::Signature));
    }
    for i in 0..body.len() {
        let mut changed = body.clone();
        changed[i] ^= 1;
        assert_eq!(key.verify(&signature, &timestamp, &changed), Err(ExtractFailure::Signature));
    }
    let raw = hex::decode(&signature).unwrap();
    for i in 0..raw.len() {
        let mut changed = raw.clone();
        changed[i] ^= 1;
        let text = hex::encode(changed).into_bytes();
        assert_eq!(key.verify(&text, &timestamp, &body), Err(ExtractFailure::Signature));
    }
}

#[test]
fn tampered_body_is_never_admitted() {
    let key = public_key();
    let timestamp = b"1700000000";
    let signature = signature_of(timestamp, br#"{"type":1}"#);
    let outcome = extract_interaction(&signature, timestamp, br#"{"type":2}"#, &key);
    assert!(matches!(outcome, Err(ExtractFailure::Signature)));
}

#[test]
fn malformed_signature_text_is_a_hex_failure() {
    let key = public_key();
    assert_eq!(key.verify(b"", b"1", b"2"), Err(ExtractFailure::Hex));
    assert_eq!(key.verify(&[b'g'; 128], b"1", b"2"), Err(ExtractFailure::Hex));
    assert_eq!(key.verify(&[b'0'; 126], b"1", b"2"), Err(ExtractFailure::Hex));
}

#[test]
fn signature_of_another_key_is_rejected() {
    let key = public_key();
    let other = SigningKey::from_bytes(&[8u8; 32]);
    let signature = hex::encode(other.sign(b"12").to_bytes()).into_bytes();
    assert_eq!(key.verify(&signature, b"1", b"2"), Err(ExtractFailure::Signature));
}
