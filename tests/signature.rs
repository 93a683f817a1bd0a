use hmac::{Hmac, Mac, NewMac};
use lohr::{check_envelope, check_payload, validate_signature, AuthError, SignedJson, BODY_LIMIT};
use sha2::Sha256;

fn sign(secret: &[u8], body: &[u8]) -> String {
    let mut mac = Hmac::<Sha256>::new_varkey(secret).unwrap();
    mac.update(body);
    hex::encode(mac.finalize().into_bytes())
}

#[test]
fn known_hmac_vector_is_accepted() {
    let signature = b"5bdcc146bf60754e6a042426089575c75a003f089d2739839dec58b964ec3843";
    assert!(validate_signature(b"Jefe", signature, b"what do ya want for nothing?"));
    assert!(!validate_signature(b"jefe", signature, b"what do ya want for nothing?"));
}

#[test]
fn upper_case_signature_is_accepted() {
    let signature = b"5BDCC146BF60754E6A042426089575C75A003F089D2739839DEC58B964EC3843";
    assert!(validate_signature(b"Jefe", signature, b"what do ya want for nothing?"));
}

#[test]
fn genuine_signature_is_accepted() {
    let body = br#"{"repository":{"full_name":"owner/proj","ssh_url":"git@h:owner/proj"}}"#;
    let signature = sign(b"s3cret", body);
    assert!(validate_signature(b"s3cret", signature.as_bytes(), body));
    assert!(validate_signature(b"", sign(b"", b"").as_bytes(), b""));
}

#[test]
fn flipped_signature_bit_is_rejected() {
    let body = b"payload";
    let signature = sign(b"key", body);
    let tag = hex::decode(&signature).unwrap();
    for i in 0..tag.len() {
        for bit in 0..8 {
            let mut flipped = tag.clone();
            flipped[i] ^= 1 << bit;
            let text = hex::encode(&flipped);
            assert!(!validate_signature(b"key", text.as_bytes(), body));
        }
    }
}

#[test]
fn flipped_body_bit_is_rejected() {
    let body = b"payload".to_vec();
    let signature = sign(b"key", &body);
    for i in 0..body.len() {
        for bit in 0..8 {
            let mut flipped = body.clone();
            flipped[i] ^= 1 << bit;
            assert!(!validate_signature(b"key", signature.as_bytes(), &flipped));
        }
    }
}

#[test]
fn malformed_signature_is_rejected() {
    let body = b"payload";
    let signature = sign(b"key", body);
    assert!(!validate_signature(b"key", &signature.as_bytes()[1..], body));
    let mut bad = signature.clone().into_bytes();
    bad[0] = b'g';
    assert!(!validate_signature(b"key", &bad, body));
    assert!(!validate_signature(b"key", b"", body));
}

#[test]
fn envelope_checks_come_in_order() {
    assert_eq!(check_envelope(false, 0), Err(AuthError::WrongContentType));
    assert_eq!(check_envelope(false, 1), Err(AuthError::WrongContentType));
    assert_eq!(check_envelope(true, 0), Err(AuthError::SignatureCount));
    assert_eq!(check_envelope(true, 2), Err(AuthError::SignatureCount));
    assert_eq!(check_envelope(true, 1), Ok(()));
}

#[test]
fn payload_checks() {
    let body = b"{}";
    let signature = sign(b"key", body);
    assert_eq!(check_payload(true, body, signature.as_bytes(), b"key"), Ok(()));
    assert_eq!(
        check_payload(false, body, signature.as_bytes(), b"key"),
        Err(AuthError::PayloadTooLarge)
    );
    assert_eq!(
        check_payload(true, body, signature.as_bytes(), b"other"),
        Err(AuthError::BadSignature)
    );
}

#[test]
fn refusal_statuses() {
    assert_eq!(AuthError::PayloadTooLarge.status(), 413);
    assert_eq!(AuthError::WrongContentType.status(), 400);
    assert_eq!(AuthError::SignatureCount.status(), 400);
    assert_eq!(AuthError::Unreadable.status(), 400);
    assert_eq!(AuthError::BadSignature.status(), 400);
    assert_eq!(AuthError::MalformedJson.status(), 400);
    assert_eq!(BODY_LIMIT, 1024 * 1024);
}

#[test]
fn signed_json_derefs_to_its_value() {
    let mut signed = SignedJson::new(vec![1, 2]);
    assert_eq!(signed.len(), 2);
    signed.push(3);
    assert_eq!(signed.into_inner(), vec![1, 2, 3]);
}
