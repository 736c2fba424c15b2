use ed25519_dalek::{Signer, SigningKey};
use norseline::gate::{decode_hex, signed_message, GateError, SignatureGate};

fn hex(bytes: &[u8]) -> Vec<u8> {
    bytes.iter().map(|b| format!("{:02x}", b)).collect::<String>().into_bytes()
}

fn signing_key() -> SigningKey {
    SigningKey::from_bytes(&[7u8; 32])
}

fn gate() -> SignatureGate {
    SignatureGate::from_hex(&hex(&signing_key().verifying_key().to_bytes())).unwrap()
}

fn sign(timestamp: &[u8], body: &[u8]) -> Vec<u8> {
    let mut msg = timestamp.to_vec();
    msg.extend_from_slice(body);
    hex(&signing_key().sign(&msg).to_bytes())
}

const BODY: &[u8] = br#"{"data":{"name":"fleet","options":[{"name":"add","options":[{"name":"model","value":"cutlass"}]}]}}"#;
const TS: &[u8] = b"1690000000";

#[test]
fn signed_request_is_accepted() {
    let sig = sign(TS, BODY);
    assert_eq!(gate().verify_request(&Some(sig), &Some(TS.to_vec()), &BODY.to_vec()), Ok(()));
}

#[test]
fn every_tampered_body_byte_is_rejected() {
    let sig = sign(TS, BODY);
    let g = gate();
    for i in 0..BODY.len() {
        let mut body = BODY.to_vec();
        body[i] ^= 1;
        assert_eq!(
            g.verify_request(&Some(sig.clone()), &Some(TS.to_vec()), &body),
            Err(GateError::BadSignature)
        );
    }
}

#[test]
fn tampered_timestamp_is_rejected() {
    let sig = sign(TS, BODY);
    let r = gate().verify_request(&Some(sig), &Some(b"1690000001".to_vec()), &BODY.to_vec());
    assert_eq!(r, Err(GateError::BadSignature));
}

#[test]
fn tampered_signature_is_rejected() {
    let mut sig = sign(TS, BODY);
    sig[0] = if sig[0] == b'0' { b'1' } else { b'0' };
    let r = gate().verify_request(&Some(sig), &Some(TS.to_vec()), &BODY.to_vec());
    assert_eq!(r, Err(GateError::BadSignature));
}

#[test]
fn missing_headers_are_rejected() {
    let sig = sign(TS, BODY);
    let g = gate();
    assert_eq!(g.verify_request(&None, &Some(TS.to_vec()), &BODY.to_vec()), Err(GateError::MissingSignature));
    assert_eq!(g.verify_request(&Some(sig), &None, &BODY.to_vec()), Err(GateError::MissingTimestamp));
}

#[test]
fn malformed_signatures_are_rejected() {
    let g = gate();
    let mut odd = sign(TS, BODY);
    odd.pop();
    assert_eq!(g.verify_request(&Some(odd), &Some(TS.to_vec()), &BODY.to_vec()), Err(GateError::MalformedSignature));
    let mut not_hex = sign(TS, BODY);
    not_hex[3] = b'z';
    assert_eq!(g.verify_request(&Some(not_hex), &Some(TS.to_vec()), &BODY.to_vec()), Err(GateError::MalformedSignature));
    let short = b"abcd".to_vec();
    assert_eq!(g.verify_request(&Some(short), &Some(TS.to_vec()), &BODY.to_vec()), Err(GateError::MalformedSignature));
}

#[test]
fn hex_decoding() {
    assert_eq!(decode_hex(&b"0aff10".to_vec()), Some(vec![10, 255, 16]));
    assert_eq!(decode_hex(&b"0aFF10".to_vec()), None);
    assert_eq!(decode_hex(&b"".to_vec()), Some(vec![]));
    assert_eq!(decode_hex(&b"abc".to_vec()), None);
    assert_eq!(decode_hex(&b"0g".to_vec()), None);
}

#[test]
fn signed_message_is_timestamp_then_body() {
    assert_eq!(signed_message(&b"12".to_vec(), &b"{}".to_vec()), b"12{}".to_vec());
}

#[test]
fn key_must_be_32_bytes() {
    assert!(SignatureGate::from_hex(&hex(&[1u8; 31])).is_none());
    assert!(SignatureGate::from_hex(&b"xyz".to_vec()).is_none());
    assert!(SignatureGate::from_hex(&hex(&[1u8; 32])).is_some());
}

#[test]
fn upper_case_signature_header_is_rejected() {
    let sig = String::from_utf8(sign(TS, BODY)).unwrap().to_uppercase().into_bytes();
    let r = gate().verify_request(&Some(sig), &Some(TS.to_vec()), &BODY.to_vec());
    assert_eq!(r, Err(GateError::MalformedSignature));
}
