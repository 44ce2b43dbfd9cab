use registry_log::encoding::{
    decode_base64, encode_base64, key_id, signature_from_der_to_fixed_width,
    signature_from_fixed_width_to_der,
};
use warg_crypto::signing::{generate_p256_pair, Signature};

fn signature_of(message: &[u8]) -> p256::ecdsa::Signature {
    let (_, key) = generate_p256_pair();
    match key.sign(message).unwrap() {
        Signature::P256(signature) => signature,
    }
}

#[test]
fn base64_of_known_bytes() {
    assert_eq!(encode_base64(vec![]), "");
    assert_eq!(encode_base64(b"f".to_vec()), "Zg==");
    assert_eq!(encode_base64(b"fo".to_vec()), "Zm8=");
    assert_eq!(encode_base64(b"foo".to_vec()), "Zm9v");
    assert_eq!(encode_base64(b"hello".to_vec()), "aGVsbG8=");
    assert_eq!(encode_base64(vec![0xfb, 0xff]), "+/8=");
}

#[test]
fn base64_of_known_text() {
    assert_eq!(decode_base64("".to_string()), Ok(vec![]));
    assert_eq!(decode_base64("Zm9v".to_string()), Ok(b"foo".to_vec()));
    assert_eq!(decode_base64("aGVsbG8=".to_string()), Ok(b"hello".to_vec()));
    assert_eq!(decode_base64("+/8=".to_string()), Ok(vec![0xfb, 0xff]));
}

#[test]
fn base64_round_trip() {
    for n in 0..70usize {
        let bytes: Vec<u8> = (0..n).map(|i| (i * 37 + n) as u8).collect();
        assert_eq!(decode_base64(encode_base64(bytes.clone())), Ok(bytes));
    }
}

#[test]
fn base64_rejects_what_is_no_base64() {
    assert_eq!(decode_base64("aGVsbG8".to_string()), Err(()));
    assert_eq!(decode_base64("a".to_string()), Err(()));
    assert_eq!(decode_base64("!!!!".to_string()), Err(()));
    assert_eq!(decode_base64("aGVs bG8=".to_string()), Err(()));
    assert_eq!(decode_base64("-_8=".to_string()), Err(()));
}

#[test]
fn key_id_is_the_fingerprint_of_the_key() {
    let (key, _) = generate_p256_pair();
    assert_eq!(key_id(key.to_string()), Ok(key.fingerprint().to_string()));
    let (other, _) = generate_p256_pair();
    assert_ne!(key_id(key.to_string()), key_id(other.to_string()));
}

#[test]
fn key_id_rejects_what_is_no_key() {
    assert_eq!(key_id("".to_string()), Err(()));
    assert_eq!(key_id("ecdsa-p256".to_string()), Err(()));
    assert_eq!(key_id("ecdsa-p256:AAAA".to_string()), Err(()));
    let (key, _) = generate_p256_pair();
    assert_eq!(key_id(key.to_string().replace("ecdsa-p256", "rsa")), Err(()));
    assert_eq!(key_id(format!("{key}:")), Err(()));
}

#[test]
fn signature_from_fixed_width_to_der_and_back() {
    for n in 0..8u8 {
        let signature = signature_of(&[n; 5]);
        let fixed = signature.to_vec();
        let der = signature.to_der().as_bytes().to_vec();
        assert_eq!(fixed.len(), 64);
        assert_eq!(signature_from_fixed_width_to_der(fixed.clone()), Ok(der.clone()));
        assert_eq!(signature_from_der_to_fixed_width(der), Ok(fixed));
    }
}

#[test]
fn signature_of_known_bytes() {
    let mut fixed = vec![0u8; 64];
    fixed[31] = 1;
    fixed[63] = 2;
    let der = vec![0x30, 0x06, 0x02, 0x01, 0x01, 0x02, 0x01, 0x02];
    assert_eq!(signature_from_fixed_width_to_der(fixed.clone()), Ok(der.clone()));
    assert_eq!(signature_from_der_to_fixed_width(der), Ok(fixed));
}

#[test]
fn signature_conversions_reject_malformed_bytes() {
    assert_eq!(signature_from_fixed_width_to_der(vec![]), Err(()));
    assert_eq!(signature_from_fixed_width_to_der(vec![1; 63]), Err(()));
    assert_eq!(signature_from_fixed_width_to_der(vec![1; 65]), Err(()));
    assert_eq!(signature_from_fixed_width_to_der(vec![0; 64]), Err(()));
    assert_eq!(signature_from_fixed_width_to_der(vec![0xff; 64]), Err(()));
    assert_eq!(signature_from_der_to_fixed_width(vec![]), Err(()));
    assert_eq!(signature_from_der_to_fixed_width(vec![1; 64]), Err(()));
    assert_eq!(signature_from_der_to_fixed_width(vec![0x30, 0x00]), Err(()));
}
