use nest256p1::hex;
use nest256p1::{ErasableBytes, KeyPairError, PrivateKey, PublicKey, Signature};
use p256::ecdsa::{Signature as EngineSignature, VerifyingKey};

const ORDER: [u8; 32] = [
    0xff, 0xff, 0xff, 0xff, 0x00, 0x00, 0x00, 0x00, 0xff, 0xff, 0xff, 0xff, 0xff, 0xff, 0xff, 0xff,
    0xbc, 0xe6, 0xfa, 0xad, 0xa7, 0x17, 0x9e, 0x84, 0xf3, 0xb9, 0xca, 0xc2, 0xfc, 0x63, 0x25, 0x51,
];

const SAMPLE_KEY_HEX: &str = "c9afa9d845ba75166b5c215767b1d6934e50c3db36e89b127b8a622b120f6721";
const SAMPLE_DIGEST_HEX: &str = "af2bdbe1aa9b6ec1e2ade1d694f41fc71a831d0268e9891562113d8a62add1bf";
const BASE_POINT_HEX: &str = "036b17d1f2e12c4247f8bce6e563a440f277037d812deb33a0f4a13945d898c296";

fn unhex(text: &str) -> Vec<u8> {
    hex::decode(text).expect("hex").as_slice().to_vec()
}

fn array32(text: &str) -> [u8; 32] {
    let bytes = unhex(text);
    let mut out = [0u8; 32];
    out.copy_from_slice(&bytes);
    out
}

fn scalar(last: u8) -> [u8; 32] {
    let mut out = [0u8; 32];
    out[31] = last;
    out
}

fn key(bytes: &[u8]) -> PrivateKey {
    match PrivateKey::from_bytes(bytes) {
        Ok(key) => key,
        Err(e) => panic!("rejected: {:?}", e),
    }
}

fn error_of(result: Result<PrivateKey, KeyPairError>) -> Option<KeyPairError> {
    result.err()
}

fn recover(digest: &[u8; 32], signature: &Signature) -> Vec<u8> {
    let mut rs = [0u8; 64];
    rs[..32].copy_from_slice(&signature.r());
    rs[32..].copy_from_slice(&signature.s());
    let engine_signature = EngineSignature::from_slice(&rs).expect("r and s");
    let id = signature.recovery_id().try_into().expect("recovery id");
    let recovered = VerifyingKey::recover_from_prehash(digest, &engine_signature, id).expect("recover");
    recovered.to_encoded_point(true).as_bytes().to_vec()
}

fn compressed(public: &PublicKey) -> Vec<u8> {
    public.compressed().to_vec()
}

#[test]
fn round_trip_of_small_and_large_scalars() {
    let mut largest = ORDER;
    largest[31] = 0x50;
    let sample = array32(SAMPLE_KEY_HEX);
    for d in [scalar(1), scalar(2), largest, sample] {
        let exported = key(&d).to_zeroizing_vec();
        assert_eq!(exported.as_slice(), &d[..]);
        assert_eq!(exported.as_slice().len(), 32);
    }
}

#[test]
fn hex_and_bytes_give_the_same_key() {
    let d = array32(SAMPLE_KEY_HEX);
    let from_bytes = key(&d);
    let from_lower = PrivateKey::from_hex(SAMPLE_KEY_HEX).expect("lower case");
    let from_upper = PrivateKey::from_hex(&SAMPLE_KEY_HEX.to_uppercase()).expect("upper case");
    let from_mixed = PrivateKey::from_hex(
        "C9afA9d845Ba75166b5C215767b1D6934e50c3Db36e89B127b8a622B120f6721",
    )
    .expect("mixed case");
    assert_eq!(from_lower.to_zeroizing_vec().as_slice(), from_bytes.to_zeroizing_vec().as_slice());
    assert_eq!(from_upper.to_zeroizing_vec().as_slice(), &d[..]);
    assert_eq!(from_mixed.to_zeroizing_vec().as_slice(), &d[..]);
}

#[test]
fn conversions_agree_with_constructors() {
    let d = array32(SAMPLE_KEY_HEX);
    let from_slice = PrivateKey::try_from(&d[..]).expect("bytes");
    let from_text = PrivateKey::try_from(SAMPLE_KEY_HEX).expect("text");
    assert_eq!(from_slice.to_zeroizing_vec().as_slice(), &d[..]);
    assert_eq!(from_text.to_zeroizing_vec().as_slice(), &d[..]);
    assert_eq!(error_of(PrivateKey::try_from(&d[..31])), Some(KeyPairError::InvalidSecretKey));
    assert_eq!(error_of(PrivateKey::try_from("zz")), Some(KeyPairError::InvalidSecretKey));
}

#[test]
fn rejects_wrong_lengths() {
    let d = array32(SAMPLE_KEY_HEX);
    let mut long = d.to_vec();
    long.push(0);
    let mut padded = vec![0u8];
    padded.extend_from_slice(&d);
    for data in [&d[..0], &d[..1], &d[..24], &d[..31], &d[8..], &long[..], &padded[..]] {
        assert_eq!(error_of(PrivateKey::from_bytes(data)), Some(KeyPairError::InvalidSecretKey));
    }
}

#[test]
fn rejects_zero_and_values_from_the_order_up() {
    let mut above = ORDER;
    above[31] = 0x52;
    for data in [[0u8; 32], ORDER, above, [0xffu8; 32]] {
        assert_eq!(error_of(PrivateKey::from_bytes(&data)), Some(KeyPairError::InvalidSecretKey));
    }
}

#[test]
fn accepts_one_and_the_order_minus_one() {
    let mut largest = ORDER;
    largest[31] = 0x50;
    assert!(PrivateKey::from_bytes(&scalar(1)).is_ok());
    assert!(PrivateKey::from_bytes(&largest).is_ok());
}

#[test]
fn rejects_text_that_is_not_hex() {
    let odd = &SAMPLE_KEY_HEX[1..];
    let with_letter = SAMPLE_KEY_HEX.replace("c9", "g9");
    let with_space = SAMPLE_KEY_HEX.replace("c9", " 9");
    let prefixed = format!("0x{}", &SAMPLE_KEY_HEX[2..]);
    let not_ascii = SAMPLE_KEY_HEX.replace("c9af", "\u{e9}a");
    for text in ["", "0", "abc", odd, &with_letter, &with_space, &prefixed, &not_ascii] {
        assert_eq!(error_of(PrivateKey::from_hex(text)), Some(KeyPairError::InvalidSecretKey));
    }
}

#[test]
fn rejects_hex_of_an_invalid_scalar() {
    let zero = "00".repeat(32);
    let order = "ffffffff00000000ffffffffffffffffbce6faada7179e84f3b9cac2fc632551";
    let short = "01".repeat(31);
    let long = "01".repeat(33);
    for text in [&zero[..], order, &short[..], &long[..]] {
        assert_eq!(error_of(PrivateKey::from_hex(text)), Some(KeyPairError::InvalidSecretKey));
    }
}

#[test]
fn hex_decoding_gives_exact_bytes() {
    assert_eq!(hex::decode("00ff10Ab").expect("hex").as_slice(), &[0x00, 0xff, 0x10, 0xab][..]);
    assert_eq!(hex::decode("").expect("empty").as_slice(), &[0u8; 0][..]);
    assert!(hex::decode("0").is_none());
    assert!(hex::decode("0g").is_none());
    assert!(hex::decode("g0").is_none());
    assert!(hex::decode("00 ").is_none());
    assert!(hex::decode("/0").is_none());
    assert!(hex::decode(":0").is_none());
    assert!(hex::decode("@0").is_none());
    assert!(hex::decode("G0").is_none());
    assert!(hex::decode("`0").is_none());
}

#[test]
fn hex_digits_have_their_values() {
    assert_eq!(hex::digit_value(b'0'), Some(0));
    assert_eq!(hex::digit_value(b'9'), Some(9));
    assert_eq!(hex::digit_value(b'a'), Some(10));
    assert_eq!(hex::digit_value(b'f'), Some(15));
    assert_eq!(hex::digit_value(b'A'), Some(10));
    assert_eq!(hex::digit_value(b'F'), Some(15));
    assert_eq!(hex::digit_value(b'g'), None);
    assert_eq!(hex::digit_value(0), None);
    assert_eq!(hex::digit_value(0xff), None);
}

#[test]
fn erasable_buffer_holds_what_was_put_in() {
    let mut buffer = ErasableBytes::with_capacity(4);
    assert_eq!(buffer.as_slice().len(), 0);
    buffer.push(7);
    buffer.push(9);
    assert_eq!(buffer.as_slice(), &[7u8, 9][..]);
    let copy = ErasableBytes::from_slice(&[1, 2, 3]);
    assert_eq!(copy.as_slice(), &[1u8, 2, 3][..]);
    assert_eq!(copy.as_slice().len(), 3);
}

#[test]
fn public_key_of_one_is_the_base_point() {
    let public = key(&scalar(1)).public();
    assert_eq!(compressed(&public), unhex(BASE_POINT_HEX));
    assert_eq!(public.compressed().len(), 33);
}

#[test]
fn public_key_of_the_sample_key() {
    let public = PrivateKey::from_hex(SAMPLE_KEY_HEX).expect("key").public();
    assert_eq!(
        compressed(&public),
        unhex("0360fed4ba255a9d31c961eb74c6356d68c049b8923b61fa6ce669622e60f29fb6"),
    );
}

#[test]
fn signature_of_the_sample_digest() {
    let private = PrivateKey::from_hex(SAMPLE_KEY_HEX).expect("key");
    let digest = array32(SAMPLE_DIGEST_HEX);
    let signature = private.sign(digest).expect("signature");
    assert_eq!(
        signature.r().to_vec(),
        unhex("efd48b2aacb6a8fd1140dd9cd45e81d69d2c877b56aaf991c34d0ea84eaf3716"),
    );
    assert_eq!(
        signature.s().to_vec(),
        unhex("f7cb1c942d657c41d436c7a1b6e29f65f3e900dbb9aff4064dc4ab2f843acda8"),
    );
    assert!(signature.recovery_id() <= 3);
    assert_eq!(recover(&digest, &signature), compressed(&private.public()));
}

#[test]
fn signature_encoding_is_r_then_s_then_recovery_id() {
    let private = PrivateKey::from_hex(SAMPLE_KEY_HEX).expect("key");
    let signature = private.sign(array32(SAMPLE_DIGEST_HEX)).expect("signature");
    let bytes = signature.to_bytes();
    assert_eq!(bytes.len(), 65);
    assert_eq!(&bytes[..32], &signature.r()[..]);
    assert_eq!(&bytes[32..64], &signature.s()[..]);
    assert_eq!(bytes[64], signature.recovery_id());
}

#[test]
fn signing_is_deterministic() {
    let digest = array32(SAMPLE_DIGEST_HEX);
    let first = PrivateKey::from_hex(SAMPLE_KEY_HEX).expect("key").sign(digest);
    let second = PrivateKey::from_hex(SAMPLE_KEY_HEX).expect("key").sign(digest);
    assert_eq!(first, second);
    assert_eq!(first.expect("first").to_bytes(), second.expect("second").to_bytes());
    let private = key(&scalar(5));
    assert_eq!(private.sign([0x11; 32]), private.sign([0x11; 32]));
}

#[test]
fn signatures_differ_with_the_digest() {
    let private = key(&scalar(5));
    assert_ne!(private.sign([0x11; 32]), private.sign([0x12; 32]));
}

#[test]
fn signatures_recover_to_the_public_key() {
    let mut largest = ORDER;
    largest[31] = 0x50;
    let digests = [[0x01u8; 32], [0xffu8; 32], array32(SAMPLE_DIGEST_HEX), ORDER];
    for d in [scalar(1), scalar(3), largest, array32(SAMPLE_KEY_HEX)] {
        let private = key(&d);
        let public = compressed(&private.public());
        for digest in digests {
            let signature = private.sign(digest).expect("signature");
            assert_eq!(recover(&digest, &signature), public);
        }
    }
}

#[test]
fn signatures_do_not_recover_to_another_key() {
    let a = key(&scalar(7));
    let b = key(&array32(SAMPLE_KEY_HEX));
    let digest = array32(SAMPLE_DIGEST_HEX);
    let by_a = a.sign(digest).expect("a signs");
    let by_b = b.sign(digest).expect("b signs");
    assert_ne!(compressed(&a.public()), compressed(&b.public()));
    assert_ne!(recover(&digest, &by_a), compressed(&b.public()));
    assert_ne!(recover(&digest, &by_b), compressed(&a.public()));
}

#[test]
fn scalar_one_and_zero_digest() {
    let private = key(&scalar(1));
    let digest = [0u8; 32];
    let first = private.sign(digest);
    for _ in 0..4 {
        assert_eq!(private.sign(digest), first);
    }
    match first {
        Ok(signature) => {
            assert!(signature.recovery_id() <= 3);
            assert_eq!(recover(&digest, &signature), unhex(BASE_POINT_HEX));
            assert_eq!(recover(&digest, &signature), compressed(&private.public()));
        }
        Err(e) => assert_eq!(e, KeyPairError::SigningError),
    }
}

#[test]
fn engine_faults_become_signing_errors() {
    assert_eq!(Signature::from_engine_outcome(None), Err(KeyPairError::SigningError));
}

#[test]
fn outcomes_that_are_no_signature_become_signing_errors() {
    let one = scalar(1);
    let zero = [0u8; 32];
    assert_eq!(Signature::from_engine_outcome(Some((zero, one, 0))), Err(KeyPairError::SigningError));
    assert_eq!(Signature::from_engine_outcome(Some((one, zero, 0))), Err(KeyPairError::SigningError));
    assert_eq!(Signature::from_engine_outcome(Some((ORDER, one, 0))), Err(KeyPairError::SigningError));
    assert_eq!(Signature::from_engine_outcome(Some((one, ORDER, 0))), Err(KeyPairError::SigningError));
    assert_eq!(Signature::from_engine_outcome(Some((one, one, 4))), Err(KeyPairError::SigningError));
    assert_eq!(Signature::from_engine_outcome(Some((one, one, 255))), Err(KeyPairError::SigningError));
}

#[test]
fn well_formed_outcomes_become_signatures() {
    let r = array32(SAMPLE_KEY_HEX);
    let s = scalar(9);
    for id in 0..=3u8 {
        let signature = Signature::from_engine_outcome(Some((r, s, id))).expect("signature");
        assert_eq!(signature.r(), r);
        assert_eq!(signature.s(), s);
        assert_eq!(signature.recovery_id(), id);
        let mut expected = r.to_vec();
        expected.extend_from_slice(&s);
        expected.push(id);
        assert_eq!(signature.to_bytes(), expected);
    }
}
