use base64::prelude::{BASE64_STANDARD, BASE64_URL_SAFE_NO_PAD};
use base64::Engine;
use serde::de::{DeserializeOwned, MapAccess, Visitor};
use serde::ser::SerializeStruct;
use serde::{Deserialize, Deserializer, Serialize, Serializer};
use service_kit::codec::{DeserializeError, SerializeError};
use service_kit::ed25519::{SigningKey, VerifyingKey};
use service_kit::encoding::{Base64Engine, DecodeError, DecodePadding};
use service_kit::signed_data::{Error, SignedData, ToSigned};

const STANDARD_SYMBOLS: &str = "ABCDEFGHIJKLMNOPQRSTUVWXYZabcdefghijklmnopqrstuvwxyz0123456789+/";

fn to_cbor<T: Serialize>(value: &T) -> Result<Vec<u8>, SerializeError> {
    let mut buf = Vec::with_capacity(128);
    match ciborium::into_writer(value, &mut buf) {
        Ok(()) => Ok(buf),
        Err(ciborium::ser::Error::Io(error)) => Err(SerializeError::Io(error.to_string())),
        Err(ciborium::ser::Error::Value(text)) => Err(SerializeError::Value(text)),
    }
}

fn from_cbor<T: DeserializeOwned>(bytes: &[u8]) -> Result<T, DeserializeError> {
    ciborium::from_reader(bytes).map_err(|error| match error {
        ciborium::de::Error::Io(error) => DeserializeError::Io(format!("{error:?}")),
        ciborium::de::Error::Syntax(at) => DeserializeError::Syntax(at),
        ciborium::de::Error::Semantic(at, text) => DeserializeError::Semantic(at, text),
        ciborium::de::Error::RecursionLimitExceeded => DeserializeError::RecursionLimitExceeded,
    })
}

fn generate() -> SigningKey {
    let key = ed25519_dalek::SigningKey::generate(&mut rand::rngs::OsRng);
    SigningKey::from_bytes(&key.to_bytes())
}

#[derive(Debug, PartialEq)]
struct TestData {
    something: u64,
}

impl Serialize for TestData {
    fn serialize<S: Serializer>(&self, serializer: S) -> Result<S::Ok, S::Error> {
        let mut data = serializer.serialize_struct("TestData", 1)?;
        data.serialize_field("something", &self.something)?;
        data.end()
    }
}

struct TestDataVisitor;

impl<'de> Visitor<'de> for TestDataVisitor {
    type Value = TestData;

    fn expecting(&self, formatter: &mut std::fmt::Formatter<'_>) -> std::fmt::Result {
        formatter.write_str("test data")
    }

    fn visit_map<A: MapAccess<'de>>(self, mut map: A) -> Result<TestData, A::Error> {
        let mut something = None;
        while let Some((key, value)) = map.next_entry::<String, u64>()? {
            if key == "something" {
                something = Some(value);
            }
        }
        something
            .map(|something| TestData { something })
            .ok_or_else(|| serde::de::Error::missing_field("something"))
    }
}

impl<'de> Deserialize<'de> for TestData {
    fn deserialize<D: Deserializer<'de>>(deserializer: D) -> Result<TestData, D::Error> {
        deserializer.deserialize_struct("TestData", &["something"], TestDataVisitor)
    }
}

#[test]
fn sign_and_verify() {
    let data = TestData { something: 1234 };

    let signing_key = generate();
    let verifying_key = signing_key.verifying_key();

    let signed = data.to_signed(&signing_key, to_cbor).unwrap();
    let engine = Base64Engine::url_safe_no_pad();
    let encoded = signed.to_base64(&engine);
    let decoded = SignedData::<TestData>::try_from_base64(encoded.as_bytes(), &engine).unwrap();
    let verified = decoded.to_verified(&verifying_key, from_cbor).unwrap();
    assert_eq!(data, verified);
}

#[test]
fn sign_and_verify_0() {
    let signing_key = generate();
    let verifying_key = signing_key.verifying_key();

    let signed = SignedData::<()>::sign_raw([].into(), &signing_key);
    let verified = signed.into_verified_raw(&verifying_key).unwrap();
    assert_eq!(&*verified, &[]);
}

#[test]
fn tampered_data() {
    let data = 1234_u64;

    let signing_key = generate();
    let verifying_key = signing_key.verifying_key();

    let mut signed = data.to_signed(&signing_key, to_cbor).unwrap();

    let data = &mut signed.data[0];
    *data = data.wrapping_add(1);

    let res = signed.to_verified(&verifying_key, from_cbor);
    assert!(matches!(res, Err(Error::Verify(_))), "{res:?}");
}

#[test]
fn tampered_signature() {
    let data = 1234_u64;

    let signing_key = generate();
    let verifying_key = signing_key.verifying_key();

    let mut signed = data.to_signed(&signing_key, to_cbor).unwrap();

    let signature = &mut signed.signature[0];
    *signature = signature.wrapping_add(1);

    let res = signed.to_verified(&verifying_key, from_cbor);
    assert!(matches!(res, Err(Error::Verify(_))), "{res:?}");
}

#[test]
fn mismatched_key() {
    let data = 1234_u64;

    let signing_key = generate();
    let signing_key2 = generate();
    let verifying_key = signing_key2.verifying_key();

    let signed = data.to_signed(&signing_key, to_cbor).unwrap();
    let res = signed.to_verified(&verifying_key, from_cbor);
    assert!(matches!(res, Err(Error::Verify(_))), "{res:?}");
}

#[test]
fn frame_is_signature_and_data() {
    let key = SigningKey::from_bytes(&[7; 32]);
    let signed = SignedData::<()>::sign_raw(Box::from(*b"abc"), &key);
    let frame = signed.to_bytes();
    assert_eq!(frame.len(), 67);
    assert_eq!(&frame[..64], &signed.signature);
    assert_eq!(&frame[64..], b"abc");
    assert_eq!(signed.signature, key.sign(b"abc"));

    let read = SignedData::<()>::try_from_decoded(Ok(frame)).unwrap();
    assert_eq!(read.signature, signed.signature);
    assert_eq!(read.data, signed.data);
}

#[test]
fn shortest_frame_has_no_data() {
    let read = SignedData::<()>::try_from_decoded(Ok(vec![9; 64])).unwrap();
    assert_eq!(read.signature, [9; 64]);
    assert!(read.data.is_empty());

    let short = SignedData::<()>::try_from_decoded(Ok(vec![9; 63]));
    assert!(matches!(short, Err(Error::InvalidLength(63))), "{short:?}");
    let empty = SignedData::<()>::try_from_base64(b"", &Base64Engine::url_safe_no_pad());
    assert!(matches!(empty, Err(Error::InvalidLength(0))), "{empty:?}");
}

#[test]
fn base64_text_is_that_of_the_crate() {
    let key = SigningKey::from_bytes(&[1; 32]);
    for length in 0..5 {
        let signed = SignedData::<()>::sign_raw(vec![0xfe; length].into_boxed_slice(), &key);
        let frame = signed.to_bytes();

        let url_safe = Base64Engine::url_safe_no_pad();
        assert_eq!(*signed.to_base64(&url_safe), *BASE64_URL_SAFE_NO_PAD.encode(&frame));

        let standard =
            Base64Engine::new(STANDARD_SYMBOLS, true, false, DecodePadding::RequireCanonical)
                .unwrap();
        let text = signed.to_base64(&standard);
        assert_eq!(*text, *BASE64_STANDARD.encode(&frame));

        let read = SignedData::<()>::try_from_base64(text.as_bytes(), &standard).unwrap();
        assert_eq!(read.signature, signed.signature);
        assert_eq!(read.data, signed.data);
    }
}

#[test]
fn text_that_is_not_base64_is_refused() {
    let res = SignedData::<()>::try_from_base64(b"ab*d", &Base64Engine::url_safe_no_pad());
    assert!(
        matches!(res, Err(Error::Base64Decode(DecodeError::InvalidByte(2, b'*')))),
        "{res:?}"
    );
    let res = SignedData::<()>::try_from_decoded(Err(DecodeError::InvalidPadding));
    assert!(matches!(res, Err(Error::Base64Decode(DecodeError::InvalidPadding))), "{res:?}");
}

#[test]
fn values_that_do_not_encode_are_not_signed() {
    let key = generate();
    let res = 5_u8.to_signed(&key, |_| Err(SerializeError::Value("no".to_owned())));
    match res {
        Err(Error::Serialize(SerializeError::Value(text))) => assert_eq!(text, "no"),
        other => panic!("{other:?}"),
    }
}

#[test]
fn verified_bytes_that_do_not_decode_are_refused() {
    let key = generate();
    let signed = SignedData::<u64>::sign_raw(Box::from([0xff]), &key);
    let res = signed.to_verified(&key.verifying_key(), from_cbor);
    assert!(
        matches!(res, Err(Error::Deserialize(DeserializeError::Semantic(None, _)))),
        "{res:?}"
    );
}

#[test]
fn unverified_bytes_are_not_decoded() {
    let signed = SignedData::<u64>::sign_raw(Box::from([0]), &generate());
    let res = signed.to_verified(&generate().verifying_key(), |_| panic!("decoded"));
    assert!(matches!(res, Err(Error::Verify(_))), "{res:?}");
}

#[test]
fn both_ways_to_take_raw_data_agree() {
    let key = generate();
    let verifying_key = key.verifying_key();
    let signed = SignedData::<()>::sign_raw(Box::from(*b"raw"), &key);
    assert_eq!(signed.to_verified_raw(&verifying_key).unwrap(), b"raw");
    assert_eq!(&*signed.clone().into_verified_raw(&verifying_key).unwrap(), b"raw");

    let other = generate().verifying_key();
    assert!(matches!(signed.to_verified_raw(&other), Err(Error::Verify(_))));
    assert!(matches!(signed.into_verified_raw(&other), Err(Error::Verify(_))));
}

#[test]
fn keys_keep_their_bytes() {
    let key = SigningKey::from_bytes(&[3; 32]);
    assert_eq!(key.to_bytes(), [3; 32]);
    assert_eq!(key.clone().to_bytes(), [3; 32]);
    let public = key.verifying_key();
    assert_eq!(VerifyingKey::from_bytes(&public.to_bytes()).unwrap().to_bytes(), public.to_bytes());
    assert_eq!(public.clone().to_bytes(), public.to_bytes());
}

fn unhex(text: &str) -> Vec<u8> {
    (0..text.len() / 2).map(|i| u8::from_str_radix(&text[2 * i..2 * i + 2], 16).unwrap()).collect()
}

#[test]
fn signatures_are_those_of_ed25519() {
    let secret = unhex("9d61b19deffd5a60ba844af492ec2cc44449c5697b326919703bac031cae7f60");
    let public = unhex("d75a980182b10ab7d54bfed3c964073a0ee172f3daa62325af021a68f707511a");
    let signature = unhex(
        "e5564300c360ac729086e2cc806e828a84877f1eb8e5d974d873e065224901555fb8821590a33bacc61e39701cf9b46bd25bf5f0595bbe24655141438e7a100b",
    );
    let key = SigningKey::from_bytes(&secret.try_into().unwrap());
    assert_eq!(key.verifying_key().to_bytes().to_vec(), public);
    assert_eq!(key.sign(b"").to_vec(), signature);
    let signature: [u8; 64] = signature.try_into().unwrap();
    assert!(key.verifying_key().verify_strict(b"", &signature).is_ok());
    assert!(key.verifying_key().verify_strict(b"x", &signature).is_err());
}

#[test]
fn bytes_off_the_curve_are_no_key() {
    let mut bytes = [0; 32];
    bytes[0] = 2;
    assert!(VerifyingKey::from_bytes(&bytes).is_err());
}

#[test]
fn identity_nonce_is_refused() {
    let key = SigningKey::from_bytes(&[4; 32]);
    let mut signature = [0; 64];
    signature[0] = 1;
    assert!(key.verifying_key().verify_strict(b"", &signature).is_err());
}

#[test]
fn signing_is_deterministic() {
    let key = generate();
    let one = SignedData::<()>::sign_raw(Box::from(*b"same"), &key);
    let other = SignedData::<()>::sign_raw(Box::from(*b"same"), &key);
    assert_eq!(one.to_bytes(), other.to_bytes());
    let different = SignedData::<()>::sign_raw(Box::from(*b"else"), &key);
    assert_ne!(one.signature, different.signature);
}

#[test]
fn both_ways_to_sign_a_value_agree() {
    let key = generate();
    let by_method = 77_u8.to_signed(&key, to_cbor).unwrap();
    let by_function = SignedData::sign(&77_u8, &key, to_cbor).unwrap();
    assert_eq!(by_method.to_bytes(), by_function.to_bytes());
    let fail = |_: &u8| Err(SerializeError::Value("no".to_owned()));
    assert!(matches!(77_u8.to_signed(&key, fail), Err(Error::Serialize(_))));
    assert!(matches!(SignedData::sign(&77_u8, &key, fail), Err(Error::Serialize(_))));
}
