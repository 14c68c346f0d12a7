//! Keys and signed data.

use ed25519_dalek::SignatureError;
use vstd::prelude::*;

use crate::codec::{DeserializeError, SerializeError};
use crate::ed25519::{SigningKey, VerifyingKey};
use crate::encoding::{Base64Engine, DecodeError};
use crate::signed_data::{Error, SignedData, ToSigned};

verus! {

/// A signature is taken exactly if strict Ed25519 verification takes it.
pub proof fn law_strict_verification_decides(
    key: &VerifyingKey,
    message: &[u8],
    signature: &[u8; 64],
    result: Result<(), SignatureError>,
)
    requires
        call_ensures(VerifyingKey::verify_strict, (key, message, signature), result),
    ensures
        result is Ok <==> crate::ed25519::ed25519_accepts(key@, message@, signature@),
{
}

/// The key that verifies is the Ed25519 public key of the secret, and the signature is the Ed25519
/// signature.
pub proof fn law_keys_are_ed25519(
    key: &SigningKey,
    message: &[u8],
    verifying_key: VerifyingKey,
    signature: [u8; 64],
)
    requires
        call_ensures(SigningKey::verifying_key, (key,), verifying_key),
        call_ensures(SigningKey::sign, (key, message), signature),
    ensures
        verifying_key@ == crate::ed25519::ed25519_public_key(key@),
        signature@ == crate::ed25519::ed25519_signature(key@, message@),
{
}

/// Bytes make a verifying key exactly if they decode to one, and it has those bytes.
pub proof fn law_verifying_keys_decode(
    bytes: &[u8; 32],
    result: Result<VerifyingKey, SignatureError>,
)
    requires
        call_ensures(VerifyingKey::from_bytes, (bytes,), result),
    ensures
        result is Ok <==> crate::ed25519::ed25519_key_decodes(bytes@),
        result matches Ok(key) ==> key@ == bytes@,
{
}

/// Copies of keys are those keys.
pub proof fn law_key_copies(
    signing_key: &SigningKey,
    signing_copy: SigningKey,
    verifying_key: &VerifyingKey,
    verifying_copy: VerifyingKey,
)
    requires
        call_ensures(<SigningKey as Clone>::clone, (signing_key,), signing_copy),
        call_ensures(<VerifyingKey as Clone>::clone, (verifying_key,), verifying_copy),
    ensures
        signing_copy@ == signing_key@,
        verifying_copy@ == verifying_key@,
{
}

/// Signing bytes keeps them and puts their signature under the key beside them.
pub proof fn law_signed_bytes<T>(data: Box<[u8]>, key: &SigningKey, signed: SignedData<T>)
    requires
        call_ensures(SignedData::<T>::sign_raw, (data, key), signed),
    ensures
        signed.data@ == data@,
        signed.signature@ == crate::ed25519::ed25519_signature(key@, data@),
{
}

/// Signing a value signs what the encoder makes of it, and fails only where the encoder does, with
/// its error.
pub proof fn law_signed_values<T, F>(
    value: &T,
    key: &SigningKey,
    encode: F,
    result: Result<SignedData<T>, Error>,
) where F: FnOnce(&T) -> Result<Vec<u8>, SerializeError>
    requires
        call_ensures(SignedData::<T>::sign::<F>, (value, key, encode), result),
    ensures
        match result {
            Ok(signed) => signed.signature@ == crate::ed25519::ed25519_signature(
                key@,
                signed.data@,
            ) && exists|bytes: Vec<u8>| #[trigger]
                encode.ensures((value,), Ok(bytes)) && bytes@ == signed.data@,
            Err(Error::Serialize(error)) => encode.ensures((value,), Err(error)),
            Err(_) => false,
        },
{
}

/// The same of signing as a method of the value.
pub proof fn law_values_to_signed<T, F>(
    value: &T,
    key: &SigningKey,
    encode: F,
    result: Result<SignedData<T>, Error>,
) where F: FnOnce(&T) -> Result<Vec<u8>, SerializeError>
    requires
        call_ensures(<T as ToSigned>::to_signed::<F>, (value, key, encode), result),
    ensures
        match result {
            Ok(signed) => signed.signature@ == crate::ed25519::ed25519_signature(
                key@,
                signed.data@,
            ) && exists|bytes: Vec<u8>| #[trigger]
                encode.ensures((value,), Ok(bytes)) && bytes@ == signed.data@,
            Err(Error::Serialize(error)) => encode.ensures((value,), Err(error)),
            Err(_) => false,
        },
{
}

/// Data are handed out exactly if strict verification takes the signature of them, and then as
/// they are. Otherwise the error is one of verification.
pub proof fn law_only_verified_data_are_handed_out<T>(
    signed: SignedData<T>,
    key: &VerifyingKey,
    borrowed: Result<&[u8], Error>,
    owned: Result<Box<[u8]>, Error>,
)
    requires
        call_ensures(SignedData::<T>::to_verified_raw, (&signed, key), borrowed),
        call_ensures(SignedData::<T>::into_verified_raw, (signed, key), owned),
    ensures
        borrowed is Ok <==> crate::ed25519::ed25519_accepts(
            key@,
            signed.data@,
            signed.signature@,
        ),
        owned is Ok <==> crate::ed25519::ed25519_accepts(key@, signed.data@, signed.signature@),
        match borrowed {
            Ok(data) => data@ == signed.data@,
            Err(error) => error is Verify,
        },
        match owned {
            Ok(data) => data@ == signed.data@,
            Err(error) => error is Verify,
        },
{
}

/// A value comes out only if strict verification takes the signature, and it is what the decoder
/// makes of the data. Where verification refuses, that is the error; where the decoder fails, its
/// error is.
pub proof fn law_only_verified_values_are_handed_out<T, F>(
    signed: &SignedData<T>,
    key: &VerifyingKey,
    decode: F,
    result: Result<T, Error>,
) where F: FnOnce(&[u8]) -> Result<T, DeserializeError>
    requires
        call_ensures(SignedData::<T>::to_verified::<F>, (signed, key, decode), result),
    ensures
        !crate::ed25519::ed25519_accepts(key@, signed.data@, signed.signature@) <==> (
        result matches Err(error) && error is Verify),
        match result {
            Ok(value) => exists|data: &[u8]|
                data@ == signed.data@ && #[trigger] decode.ensures((data,), Ok(value)),
            Err(Error::Deserialize(error)) => exists|data: &[u8]|
                data@ == signed.data@ && #[trigger] decode.ensures((data,), Err(error)),
            Err(error) => error is Verify,
        },
{
}

/// The bytes of signed data are the signature, which takes the first 64, and then the data.
pub proof fn law_bytes_of_signed_data<T>(signed: &SignedData<T>, bytes: Vec<u8>)
    requires
        call_ensures(SignedData::<T>::to_bytes, (signed,), bytes),
    ensures
        bytes@.len() == 64 + signed.data@.len(),
        forall|i: int| 0 <= i < 64 ==> #[trigger] bytes@[i] == signed.signature@[i],
        forall|i: int|
            0 <= i < signed.data@.len() ==> bytes@[64 + i] == #[trigger] signed.data@[i],
{
    assert(bytes@ == signed.signature@ + signed.data@);
}

/// The base64 text of signed data is that of the signature followed by the data.
pub proof fn law_text_of_signed_data<T>(
    signed: &SignedData<T>,
    engine: &Base64Engine,
    text: Box<str>,
)
    requires
        call_ensures(SignedData::<T>::to_base64, (signed, engine), text),
    ensures
        text@ == crate::encoding::base64_text(
            engine.alphabet(),
            engine.encode_padding(),
            signed.signature@ + signed.data@,
        ),
{
}

/// Bytes read as signed data exactly if there are at least 64 of them: those are the signature, the
/// others the data. Fewer are an error that tells how many; an error of decoding is handed on.
pub proof fn law_frames_are_read<T>(
    decoded: Result<Vec<u8>, DecodeError>,
    result: Result<SignedData<T>, Error>,
)
    requires
        call_ensures(SignedData::<T>::try_from_decoded, (decoded,), result),
    ensures
        match decoded {
            Err(error) => result == Err::<SignedData<T>, Error>(Error::Base64Decode(error)),
            Ok(frame) => if frame@.len() < 64 {
                result matches Err(Error::InvalidLength(length)) && length == frame@.len()
            } else {
                &&& result matches Ok(signed)
                &&& signed.data@.len() == frame@.len() - 64
                &&& forall|i: int| 0 <= i < 64 ==> #[trigger] signed.signature@[i] == frame@[i]
                &&& forall|i: int|
                    0 <= i < signed.data@.len() ==> #[trigger] signed.data@[i] == frame@[64 + i]
            },
        },
{
}

/// The same of text that is decoded first.
pub proof fn law_texts_are_read<T>(
    encoded: &[u8],
    engine: &Base64Engine,
    result: Result<SignedData<T>, Error>,
)
    requires
        call_ensures(SignedData::<T>::try_from_base64, (encoded, engine), result),
    ensures
        match crate::encoding::base64_decoded(
            engine.alphabet(),
            engine.decode_allow_trailing_bits(),
            engine.decode_padding(),
            encoded@,
        ) {
            Err(error) => result == Err::<SignedData<T>, Error>(Error::Base64Decode(error)),
            Ok(frame) => if frame.len() < 64 {
                result matches Err(Error::InvalidLength(length)) && length == frame.len()
            } else {
                &&& result matches Ok(signed)
                &&& signed.data@.len() == frame.len() - 64
                &&& forall|i: int| 0 <= i < 64 ==> #[trigger] signed.signature@[i] == frame[i]
                &&& forall|i: int|
                    0 <= i < signed.data@.len() ==> #[trigger] signed.data@[i] == frame[64 + i]
            },
        },
{
}

/// Why signing, reading or verifying failed is kept as it is.
pub proof fn law_errors_keep_their_cause(
    serialize: SerializeError,
    deserialize: DeserializeError,
    verify: SignatureError,
    decode: DecodeError,
    by_serialize: Error,
    by_deserialize: Error,
    by_verify: Error,
    by_decode: Error,
)
    requires
        call_ensures(<Error as From<SerializeError>>::from, (serialize,), by_serialize),
        call_ensures(<Error as From<DeserializeError>>::from, (deserialize,), by_deserialize),
        call_ensures(<Error as From<SignatureError>>::from, (verify,), by_verify),
        call_ensures(<Error as From<DecodeError>>::from, (decode,), by_decode),
    ensures
        by_serialize == Error::Serialize(serialize),
        by_deserialize == Error::Deserialize(deserialize),
        by_verify == Error::Verify(verify),
        by_decode == Error::Base64Decode(decode),
{
}

/// A copy of signed data has the same signature and the same data.
pub proof fn law_signed_data_copies<T: Clone>(signed: &SignedData<T>, copy: SignedData<T>)
    requires
        call_ensures(<SignedData<T> as Clone>::clone, (signed,), copy),
    ensures
        copy.signature@ == signed.signature@,
        copy.data@ == signed.data@,
{
}

} // verus!
