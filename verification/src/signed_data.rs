//! Bytes that carry an Ed25519 signature, and the values encoded in them.

use std::marker::PhantomData;

use ed25519_dalek::SignatureError;
use vstd::prelude::*;
use vstd::slice::*;
use vstd::utf8::*;

use crate::codec::{DeserializeError, SerializeError};
use crate::ed25519::{SigningKey, VerifyingKey, SIGNATURE_LENGTH};
use crate::encoding::{Base64Engine, DecodeError};

verus! {

/// The encoding of a `T` together with a signature of it.
///
/// Nothing says that the signature fits until it is verified.
#[must_use]
#[derive(Debug)]
pub struct SignedData<T> {
    pub signature: [u8; SIGNATURE_LENGTH],
    pub data: Box<[u8]>,
    pub _data: PhantomData<T>,
}

/// Why signing, reading or verifying failed.
#[derive(Debug)]
pub enum Error {
    /// The value has no encoding.
    Serialize(SerializeError),
    /// The verified bytes do not encode a value.
    Deserialize(DeserializeError),
    /// The signature is not one of the data under the key.
    Verify(SignatureError),
    /// The text is not base64.
    Base64Decode(DecodeError),
    /// The bytes, so many, are too few to hold a signature.
    InvalidLength(usize),
}

impl From<SerializeError> for Error {
    fn from(error: SerializeError) -> Self {
        Error::Serialize(error)
    }
}

impl vstd::std_specs::convert::FromSpecImpl<SerializeError> for Error {
    open spec fn obeys_from_spec() -> bool {
        true
    }

    open spec fn from_spec(error: SerializeError) -> Self {
        Error::Serialize(error)
    }
}

impl From<DeserializeError> for Error {
    fn from(error: DeserializeError) -> Self {
        Error::Deserialize(error)
    }
}

impl vstd::std_specs::convert::FromSpecImpl<DeserializeError> for Error {
    open spec fn obeys_from_spec() -> bool {
        true
    }

    open spec fn from_spec(error: DeserializeError) -> Self {
        Error::Deserialize(error)
    }
}

impl From<SignatureError> for Error {
    fn from(error: SignatureError) -> Self {
        Error::Verify(error)
    }
}

impl vstd::std_specs::convert::FromSpecImpl<SignatureError> for Error {
    open spec fn obeys_from_spec() -> bool {
        true
    }

    open spec fn from_spec(error: SignatureError) -> Self {
        Error::Verify(error)
    }
}

impl From<DecodeError> for Error {
    fn from(error: DecodeError) -> Self {
        Error::Base64Decode(error)
    }
}

impl vstd::std_specs::convert::FromSpecImpl<DecodeError> for Error {
    open spec fn obeys_from_spec() -> bool {
        true
    }

    open spec fn from_spec(error: DecodeError) -> Self {
        Error::Base64Decode(error)
    }
}

/// Calls `Vec::into_boxed_slice`.
///
/// Claimed: the slice holds the elements of the vector.
#[verifier::external_body]
fn into_boxed_slice(bytes: Vec<u8>) -> (boxed: Box<[u8]>)
    ensures
        boxed@ == bytes@,
{
    bytes.into_boxed_slice()
}

/// What a frame of bytes reads as: its first 64 bytes are the signature, the others the data.
pub open spec fn reads_as<T>(frame: Seq<u8>, result: Result<SignedData<T>, Error>) -> bool {
    if frame.len() < SIGNATURE_LENGTH {
        result matches Err(Error::InvalidLength(length)) && length == frame.len()
    } else {
        &&& result matches Ok(signed)
        &&& signed.signature@ == frame.take(SIGNATURE_LENGTH as int)
        &&& signed.data@ == frame.skip(SIGNATURE_LENGTH as int)
    }
}

impl<T> SignedData<T> {
    /// The signature and behind it the data.
    pub open spec fn frame(self) -> Seq<u8> {
        self.signature@ + self.data@
    }

    /// Whether strict verification accepts the signature under the key with these bytes.
    pub open spec fn is_accepted_under(self, key: Seq<u8>) -> bool {
        crate::ed25519::ed25519_accepts(key, self.data@, self.signature@)
    }

    /// Whether this is what the key with this secret makes of the data.
    pub open spec fn is_signed_with(self, secret: Seq<u8>, data: Seq<u8>) -> bool {
        &&& self.data@ == data
        &&& self.signature@ == crate::ed25519::ed25519_signature(secret, data)
        &&& self.is_accepted_under(crate::ed25519::ed25519_public_key(secret))
            <==> !crate::ed25519::has_identity_nonce(self.signature@)
    }

    /// Signs the bytes.
    pub fn sign_raw(data: Box<[u8]>, key: &SigningKey) -> (signed: Self)
        ensures
            signed.is_signed_with(key@, data@),
    {
        let signature = key.sign(&*data);
        SignedData { signature, data, _data: PhantomData }
    }

    /// Encodes the value and signs its encoding.
    ///
    /// # Errors
    ///
    /// if the value failed to encode
    pub fn sign<F>(data: &T, key: &SigningKey, encode: F) -> (result: Result<Self, Error>) where
        F: FnOnce(&T) -> Result<Vec<u8>, SerializeError>,

        requires
            encode.requires((data,)),
        ensures
            exists|encoded: Result<Vec<u8>, SerializeError>| #[trigger]
                encode.ensures((data,), encoded) && match encoded {
                    Ok(bytes) => result matches Ok(signed) && signed.is_signed_with(key@, bytes@),
                    Err(error) => result matches Err(Error::Serialize(e)) && e == error,
                },
    {
        match encode(data) {
            Ok(bytes) => Ok(Self::sign_raw(into_boxed_slice(bytes), key)),
            Err(error) => Err(Error::from(error)),
        }
    }

    fn verify(&self, key: &VerifyingKey) -> (result: Result<(), Error>)
        ensures
            result is Ok <==> self.is_accepted_under(key@),
            result matches Err(error) ==> error is Verify,
    {
        match key.verify_strict(&*self.data, &self.signature) {
            Ok(()) => Ok(()),
            Err(error) => Err(Error::from(error)),
        }
    }

    /// The data, if the signature is one of it under the key.
    ///
    /// # Errors
    ///
    /// if signature is invalid
    pub fn to_verified_raw(&self, key: &VerifyingKey) -> (result: Result<&[u8], Error>)
        ensures
            match result {
                Ok(data) => self.is_accepted_under(key@) && data@ == self.data@,
                Err(error) => !self.is_accepted_under(key@) && error is Verify,
            },
    {
        match self.verify(key) {
            Ok(()) => Ok(&*self.data),
            Err(error) => Err(error),
        }
    }

    /// The data, if the signature is one of it under the key.
    ///
    /// # Errors
    ///
    /// if signature is invalid
    pub fn into_verified_raw(self, key: &VerifyingKey) -> (result: Result<Box<[u8]>, Error>)
        ensures
            match result {
                Ok(data) => self.is_accepted_under(key@) && data@ == self.data@,
                Err(error) => !self.is_accepted_under(key@) && error is Verify,
            },
    {
        match self.verify(key) {
            Ok(()) => Ok(self.data),
            Err(error) => Err(error),
        }
    }

    /// The value that the data encode, if the signature is one of them under the key. Bytes that
    /// fail verification are never handed to the decoder.
    ///
    /// # Errors
    ///
    /// if signature is invalid,
    /// or failed to decode the data
    pub fn to_verified<F>(&self, key: &VerifyingKey, decode: F) -> (result: Result<T, Error>) where
        F: FnOnce(&[u8]) -> Result<T, DeserializeError>,

        requires
            self.is_accepted_under(key@) ==> forall|data: &[u8]|
                data@ == self.data@ ==> #[trigger] decode.requires((data,)),
        ensures
            if self.is_accepted_under(key@) {
                exists|data: &[u8], decoded: Result<T, DeserializeError>|
                    data@ == self.data@ && #[trigger] decode.ensures((data,), decoded)
                        && match decoded {
                        Ok(value) => result matches Ok(v) && v == value,
                        Err(error) => result matches Err(Error::Deserialize(e)) && e == error,
                    }
            } else {
                result matches Err(error) && error is Verify
            },
    {
        match self.to_verified_raw(key) {
            Ok(data) => match decode(data) {
                Ok(value) => Ok(value),
                Err(error) => Err(Error::from(error)),
            },
            Err(error) => Err(error),
        }
    }

    /// The signature and behind it the data.
    pub fn to_bytes(&self) -> (bytes: Vec<u8>)
        requires
            SIGNATURE_LENGTH + self.data@.len() <= isize::MAX,
        ensures
            bytes@ == self.frame(),
    {
        let mut bytes = Vec::with_capacity(SIGNATURE_LENGTH + self.data.len());
        bytes.extend_from_slice(&self.signature);
        bytes.extend_from_slice(&*self.data);
        assert(bytes@ =~= self.frame());
        bytes
    }

    /// The frame as base64 text.
    pub fn to_base64(&self, engine: &Base64Engine) -> (text: Box<str>)
        requires
            crate::encoding::base64_length(engine.encode_padding(), self.frame().len()) <= isize::MAX,
        ensures
            text@ == engine.text_of(self.frame()),
    {
        engine.encode(self.to_bytes().as_slice())
    }

    /// Reads the frame that base64 decoding gave.
    ///
    /// # Errors
    ///
    /// if decoding failed,
    /// or the bytes are too few to hold a signature
    pub fn try_from_decoded(decoded: Result<Vec<u8>, DecodeError>) -> (result: Result<Self, Error>)
        ensures
            match decoded {
                Ok(frame) => reads_as(frame@, result),
                Err(error) => result matches Err(Error::Base64Decode(e)) && e == error,
            },
    {
        let frame = match decoded {
            Ok(frame) => frame,
            Err(error) => return Err(Error::from(error)),
        };
        if frame.len() < SIGNATURE_LENGTH {
            return Err(Error::InvalidLength(frame.len()));
        }
        let mut signature = [0u8; SIGNATURE_LENGTH];
        let mut i: usize = 0;
        while i < SIGNATURE_LENGTH
            invariant
                i <= SIGNATURE_LENGTH <= frame@.len(),
                forall|j: int| 0 <= j < i ==> signature@[j] == frame@[j],
            decreases SIGNATURE_LENGTH - i,
        {
            signature[i] = frame[i];
            i = i + 1;
        }
        let data = into_boxed_slice(
            slice_to_vec(slice_subrange(frame.as_slice(), SIGNATURE_LENGTH, frame.len())),
        );
        assert(signature@ =~= frame@.take(SIGNATURE_LENGTH as int));
        assert(data@ =~= frame@.skip(SIGNATURE_LENGTH as int));
        Ok(SignedData { signature, data, _data: PhantomData })
    }

    /// Reads the frame from base64 text.
    ///
    /// # Errors
    ///
    /// if not valid base64 for the engine,
    /// or the bytes are too few to hold a signature
    pub fn try_from_base64(encoded: &[u8], engine: &Base64Engine) -> (result: Result<Self, Error>)
        ensures
            match engine.decoded(encoded@) {
                Ok(frame) => reads_as(frame, result),
                Err(error) => result matches Err(Error::Base64Decode(e)) && e == error,
            },
            crate::encoding::inverts_encoding(
                engine.alphabet(),
                engine.decode_padding(),
                encoded@,
                engine.decoded(encoded@),
            ),
    {
        Self::try_from_decoded(engine.decode(encoded))
    }
}

/// Signing as a method of the value.
pub trait ToSigned: Sized {
    /// Encodes the value and signs its encoding.
    ///
    /// # Errors
    ///
    /// if the value failed to encode
    fn to_signed<F>(&self, key: &SigningKey, encode: F) -> (result: Result<
        SignedData<Self>,
        Error,
    >) where F: FnOnce(&Self) -> Result<Vec<u8>, SerializeError>
        requires
            encode.requires((self,)),
        ensures
            exists|encoded: Result<Vec<u8>, SerializeError>| #[trigger]
                encode.ensures((self,), encoded) && match encoded {
                    Ok(bytes) => result matches Ok(signed) && signed.is_signed_with(key@, bytes@),
                    Err(error) => result matches Err(Error::Serialize(e)) && e == error,
                },
    ;
}

impl<T> ToSigned for T {
    fn to_signed<F>(&self, key: &SigningKey, encode: F) -> (result: Result<
        SignedData<T>,
        Error,
    >) where F: FnOnce(&T) -> Result<Vec<u8>, SerializeError> {
        SignedData::sign(self, key, encode)
    }
}

impl<T: Clone> Clone for SignedData<T> {
    fn clone(&self) -> (copy: Self)
        ensures
            copy.signature@ == self.signature@,
            copy.data@ == self.data@,
    {
        SignedData {
            signature: self.signature,
            data: into_boxed_slice(slice_to_vec(&*self.data)),
            _data: PhantomData,
        }
    }
}

/// Reading the frame of signed data gives the same signature and the same data.
pub proof fn law_frame_reads_back<T>(
    signed: &SignedData<T>,
    frame: Vec<u8>,
    result: Result<SignedData<T>, Error>,
)
    requires
        call_ensures(SignedData::<T>::to_bytes, (signed,), frame),
        call_ensures(SignedData::<T>::try_from_decoded, (Ok(frame),), result),
    ensures
        result matches Ok(read) && read.signature@ == signed.signature@ && read.data@
            == signed.data@,
{
    lemma_frame_splits(*signed);
}

/// A frame splits into the signature and the data that it was made of.
proof fn lemma_frame_splits<T>(signed: SignedData<T>)
    ensures
        signed.frame().len() >= SIGNATURE_LENGTH,
        signed.frame().take(SIGNATURE_LENGTH as int) == signed.signature@,
        signed.frame().skip(SIGNATURE_LENGTH as int) == signed.data@,
{
    assert(signed.frame().take(SIGNATURE_LENGTH as int) =~= signed.signature@);
    assert(signed.frame().skip(SIGNATURE_LENGTH as int) =~= signed.data@);
}

/// Signed data written as base64 and read with the same engine come back with the same signature
/// and the same data, wherever the engine reads its own padding.
pub proof fn law_base64_reads_back<T>(
    signed: &SignedData<T>,
    engine: &Base64Engine,
    text: Box<str>,
    received: &[u8],
    result: Result<SignedData<T>, Error>,
)
    requires
        call_ensures(SignedData::<T>::to_base64, (signed, engine), text),
        received@ == encode_utf8(text@),
        call_ensures(SignedData::<T>::try_from_base64, (received, engine), result),
        engine.reads_own_padding(signed.frame().len()),
    ensures
        result matches Ok(read) && read.signature@ == signed.signature@ && read.data@
            == signed.data@,
{
    lemma_frame_splits(*signed);
}

/// Data that were signed, written as base64, read back and verified under the key of the signer
/// come out as they went in. The exceptions are an engine that does not read its own padding and
/// a signature with the identity as its nonce point, which is refused.
pub proof fn law_signed_data_survive_transport<T>(
    data: Box<[u8]>,
    signing_key: &SigningKey,
    verifying_key: VerifyingKey,
    signed: SignedData<T>,
    engine: &Base64Engine,
    text: Box<str>,
    received: &[u8],
    read: Result<SignedData<T>, Error>,
    result: Result<Box<[u8]>, Error>,
)
    requires
        call_ensures(SigningKey::verifying_key, (signing_key,), verifying_key),
        call_ensures(SignedData::<T>::sign_raw, (data, signing_key), signed),
        call_ensures(SignedData::<T>::to_base64, (&signed, engine), text),
        received@ == encode_utf8(text@),
        call_ensures(SignedData::<T>::try_from_base64, (received, engine), read),
        read matches Ok(read) ==> call_ensures(
            SignedData::<T>::into_verified_raw,
            (read, &verifying_key),
            result,
        ),
        engine.reads_own_padding(signed.frame().len()),
    ensures
        read is Ok,
        if crate::ed25519::has_identity_nonce(signed.signature@) {
            result matches Err(error) && error is Verify
        } else {
            result matches Ok(bytes) && bytes@ == data@
        },
{
    law_base64_reads_back(&signed, engine, text, received, read);
}

/// A value that was signed and then verified under the key of the signer comes out as it went in,
/// if decoding undoes the encoding of it. The exception is a signature with the identity as its
/// nonce point, which is refused.
pub proof fn law_signed_value_reads_back<T, F, G>(
    value: &T,
    signing_key: &SigningKey,
    verifying_key: VerifyingKey,
    encode: F,
    signed: SignedData<T>,
    decode: G,
    result: Result<T, Error>,
) where
    F: FnOnce(&T) -> Result<Vec<u8>, SerializeError>,
    G: FnOnce(&[u8]) -> Result<T, DeserializeError>,

    requires
        call_ensures(SigningKey::verifying_key, (signing_key,), verifying_key),
        call_ensures(SignedData::<T>::sign::<F>, (value, signing_key, encode), Ok(signed)),
        call_ensures(SignedData::<T>::to_verified::<G>, (&signed, &verifying_key, decode), result),
        forall|bytes: Vec<u8>, data: &[u8], decoded: Result<T, DeserializeError>|
            #![trigger encode.ensures((value,), Ok(bytes)), decode.ensures((data,), decoded)]
            encode.ensures((value,), Ok(bytes)) && data@ == bytes@ && decode.ensures(
                (data,),
                decoded,
            ) ==> decoded == Ok::<T, DeserializeError>(*value),
    ensures
        if crate::ed25519::has_identity_nonce(signed.signature@) {
            result matches Err(error) && error is Verify
        } else {
            result matches Ok(v) && v == *value
        },
{
}

/// Both ways to take the data out agree on whether they may be taken and on what they are.
pub proof fn law_verified_raw_agree<T>(
    signed: SignedData<T>,
    key: &VerifyingKey,
    borrowed: Result<&[u8], Error>,
    owned: Result<Box<[u8]>, Error>,
)
    requires
        call_ensures(SignedData::<T>::to_verified_raw, (&signed, key), borrowed),
        call_ensures(SignedData::<T>::into_verified_raw, (signed, key), owned),
    ensures
        match (borrowed, owned) {
            (Ok(b), Ok(o)) => b@ == o@ && b@ == signed.data@,
            (Err(b), Err(o)) => b is Verify && o is Verify,
            _ => false,
        },
{
}

/// The same key makes the same signed data of the same bytes.
pub proof fn law_signing_is_deterministic<T>(
    data: Box<[u8]>,
    other_data: Box<[u8]>,
    key: &SigningKey,
    signed: SignedData<T>,
    other: SignedData<T>,
)
    requires
        data@ == other_data@,
        call_ensures(SignedData::<T>::sign_raw, (data, key), signed),
        call_ensures(SignedData::<T>::sign_raw, (other_data, key), other),
    ensures
        signed.signature@ == other.signature@,
        signed.data@ == other.data@,
        signed.frame() == other.frame(),
{
}

/// Signing a value and signing it as its method agree, if the value has one encoding or none: both
/// give the same signature and data, or both fail, exactly if the value fails to encode, with the
/// error of the encoder.
pub proof fn law_to_signed_agrees_with_sign<T, F>(
    value: &T,
    key: &SigningKey,
    encode: F,
    encoded: Result<Vec<u8>, SerializeError>,
    by_method: Result<SignedData<T>, Error>,
    by_function: Result<SignedData<T>, Error>,
) where F: FnOnce(&T) -> Result<Vec<u8>, SerializeError>
    requires
        forall|e: Result<Vec<u8>, SerializeError>| #[trigger]
            encode.ensures((value,), e) ==> e == encoded,
        call_ensures(<T as ToSigned>::to_signed::<F>, (value, key, encode), by_method),
        call_ensures(SignedData::<T>::sign::<F>, (value, key, encode), by_function),
    ensures
        match encoded {
            Ok(bytes) => {
                &&& by_method matches Ok(one)
                &&& by_function matches Ok(other)
                &&& one.data@ == bytes@ && other.data@ == bytes@
                &&& one.signature@ == other.signature@
            },
            Err(error) => {
                &&& by_method == Err::<SignedData<T>, Error>(Error::Serialize(error))
                &&& by_function == Err::<SignedData<T>, Error>(Error::Serialize(error))
            },
        },
{
}

} // verus!
