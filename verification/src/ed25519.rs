//! Ed25519 keys as plain bytes, and the signature operations on them.

use ed25519_dalek::{Signer, SignatureError};
use vstd::prelude::*;

verus! {

/// Length of a secret key in bytes.
pub const SECRET_KEY_LENGTH: usize = 32;

/// Length of an encoded public key in bytes.
pub const PUBLIC_KEY_LENGTH: usize = 32;

/// Length of a signature in bytes.
pub const SIGNATURE_LENGTH: usize = 64;

/// Why `ed25519_dalek` refused a key or a signature. The value is opaque.
#[verifier::external_type_specification]
#[verifier::external_body]
pub struct ExSignatureError(SignatureError);

/// The encoded public key that belongs to a secret key.
pub uninterp spec fn ed25519_public_key(secret: Seq<u8>) -> Seq<u8>;

/// The signature of a message under a secret key. Ed25519 signing uses no randomness.
pub uninterp spec fn ed25519_signature(secret: Seq<u8>, message: Seq<u8>) -> Seq<u8>;

/// Whether the bytes decode to a public key.
pub uninterp spec fn ed25519_key_decodes(bytes: Seq<u8>) -> bool;

/// Whether the bytes of the key decode and strict verification then accepts the signature.
pub uninterp spec fn ed25519_accepts(key: Seq<u8>, message: Seq<u8>, signature: Seq<u8>) -> bool;

/// The first half of the signature encodes the identity point: the byte 1 and then zeros.
///
/// Strict verification refuses every such signature. Signing gives one only if the nonce that it
/// derives from the key and the message is zero modulo the group order.
pub open spec fn has_identity_nonce(signature: Seq<u8>) -> bool {
    &&& signature[0] == 1
    &&& forall|i: int| 1 <= i < 32 ==> signature[i] == 0
}

/// The signature of the message has its proper length, and strict verification under the public
/// key of the secret accepts it exactly when its nonce point is not the identity.
pub open spec fn own_signature_verifies(secret: Seq<u8>, message: Seq<u8>) -> bool {
    let signature = ed25519_signature(secret, message);
    &&& signature.len() == SIGNATURE_LENGTH
    &&& ed25519_accepts(ed25519_public_key(secret), message, signature) <==> !has_identity_nonce(
        signature,
    )
}

/// Calls `ed25519_dalek::SigningKey::verifying_key` on the key that `SigningKey::from_bytes`
/// makes of the secret.
///
/// Claimed: the encoded public key is a function of the secret alone, and it decodes again.
#[verifier::external_body]
fn derive_public_key(secret: &[u8; SECRET_KEY_LENGTH]) -> (public: [u8; PUBLIC_KEY_LENGTH])
    ensures
        public@ == ed25519_public_key(secret@),
        ed25519_key_decodes(public@),
{
    ed25519_dalek::SigningKey::from_bytes(secret).verifying_key().to_bytes()
}

/// Calls `ed25519_dalek::VerifyingKey::from_bytes` and keeps only whether it succeeds.
///
/// Claimed: whether the bytes decode depends on the bytes alone.
#[verifier::external_body]
fn decode_public_key(bytes: &[u8; PUBLIC_KEY_LENGTH]) -> (result: Result<(), SignatureError>)
    ensures
        result is Ok <==> ed25519_key_decodes(bytes@),
{
    ed25519_dalek::VerifyingKey::from_bytes(bytes).map(|_| ())
}

/// Calls `ed25519_dalek::Signer::sign` on the key that `SigningKey::from_bytes` makes of the
/// secret.
///
/// Claimed: the signature is a function of the secret and the message alone, and strict
/// verification under the public key of that secret accepts it exactly when its nonce point is
/// not the identity. (The public key of a secret is never of small order, and the nonce point is
/// a multiple of the base point, so the identity is the only point of small order that it can
/// be.)
#[verifier::external_body]
fn sign_message(secret: &[u8; SECRET_KEY_LENGTH], message: &[u8]) -> (signature:
    [u8; SIGNATURE_LENGTH])
    ensures
        signature@ == ed25519_signature(secret@, message@),
        ed25519_accepts(ed25519_public_key(secret@), message@, signature@) <==> !has_identity_nonce(
            signature@,
        ),
{
    ed25519_dalek::SigningKey::from_bytes(secret).sign(message).to_bytes()
}

/// Calls `ed25519_dalek::VerifyingKey::verify_strict` on the key that `VerifyingKey::from_bytes`
/// decodes.
///
/// Claimed: whether both succeed depends on the key, the message and the signature alone.
#[verifier::external_body]
fn verify_strictly(
    key: &[u8; PUBLIC_KEY_LENGTH],
    message: &[u8],
    signature: &[u8; SIGNATURE_LENGTH],
) -> (result: Result<(), SignatureError>)
    ensures
        result is Ok <==> ed25519_accepts(key@, message@, signature@),
{
    let signature = ed25519_dalek::Signature::from_bytes(signature);
    ed25519_dalek::VerifyingKey::from_bytes(key)?.verify_strict(message, &signature)
}

/// A key that signs, seen as the bytes of its secret.
pub struct SigningKey {
    secret: [u8; SECRET_KEY_LENGTH],
}

/// A key that verifies, seen as its encoded bytes. The bytes always decode.
#[derive(Debug)]
pub struct VerifyingKey {
    bytes: [u8; PUBLIC_KEY_LENGTH],
}

impl View for SigningKey {
    type V = Seq<u8>;

    closed spec fn view(&self) -> Seq<u8> {
        self.secret@
    }
}

impl View for VerifyingKey {
    type V = Seq<u8>;

    closed spec fn view(&self) -> Seq<u8> {
        self.bytes@
    }
}

impl SigningKey {
    /// The key with this secret. Every secret makes a key.
    pub fn from_bytes(secret: &[u8; SECRET_KEY_LENGTH]) -> (key: Self)
        ensures
            key@ == secret@,
    {
        SigningKey { secret: *secret }
    }

    /// The secret of the key.
    pub fn to_bytes(&self) -> (secret: [u8; SECRET_KEY_LENGTH])
        ensures
            secret@ == self@,
    {
        self.secret
    }

    /// The key that verifies what this one signs.
    pub fn verifying_key(&self) -> (key: VerifyingKey)
        ensures
            key@ == ed25519_public_key(self@),
    {
        VerifyingKey { bytes: derive_public_key(&self.secret) }
    }

    /// Signs the message.
    pub fn sign(&self, message: &[u8]) -> (signature: [u8; SIGNATURE_LENGTH])
        ensures
            signature@ == ed25519_signature(self@, message@),
            ed25519_accepts(ed25519_public_key(self@), message@, signature@)
                <==> !has_identity_nonce(signature@),
    {
        sign_message(&self.secret, message)
    }
}

impl VerifyingKey {
    #[verifier::type_invariant]
    spec fn decodes(self) -> bool {
        ed25519_key_decodes(self.bytes@)
    }

    /// The key that the bytes encode.
    ///
    /// # Errors
    ///
    /// if the bytes do not decode to a public key
    pub fn from_bytes(bytes: &[u8; PUBLIC_KEY_LENGTH]) -> (key: Result<Self, SignatureError>)
        ensures
            key is Ok <==> ed25519_key_decodes(bytes@),
            key matches Ok(key) ==> key@ == bytes@,
    {
        match decode_public_key(bytes) {
            Ok(_) => Ok(VerifyingKey { bytes: *bytes }),
            Err(error) => Err(error),
        }
    }

    /// The encoded bytes of the key.
    pub fn to_bytes(&self) -> (bytes: [u8; PUBLIC_KEY_LENGTH])
        ensures
            bytes@ == self@,
            ed25519_key_decodes(bytes@),
    {
        proof {
            use_type_invariant(self);
        }
        self.bytes
    }

    /// Verifies the signature strictly.
    ///
    /// # Errors
    ///
    /// if the signature is not one of the message under this key
    pub fn verify_strict(&self, message: &[u8], signature: &[u8; SIGNATURE_LENGTH]) -> (result:
        Result<(), SignatureError>)
        ensures
            result is Ok <==> ed25519_accepts(self@, message@, signature@),
    {
        verify_strictly(&self.bytes, message, signature)
    }
}

impl Clone for SigningKey {
    fn clone(&self) -> (key: Self)
        ensures
            key@ == self@,
    {
        SigningKey { secret: self.secret }
    }
}

impl Clone for VerifyingKey {
    fn clone(&self) -> (key: Self)
        ensures
            key@ == self@,
    {
        proof {
            use_type_invariant(self);
        }
        VerifyingKey { bytes: self.bytes }
    }
}

/// Whatever a key signs, its verifying key accepts, unless the signature has the identity as its
/// nonce point: then it refuses.
pub proof fn law_own_signatures_are_accepted(
    key: &SigningKey,
    message: &[u8],
    signature: [u8; SIGNATURE_LENGTH],
    verifying_key: VerifyingKey,
    result: Result<(), SignatureError>,
)
    requires
        call_ensures(SigningKey::sign, (key, message), signature),
        call_ensures(SigningKey::verifying_key, (key,), verifying_key),
        call_ensures(
            VerifyingKey::verify_strict,
            (&verifying_key, message, &signature),
            result,
        ),
    ensures
        result is Ok <==> !has_identity_nonce(signature@),
{
}

/// A signing key made of the bytes of another is that key.
pub proof fn law_signing_keys_read_back(
    key: &SigningKey,
    secret: [u8; SECRET_KEY_LENGTH],
    read: SigningKey,
)
    requires
        call_ensures(SigningKey::to_bytes, (key,), secret),
        call_ensures(SigningKey::from_bytes, (&secret,), read),
    ensures
        read@ == key@,
{
}

/// The bytes of a verifying key decode to that key.
pub proof fn law_verifying_keys_read_back(
    key: &VerifyingKey,
    bytes: [u8; PUBLIC_KEY_LENGTH],
    result: Result<VerifyingKey, SignatureError>,
)
    requires
        call_ensures(VerifyingKey::to_bytes, (key,), bytes),
        call_ensures(VerifyingKey::from_bytes, (&bytes,), result),
    ensures
        result matches Ok(read) && read@ == key@,
{
}

} // verus!
