//! The Ed25519 operations of the `ed25519-dalek` crate, on plain bytes.
//!
//! Nothing here is proved. Each function makes one call into the outside
//! crate and states what that call is trusted to return; what the scheme
//! computes is named, not spelled out.

use vstd::prelude::*;

verus! {

/// The error that the outside crate reports for a key or signature it rejects.
#[verifier::external_type_specification]
#[verifier::external_body]
pub struct ExSignatureError(ed25519_dalek::SignatureError);

/// The public key that the scheme derives from 32 bytes of private material.
pub uninterp spec fn ed25519_public_key(secret: Seq<u8>) -> Seq<u8>;

/// The signature that the private material `secret` gives for `message`.
pub uninterp spec fn ed25519_signature(secret: Seq<u8>, message: Seq<u8>) -> Seq<u8>;

/// Whether 32 bytes are the encoding of a public key.
pub uninterp spec fn ed25519_key_decodes(public_key: Seq<u8>) -> bool;

/// Whether a 64-byte signature satisfies the verification equation for
/// `message` under a public key that decodes.
pub uninterp spec fn ed25519_verifies(
    public_key: Seq<u8>,
    message: Seq<u8>,
    signature: Seq<u8>,
) -> bool;

/// `SigningKey::from_bytes` followed by `verifying_key().to_bytes()`: the
/// public key of `secret`. Trusted: the key is the scheme's derivation, and a
/// key derived this way is a valid encoding.
#[verifier::external_body]
pub(crate) fn derive_public_key(secret: &[u8; 32]) -> (public_key: [u8; 32])
    ensures
        public_key@ == ed25519_public_key(secret@),
        ed25519_key_decodes(public_key@),
{
    ed25519_dalek::SigningKey::from_bytes(secret).verifying_key().to_bytes()
}

/// `Signer::sign` of the signing key made from `secret`. Trusted: signing is
/// deterministic, the signature has 64 bytes, and it verifies for the same
/// message under the public key of `secret`.
#[verifier::external_body]
pub(crate) fn sign_message(secret: &[u8; 32], message: &[u8]) -> (signature: Vec<u8>)
    ensures
        signature@ == ed25519_signature(secret@, message@),
        signature@.len() == 64,
        ed25519_verifies(ed25519_public_key(secret@), message@, signature@),
{
    let key = ed25519_dalek::SigningKey::from_bytes(secret);
    ed25519_dalek::Signer::sign(&key, message).to_bytes().to_vec()
}

/// `VerifyingKey::from_bytes`: accepts exactly the encodings of public keys.
#[verifier::external_body]
pub(crate) fn decode_public_key(public_key: &[u8; 32]) -> (r: Result<
    (),
    ed25519_dalek::SignatureError,
>)
    ensures
        r is Ok <==> ed25519_key_decodes(public_key@),
{
    match ed25519_dalek::VerifyingKey::from_bytes(public_key) {
        Ok(_) => Ok(()),
        Err(e) => Err(e),
    }
}

/// `Signature::from_slice`: accepts exactly the slices of 64 bytes, and keeps
/// the bytes as they are.
#[verifier::external_body]
pub(crate) fn decode_signature(signature: &[u8]) -> (r: Result<
    [u8; 64],
    ed25519_dalek::SignatureError,
>)
    ensures
        r is Ok <==> signature@.len() == 64,
        r matches Ok(bytes) ==> bytes@ == signature@,
{
    match ed25519_dalek::Signature::from_slice(signature) {
        Ok(parsed) => Ok(parsed.to_bytes()),
        Err(e) => Err(e),
    }
}

/// `Verifier::verify` of the verifying key that `public_key` encodes.
#[verifier::external_body]
pub(crate) fn check_signature(
    public_key: &[u8; 32],
    message: &[u8],
    signature: &[u8; 64],
) -> (r: Result<(), ed25519_dalek::SignatureError>)
    requires
        ed25519_key_decodes(public_key@),
    ensures
        r is Ok <==> ed25519_verifies(public_key@, message@, signature@),
{
    let key = ed25519_dalek::VerifyingKey::from_bytes(public_key)?;
    let parsed = ed25519_dalek::Signature::from_bytes(signature);
    ed25519_dalek::Verifier::verify(&key, message, &parsed)
}

/// The outside error's own description, as its `Display` gives it.
#[verifier::external_body]
pub(crate) fn error_text(e: &ed25519_dalek::SignatureError) -> (text: String) {
    format!("{}", e)
}

} // verus!
