//! Signing keys, signature verification and content digests.

use vstd::prelude::*;

pub mod blake2s;
pub mod ed25519;
mod entropy;

use crate::error::{Result, SwarmhostError};
use blake2s::{absorbed, blake2s256, hasher_finalize, hasher_new, hasher_update};
use ed25519::{
    check_signature, decode_public_key, decode_signature, derive_public_key, ed25519_key_decodes,
    ed25519_public_key, ed25519_signature, ed25519_verifies, error_text, sign_message,
};
use entropy::random_secret;

verus! {

/// A 32-byte content digest.
pub type Hash = [u8; 32];

/// A participant's identifier: its 32-byte public key.
pub type PlayerId = [u8; 32];

/// Why a signature is turned down.
#[derive(Clone, Copy, Debug, PartialEq, Eq, Structural)]
pub enum Rejection {
    /// The public key is not the encoding of a key.
    MalformedKey,
    /// The signature is not the encoding of a signature.
    MalformedSignature,
    /// Key and signature are well encoded, but the signature is not one of
    /// this message under this key.
    Mismatch,
}

impl Rejection {
    /// The words that open the detail of the error.
    pub open spec fn label(self) -> Seq<char> {
        match self {
            Rejection::MalformedKey => "Invalid public key: "@,
            Rejection::MalformedSignature => "Invalid signature: "@,
            Rejection::Mismatch => "Verification failed: "@,
        }
    }

    /// Whether `error` reports this rejection: a `Crypto` error whose detail
    /// opens with the label.
    pub open spec fn is_reported_by(self, error: SwarmhostError) -> bool {
        error matches SwarmhostError::Crypto(detail) && self.label().is_prefix_of(detail@)
    }

    /// The error that reports this rejection: its detail is the label
    /// followed by `cause`, the description of the failure.
    pub fn error(self, cause: &str) -> (e: SwarmhostError)
        ensures
            e matches SwarmhostError::Crypto(detail) && detail@ == self.label() + cause@,
            self.is_reported_by(e),
    {
        let label = match self {
            Rejection::MalformedKey => "Invalid public key: ",
            Rejection::MalformedSignature => "Invalid signature: ",
            Rejection::Mismatch => "Verification failed: ",
        };
        let detail = String::from_str(label).concat(cause);
        assert(detail@.subrange(0, label@.len() as int) =~= label@);
        SwarmhostError::crypto(detail)
    }
}

/// Why a verification turns the signature down; `None` where it accepts it.
/// The key is looked at first, then the signature's encoding, then whether
/// the signature matches.
pub open spec fn verification_failure(
    public_key: Seq<u8>,
    message: Seq<u8>,
    signature: Seq<u8>,
) -> Option<Rejection> {
    if !ed25519_key_decodes(public_key) {
        Some(Rejection::MalformedKey)
    } else if signature.len() != 64 {
        Some(Rejection::MalformedSignature)
    } else if !ed25519_verifies(public_key, message, signature) {
        Some(Rejection::Mismatch)
    } else {
        None
    }
}

/// Whether `result` is what a verification owes for the given key, message
/// and signature: success where nothing is wrong, else the error that
/// reports the rejection.
pub open spec fn is_verification_result(
    result: Result<()>,
    public_key: Seq<u8>,
    message: Seq<u8>,
    signature: Seq<u8>,
) -> bool {
    match verification_failure(public_key, message, signature) {
        None => result is Ok,
        Some(rejection) => result matches Err(error) && rejection.is_reported_by(error),
    }
}

/// The error for a rejection that the outside crate gave `cause` for.
fn rejected(rejection: Rejection, cause: &ed25519_dalek::SignatureError) -> (e: SwarmhostError)
    ensures
        rejection.is_reported_by(e),
{
    let text = error_text(cause);
    rejection.error(text.as_str())
}

/// Checks a signature against the bytes of a public key that is known to
/// decode.
fn verify_with_key(public_key: &PlayerId, message: &[u8], signature: &[u8]) -> (r: Result<()>)
    requires
        ed25519_key_decodes(public_key@),
    ensures
        is_verification_result(r, public_key@, message@, signature@),
{
    match decode_signature(signature) {
        Err(e) => Err(rejected(Rejection::MalformedSignature, &e)),
        Ok(bytes) => match check_signature(public_key, message, &bytes) {
            Err(e) => Err(rejected(Rejection::Mismatch, &e)),
            Ok(()) => Ok(()),
        },
    }
}

/// A signing identity: 32 bytes of private material and the public key that
/// the scheme derives from them.
pub struct KeyPair {
    private_key: [u8; 32],
    public_key: PlayerId,
}

impl KeyPair {
    /// The public key is never set on its own: it is the derivation of the
    /// private bytes, and so a key that decodes.
    #[verifier::type_invariant]
    spec fn derived(&self) -> bool {
        &&& self.public_key@ == ed25519_public_key(self.private_key@)
        &&& ed25519_key_decodes(self.public_key@)
    }

    /// The private material.
    pub closed spec fn private_bytes(&self) -> Seq<u8> {
        self.private_key@
    }

    /// The public key.
    pub closed spec fn public_bytes(&self) -> Seq<u8> {
        self.public_key@
    }

    /// The identity that the given private bytes stand for.
    fn derive(secret: [u8; 32]) -> (pair: Self)
        ensures
            pair.private_bytes() == secret@,
            pair.public_bytes() == ed25519_public_key(secret@),
    {
        let public_key = derive_public_key(&secret);
        KeyPair { private_key: secret, public_key }
    }

    /// A new identity from fresh random private material.
    pub fn generate() -> (pair: Self)
        ensures
            pair.public_bytes() == ed25519_public_key(pair.private_bytes()),
    {
        KeyPair::derive(random_secret())
    }

    /// The identity whose private material is `bytes`. The scheme accepts
    /// every 32 bytes, so this always succeeds.
    pub fn from_bytes(bytes: &[u8; 32]) -> (r: Result<Self>)
        ensures
            r matches Ok(pair) && pair.private_bytes() == bytes@ && pair.public_bytes()
                == ed25519_public_key(bytes@),
    {
        Ok(KeyPair::derive(*bytes))
    }

    /// The public key, which is also the participant's identifier.
    pub fn public_key(&self) -> (id: PlayerId)
        ensures
            id@ == self.public_bytes(),
            id@ == ed25519_public_key(self.private_bytes()),
            ed25519_key_decodes(id@),
    {
        proof {
            use_type_invariant(self);
        }
        self.public_key
    }

    /// The private material, for trusted local storage only.
    pub fn private_key(&self) -> (secret: [u8; 32])
        ensures
            secret@ == self.private_bytes(),
    {
        self.private_key
    }

    /// Signs `message`. The signature is the scheme's for this identity and
    /// message, and a verification of it under this identity's public key
    /// succeeds.
    pub fn sign(&self, message: &[u8]) -> (signature: Vec<u8>)
        ensures
            signature@ == ed25519_signature(self.private_bytes(), message@),
            signature@.len() == 64,
            verification_failure(self.public_bytes(), message@, signature@) is None,
    {
        proof {
            use_type_invariant(self);
        }
        sign_message(&self.private_key, message)
    }

    /// Verifies `signature` over `message` under this identity's public key.
    pub fn verify(&self, message: &[u8], signature: &[u8]) -> (r: Result<()>)
        ensures
            is_verification_result(r, self.public_bytes(), message@, signature@),
            ed25519_key_decodes(self.public_bytes()),
    {
        proof {
            use_type_invariant(self);
        }
        verify_with_key(&self.public_key, message, signature)
    }
}

impl Clone for KeyPair {
    fn clone(&self) -> (pair: Self)
        ensures
            pair == *self,
    {
        proof {
            use_type_invariant(self);
        }
        KeyPair { private_key: self.private_key, public_key: self.public_key }
    }
}

/// Verifies `signature` over `message` under any participant's public key.
pub fn verify_signature(public_key: &PlayerId, message: &[u8], signature: &[u8]) -> (r: Result<()>)
    ensures
        is_verification_result(r, public_key@, message@, signature@),
{
    match decode_public_key(public_key) {
        Err(e) => Err(rejected(Rejection::MalformedKey, &e)),
        Ok(()) => verify_with_key(public_key, message, signature),
    }
}

/// The pieces joined end to end, in the order given.
pub open spec fn concatenation(pieces: Seq<&[u8]>) -> Seq<u8> {
    pieces.map_values(|piece: &[u8]| piece@).flatten()
}

/// Digest of one buffer.
pub fn hash(data: &[u8]) -> (digest: Hash)
    ensures
        digest@ == blake2s256(data@),
{
    let mut hasher = hasher_new();
    hasher_update(&mut hasher, data);
    assert(absorbed(hasher) =~= data@);
    hasher_finalize(hasher)
}

/// Digest of several pieces: the digest of their concatenation, so that the
/// order of the pieces matters and their boundaries do not.
pub fn hash_multiple(data_pieces: &[&[u8]]) -> (digest: Hash)
    ensures
        digest@ == blake2s256(concatenation(data_pieces@)),
{
    let mut hasher = hasher_new();
    let mut i: usize = 0;
    while i < data_pieces.len()
        invariant
            i <= data_pieces.len(),
            absorbed(hasher) == concatenation(data_pieces@.take(i as int)),
        decreases data_pieces.len() - i,
    {
        hasher_update(&mut hasher, data_pieces[i]);
        proof {
            let fed = data_pieces@.take(i as int).map_values(|piece: &[u8]| piece@);
            let next = data_pieces@.take(i + 1).map_values(|piece: &[u8]| piece@);
            assert(next =~= fed.push(data_pieces@[i as int]@));
            fed.lemma_flatten_push(data_pieces@[i as int]@);
        }
        i += 1;
    }
    assert(data_pieces@.take(i as int) =~= data_pieces@);
    hasher_finalize(hasher)
}

/// The digest is a function of the bytes alone: buffers with the same
/// contents have the same digest.
pub proof fn lemma_hash_is_deterministic(first: &[u8], second: &[u8])
    requires
        first@ == second@,
    ensures
        blake2s256(first@) == blake2s256(second@),
{
}

/// Runs of pieces with the same contents, piece by piece, have the same
/// digest.
pub proof fn lemma_hash_multiple_is_deterministic(first: Seq<&[u8]>, second: Seq<&[u8]>)
    requires
        first.len() == second.len(),
        forall|i: int| 0 <= i < first.len() ==> first[i]@ == second[i]@,
    ensures
        blake2s256(concatenation(first)) == blake2s256(concatenation(second)),
{
    assert(first.map_values(|piece: &[u8]| piece@) =~= second.map_values(
        |piece: &[u8]| piece@,
    ));
}

/// One piece alone is its own concatenation: its digest as a piece is its
/// digest as a buffer.
pub proof fn lemma_concatenation_of_one(piece: &[u8])
    ensures
        concatenation(seq![piece]) == piece@,
{
    let views = seq![piece].map_values(|piece: &[u8]| piece@);
    views.lemma_flatten_singleton();
}

/// Pieces given in two runs concatenate to the two concatenations joined:
/// where the pieces are cut makes no difference to the digest.
pub proof fn lemma_concatenation_of_runs(first: Seq<&[u8]>, second: Seq<&[u8]>)
    ensures
        concatenation(first + second) == concatenation(first) + concatenation(second),
{
    let first_views = first.map_values(|piece: &[u8]| piece@);
    let second_views = second.map_values(|piece: &[u8]| piece@);
    assert((first + second).map_values(|piece: &[u8]| piece@) =~= first_views + second_views);
    vstd::seq_lib::lemma_flatten_concat(first_views, second_views);
}

} // verus!
