//! Fresh private material from the `rand` crate.

use vstd::prelude::*;

verus! {

/// `rand::random`: 32 bytes from the thread's generator. Nothing is promised
/// of their value.
#[verifier::external_body]
pub(crate) fn random_secret() -> (secret: [u8; 32]) {
    rand::random()
}

} // verus!
