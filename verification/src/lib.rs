//! Identity and session core of a peer-to-peer node.
//!
//! The crate offers signing keys and content digests ([`crypto`]), the error
//! type shared by every fallible operation ([`error`]), and the validated
//! configuration together with the start/stop session guard ([`node`]).

use vstd::prelude::*;

pub mod crypto;
pub mod error;
pub mod node;

pub use error::{Result, SwarmhostError};

verus! {

/// Version of this library.
pub const VERSION: &'static str = "0.1.0";

} // verus!
