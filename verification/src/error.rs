//! The error type shared by every fallible operation of the library.

use vstd::prelude::*;

verus! {

/// Result of a fallible operation of the library.
pub type Result<T> = core::result::Result<T, SwarmhostError>;

/// An I/O failure reported by the transport; its contents are opaque here.
#[verifier::external_type_specification]
#[verifier::external_body]
pub struct ExIoError(std::io::Error);

/// What went wrong, by subsystem, with a human-readable detail.
#[derive(Debug)]
pub enum SwarmhostError {
    Network(std::io::Error),
    Consensus(String),
    Validation(String),
    Crypto(String),
    Serialization(String),
    Node(String),
    Timeout(String),
    InvalidState(String),
    Peer(String),
    Config(String),
}

/// The description that an I/O failure gives of itself, as its `Display`
/// writes it. Nothing is promised of the text.
#[verifier::external_body]
fn io_error_text(e: &std::io::Error) -> (text: String) {
    format!("{}", e)
}

impl From<std::io::Error> for SwarmhostError {
    fn from(e: std::io::Error) -> (r: Self) {
        SwarmhostError::Network(e)
    }
}

impl vstd::std_specs::convert::FromSpecImpl<std::io::Error> for SwarmhostError {
    open spec fn obeys_from_spec() -> bool {
        true
    }

    open spec fn from_spec(e: std::io::Error) -> Self {
        SwarmhostError::Network(e)
    }
}

impl SwarmhostError {
    /// The words that open the message of an error, by its kind.
    pub open spec fn label(&self) -> Seq<char> {
        match self {
            SwarmhostError::Network(_) => "Network error: "@,
            SwarmhostError::Consensus(_) => "Consensus error: "@,
            SwarmhostError::Validation(_) => "Validation error: "@,
            SwarmhostError::Crypto(_) => "Cryptography error: "@,
            SwarmhostError::Serialization(_) => "Serialization error: "@,
            SwarmhostError::Node(_) => "Node error: "@,
            SwarmhostError::Timeout(_) => "Timeout: "@,
            SwarmhostError::InvalidState(_) => "Invalid state: "@,
            SwarmhostError::Peer(_) => "Peer error: "@,
            SwarmhostError::Config(_) => "Configuration error: "@,
        }
    }

    /// The detail that an error carries as text; `None` for an I/O failure,
    /// whose description is its own.
    pub open spec fn detail(&self) -> Option<Seq<char>> {
        match self {
            SwarmhostError::Network(_) => None,
            SwarmhostError::Consensus(msg) => Some(msg@),
            SwarmhostError::Validation(msg) => Some(msg@),
            SwarmhostError::Crypto(msg) => Some(msg@),
            SwarmhostError::Serialization(msg) => Some(msg@),
            SwarmhostError::Node(msg) => Some(msg@),
            SwarmhostError::Timeout(msg) => Some(msg@),
            SwarmhostError::InvalidState(msg) => Some(msg@),
            SwarmhostError::Peer(msg) => Some(msg@),
            SwarmhostError::Config(msg) => Some(msg@),
        }
    }

    /// The message of the error: its label, then its detail.
    pub fn message(&self) -> (text: String)
        ensures
            match self.detail() {
                Some(detail) => text@ == self.label() + detail,
                None => self.label().is_prefix_of(text@),
            },
    {
        match self {
            SwarmhostError::Network(e) => {
                let mut text = String::from_str("Network error: ");
                let cause = io_error_text(e);
                text.append(cause.as_str());
                assert(text@.subrange(0, "Network error: "@.len() as int) =~= "Network error: "@);
                text
            },
            SwarmhostError::Consensus(msg) => String::from_str("Consensus error: ").concat(
                msg.as_str(),
            ),
            SwarmhostError::Validation(msg) => String::from_str("Validation error: ").concat(
                msg.as_str(),
            ),
            SwarmhostError::Crypto(msg) => String::from_str("Cryptography error: ").concat(
                msg.as_str(),
            ),
            SwarmhostError::Serialization(msg) => String::from_str("Serialization error: ").concat(
                msg.as_str(),
            ),
            SwarmhostError::Node(msg) => String::from_str("Node error: ").concat(msg.as_str()),
            SwarmhostError::Timeout(msg) => String::from_str("Timeout: ").concat(msg.as_str()),
            SwarmhostError::InvalidState(msg) => String::from_str("Invalid state: ").concat(
                msg.as_str(),
            ),
            SwarmhostError::Peer(msg) => String::from_str("Peer error: ").concat(msg.as_str()),
            SwarmhostError::Config(msg) => String::from_str("Configuration error: ").concat(
                msg.as_str(),
            ),
        }
    }

    /// A consensus failure with the given detail.
    pub fn consensus(msg: String) -> (e: Self)
        ensures
            e == SwarmhostError::Consensus(msg),
    {
        SwarmhostError::Consensus(msg)
    }

    /// A validation failure with the given detail.
    pub fn validation(msg: String) -> (e: Self)
        ensures
            e == SwarmhostError::Validation(msg),
    {
        SwarmhostError::Validation(msg)
    }

    /// A cryptographic failure with the given detail.
    pub fn crypto(msg: String) -> (e: Self)
        ensures
            e == SwarmhostError::Crypto(msg),
    {
        SwarmhostError::Crypto(msg)
    }

    /// A node lifecycle failure with the given detail.
    pub fn node(msg: String) -> (e: Self)
        ensures
            e == SwarmhostError::Node(msg),
    {
        SwarmhostError::Node(msg)
    }

    /// A timeout with the given detail.
    pub fn timeout(msg: String) -> (e: Self)
        ensures
            e == SwarmhostError::Timeout(msg),
    {
        SwarmhostError::Timeout(msg)
    }
}

} // verus!
