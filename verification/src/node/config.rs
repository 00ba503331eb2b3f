//! Configuration of a node, and the validation that a session relies on.

use crate::crypto::{KeyPair, PlayerId};
use vstd::prelude::*;

verus! {

/// Configuration of a node.
pub struct NodeConfig {
    /// The participant's identity, used to sign actions. It is secret and
    /// never part of a stored configuration.
    pub keypair: Option<KeyPair>,
    /// Address of the bootstrap server for peer discovery.
    pub bootstrap_server: Option<String>,
    /// Port to listen on for incoming connections.
    pub listen_port: u16,
    /// Consensus tunables.
    pub consensus: ConsensusConfig,
    /// Network tunables.
    pub network: NetworkConfig,
    /// State management tunables.
    pub state: StateConfig,
}

/// Tunables of the consensus process.
#[derive(Debug)]
pub struct ConsensusConfig {
    /// Numerator of the quorum fraction.
    pub quorum_numerator: u32,
    /// Denominator of the quorum fraction.
    pub quorum_denominator: u32,
    /// Whether actions may be applied before the quorum has confirmed them.
    pub optimistic_execution: bool,
    /// Seconds allowed for reaching consensus on an action.
    pub consensus_timeout_secs: u64,
    /// Most actions that may be in validation at once.
    pub max_concurrent_validations: usize,
}

/// Tunables of the transport.
#[derive(Debug)]
pub struct NetworkConfig {
    /// Most peers to keep connections with.
    pub max_peers: usize,
    /// Seconds between two heartbeats to a peer.
    pub heartbeat_interval_secs: u64,
    /// Seconds without a heartbeat after which a peer is dropped.
    pub peer_timeout_secs: u64,
    /// Largest message accepted, in bytes.
    pub max_message_size: usize,
    /// Whether messages are compressed.
    pub enable_compression: bool,
}

/// Tunables of snapshotting and of the action log.
#[derive(Debug)]
pub struct StateConfig {
    /// Number of actions between two snapshots.
    pub snapshot_interval: u32,
    /// Most snapshots kept in memory.
    pub max_snapshots_in_memory: usize,
    /// Largest action log before a snapshot is required.
    pub max_action_log_size: usize,
}

impl ConsensusConfig {
    /// The default tunables: a quorum of two thirds, optimistic execution,
    /// five seconds to agree, a hundred validations at once.
    pub open spec fn spec_default() -> Self {
        ConsensusConfig {
            quorum_numerator: 2,
            quorum_denominator: 3,
            optimistic_execution: true,
            consensus_timeout_secs: 5,
            max_concurrent_validations: 100,
        }
    }
}

impl Clone for ConsensusConfig {
    fn clone(&self) -> (c: Self)
        ensures
            c == *self,
    {
        ConsensusConfig {
            quorum_numerator: self.quorum_numerator,
            quorum_denominator: self.quorum_denominator,
            optimistic_execution: self.optimistic_execution,
            consensus_timeout_secs: self.consensus_timeout_secs,
            max_concurrent_validations: self.max_concurrent_validations,
        }
    }
}

impl Default for ConsensusConfig {
    fn default() -> (c: Self)
        ensures
            c == ConsensusConfig::spec_default(),
    {
        ConsensusConfig {
            quorum_numerator: 2,
            quorum_denominator: 3,
            optimistic_execution: true,
            consensus_timeout_secs: 5,
            max_concurrent_validations: 100,
        }
    }
}

impl NetworkConfig {
    /// The default tunables: fifty peers, a heartbeat every ten seconds, a
    /// peer dropped after thirty, messages of up to one mebibyte, compressed.
    pub open spec fn spec_default() -> Self {
        NetworkConfig {
            max_peers: 50,
            heartbeat_interval_secs: 10,
            peer_timeout_secs: 30,
            max_message_size: 1048576,
            enable_compression: true,
        }
    }
}

impl Clone for NetworkConfig {
    fn clone(&self) -> (c: Self)
        ensures
            c == *self,
    {
        NetworkConfig {
            max_peers: self.max_peers,
            heartbeat_interval_secs: self.heartbeat_interval_secs,
            peer_timeout_secs: self.peer_timeout_secs,
            max_message_size: self.max_message_size,
            enable_compression: self.enable_compression,
        }
    }
}

impl Default for NetworkConfig {
    fn default() -> (c: Self)
        ensures
            c == NetworkConfig::spec_default(),
    {
        NetworkConfig {
            max_peers: 50,
            heartbeat_interval_secs: 10,
            peer_timeout_secs: 30,
            max_message_size: 1024 * 1024,
            enable_compression: true,
        }
    }
}

impl StateConfig {
    /// The default tunables: a snapshot every hundred actions, ten snapshots
    /// in memory, a log of a thousand actions.
    pub open spec fn spec_default() -> Self {
        StateConfig {
            snapshot_interval: 100,
            max_snapshots_in_memory: 10,
            max_action_log_size: 1000,
        }
    }
}

impl Clone for StateConfig {
    fn clone(&self) -> (c: Self)
        ensures
            c == *self,
    {
        StateConfig {
            snapshot_interval: self.snapshot_interval,
            max_snapshots_in_memory: self.max_snapshots_in_memory,
            max_action_log_size: self.max_action_log_size,
        }
    }
}

impl Default for StateConfig {
    fn default() -> (c: Self)
        ensures
            c == StateConfig::spec_default(),
    {
        StateConfig {
            snapshot_interval: 100,
            max_snapshots_in_memory: 10,
            max_action_log_size: 1000,
        }
    }
}

impl NodeConfig {
    /// Whether the configuration may carry a session: an identity is set, the
    /// quorum fraction lies in (0, 1], and messages may have a size.
    pub open spec fn is_valid(&self) -> bool {
        &&& self.keypair is Some
        &&& 0 < self.consensus.quorum_numerator <= self.consensus.quorum_denominator
        &&& self.network.max_message_size > 0
    }

    /// The complaint that validation raises, `None` where there is none. Of
    /// several faults the first in this order is reported: identity, zero in
    /// the quorum fraction, fraction above one, message size.
    pub open spec fn validation_error(&self) -> Option<Seq<char>> {
        if self.keypair is None {
            Some("Keypair must be set"@)
        } else if self.consensus.quorum_numerator == 0 || self.consensus.quorum_denominator == 0 {
            Some("Quorum fraction cannot have zero denominator/numerator"@)
        } else if self.consensus.quorum_numerator > self.consensus.quorum_denominator {
            Some("Quorum numerator cannot exceed denominator"@)
        } else if self.network.max_message_size == 0 {
            Some("Max message size must be > 0"@)
        } else {
            None
        }
    }

    /// Whether every tunable has its default value. Says nothing of the
    /// identity.
    pub open spec fn has_default_tunables(&self) -> bool {
        &&& self.bootstrap_server is None
        &&& self.listen_port == 0
        &&& self.consensus == ConsensusConfig::spec_default()
        &&& self.network == NetworkConfig::spec_default()
        &&& self.state == StateConfig::spec_default()
    }

    /// The public key of the configured identity, if there is one.
    pub open spec fn spec_player_id(&self) -> Option<Seq<u8>> {
        match self.keypair {
            Some(pair) => Some(pair.public_bytes()),
            None => None,
        }
    }

    /// The default tunables with a freshly generated identity.
    pub fn new() -> (c: Self)
        ensures
            c.keypair is Some,
            c.has_default_tunables(),
            c.is_valid(),
    {
        NodeConfig::with_keypair(KeyPair::generate())
    }

    /// The default tunables with the given identity.
    pub fn with_keypair(keypair: KeyPair) -> (c: Self)
        ensures
            c.keypair == Some(keypair),
            c.has_default_tunables(),
            c.is_valid(),
    {
        NodeConfig {
            keypair: Some(keypair),
            bootstrap_server: None,
            listen_port: 0,
            consensus: ConsensusConfig::default(),
            network: NetworkConfig::default(),
            state: StateConfig::default(),
        }
    }

    /// The participant's identifier: the public key of the identity.
    pub fn player_id(&self) -> (id: Option<PlayerId>)
        ensures
            match id {
                Some(key) => self.spec_player_id() == Some(key@),
                None => self.keypair is None,
            },
    {
        match &self.keypair {
            Some(pair) => Some(pair.public_key()),
            None => None,
        }
    }

    /// The same configuration with the bootstrap server set.
    pub fn with_bootstrap(self, server: &str) -> (c: Self)
        ensures
            c.bootstrap_server matches Some(address) && address@ == server@,
            c.keypair == self.keypair,
            c.listen_port == self.listen_port,
            c.consensus == self.consensus,
            c.network == self.network,
            c.state == self.state,
    {
        NodeConfig { bootstrap_server: Some(String::from_str(server)), ..self }
    }

    /// The same configuration with the listen port set.
    pub fn with_port(self, port: u16) -> (c: Self)
        ensures
            c == (NodeConfig { listen_port: port, ..self }),
    {
        NodeConfig { listen_port: port, ..self }
    }

    /// The same configuration with optimistic execution switched on or off.
    pub fn with_optimistic_execution(self, enabled: bool) -> (c: Self)
        ensures
            c == (NodeConfig {
                consensus: ConsensusConfig { optimistic_execution: enabled, ..self.consensus },
                ..self
            }),
    {
        NodeConfig {
            consensus: ConsensusConfig { optimistic_execution: enabled, ..self.consensus },
            ..self
        }
    }

    /// Accepts the valid configurations, and tells of another what is wrong
    /// with it.
    pub fn validate(&self) -> (r: core::result::Result<(), String>)
        ensures
            r is Ok <==> self.is_valid(),
            match self.validation_error() {
                None => r is Ok,
                Some(complaint) => r matches Err(text) && text@ == complaint,
            },
    {
        if self.keypair.is_none() {
            return Err(String::from_str("Keypair must be set"));
        }
        if self.consensus.quorum_numerator == 0 || self.consensus.quorum_denominator == 0 {
            return Err(
                String::from_str("Quorum fraction cannot have zero denominator/numerator"),
            );
        }
        if self.consensus.quorum_numerator > self.consensus.quorum_denominator {
            return Err(String::from_str("Quorum numerator cannot exceed denominator"));
        }
        if self.network.max_message_size == 0 {
            return Err(String::from_str("Max message size must be > 0"));
        }
        Ok(())
    }
}

impl Clone for NodeConfig {
    fn clone(&self) -> (c: Self)
        ensures
            c == *self,
    {
        NodeConfig {
            keypair: match &self.keypair {
                Some(pair) => Some(pair.clone()),
                None => None,
            },
            bootstrap_server: match &self.bootstrap_server {
                Some(address) => Some(address.clone()),
                None => None,
            },
            listen_port: self.listen_port,
            consensus: self.consensus.clone(),
            network: self.network.clone(),
            state: self.state.clone(),
        }
    }
}

impl Default for NodeConfig {
    /// The default tunables and no identity: not yet valid.
    fn default() -> (c: Self)
        ensures
            c.keypair is None,
            c.has_default_tunables(),
    {
        NodeConfig {
            keypair: None,
            bootstrap_server: None,
            listen_port: 0,
            consensus: ConsensusConfig::default(),
            network: NetworkConfig::default(),
            state: StateConfig::default(),
        }
    }
}

/// A configuration is valid exactly where validation finds nothing to
/// complain of.
pub proof fn lemma_valid_iff_no_complaint(config: NodeConfig)
    ensures
        config.is_valid() <==> config.validation_error() is None,
{
}

/// A quorum numerator of zero is never valid.
pub proof fn lemma_zero_numerator_invalid(config: NodeConfig)
    requires
        config.consensus.quorum_numerator == 0,
    ensures
        !config.is_valid(),
        config.validation_error() is Some,
{
}

/// A quorum numerator above the denominator is never valid.
pub proof fn lemma_numerator_above_denominator_invalid(config: NodeConfig)
    requires
        config.consensus.quorum_numerator > config.consensus.quorum_denominator,
    ensures
        !config.is_valid(),
        config.validation_error() is Some,
{
}

/// A configuration without an identity is never valid, and that is the fault
/// reported first.
pub proof fn lemma_missing_identity_invalid(config: NodeConfig)
    requires
        config.keypair is None,
    ensures
        !config.is_valid(),
        config.validation_error() == Some("Keypair must be set"@),
{
}

/// The default tunables are valid as soon as an identity is set.
pub proof fn lemma_default_tunables_valid(config: NodeConfig)
    requires
        config.keypair is Some,
        config.has_default_tunables(),
    ensures
        config.is_valid(),
        config.consensus.quorum_numerator == 2,
        config.consensus.quorum_denominator == 3,
        config.consensus.optimistic_execution,
{
}

} // verus!
