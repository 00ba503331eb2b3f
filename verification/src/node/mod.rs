//! The node: its configuration and its session guard.
//!
//! A session is either stopped or running. What callers can observe of it is
//! a [`SessionState`]; the operations of [`SwarmhostNode`] are stated as
//! transitions of that state, and the laws of the lifecycle are proved of the
//! transitions. The node itself is an exclusively owned record: whoever shares
//! it between tasks puts it behind a lock and calls these operations while
//! holding it.

use vstd::prelude::*;

pub mod config;

pub use config::{ConsensusConfig, NetworkConfig, NodeConfig, StateConfig};

use crate::crypto::PlayerId;
use crate::error::{Result, SwarmhostError};

verus! {

/// What can be observed of a session.
pub struct SessionState {
    /// The public key of the participant that owns the session.
    pub player_id: Seq<u8>,
    /// Whether the session is running.
    pub running: bool,
    /// The connected peers, in the order they were recorded.
    pub peers: Seq<Seq<u8>>,
}

impl SessionState {
    /// The state of a session that has just been constructed: stopped, with
    /// no peers.
    pub open spec fn initial(player_id: Seq<u8>) -> Self {
        SessionState { player_id, running: false, peers: Seq::empty() }
    }

    /// A stopped session has no peers.
    pub open spec fn well_formed(self) -> bool {
        !self.running ==> self.peers.len() == 0
    }

    /// Whether a start succeeds: only from stopped.
    pub open spec fn may_start(self) -> bool {
        !self.running
    }

    /// The state after a start, whether it succeeded or not: running, and
    /// otherwise unchanged.
    pub open spec fn started(self) -> Self {
        SessionState { running: true, ..self }
    }

    /// The state after a stop: stopped, with no peers.
    pub open spec fn stopped(self) -> Self {
        SessionState { running: false, peers: Seq::empty(), ..self }
    }

    /// Whether joining a game and submitting an action are let through: only
    /// while running.
    pub open spec fn admits_entry(self) -> bool {
        self.running
    }
}

/// Whether `result` is what an operation owes that is let through exactly
/// where `allowed` holds, and is else refused as a `Node` error with the
/// given complaint.
pub open spec fn is_guarded_result(result: Result<()>, allowed: bool, complaint: Seq<char>) -> bool {
    if allowed {
        result is Ok
    } else {
        result matches Err(SwarmhostError::Node(text)) && text@ == complaint
    }
}

/// The mutable record of a session.
struct NodeState {
    player_id: PlayerId,
    is_running: bool,
    connected_peers: Vec<PlayerId>,
}

impl View for NodeState {
    type V = SessionState;

    closed spec fn view(&self) -> SessionState {
        SessionState {
            player_id: self.player_id@,
            running: self.is_running,
            peers: self.connected_peers@.map_values(|peer: PlayerId| peer@),
        }
    }
}

/// A node: an accepted configuration and the session that runs under it.
pub struct SwarmhostNode {
    config: NodeConfig,
    state: NodeState,
}

impl View for SwarmhostNode {
    type V = SessionState;

    closed spec fn view(&self) -> SessionState {
        self.state@
    }
}

impl SwarmhostNode {
    /// The configuration was accepted, the session belongs to its identity,
    /// and a stopped session has no peers.
    #[verifier::type_invariant]
    spec fn consistent(&self) -> bool {
        &&& self.config.is_valid()
        &&& self.config.spec_player_id() == Some(self.state.player_id@)
        &&& self.state@.well_formed()
    }

    /// The configuration that the node was constructed from.
    pub closed spec fn config(&self) -> NodeConfig {
        self.config
    }

    /// A stopped node for a valid configuration. Any other configuration is
    /// refused with the complaint of its validation.
    pub fn new(config: NodeConfig) -> (r: Result<Self>)
        ensures
            match config.validation_error() {
                None => r matches Ok(node) && node.config() == config && Some(node@.player_id)
                    == config.spec_player_id() && node@ == SessionState::initial(node@.player_id),
                Some(complaint) => r matches Err(SwarmhostError::Config(text)) && text@
                    == complaint,
            },
    {
        match config.validate() {
            Err(text) => {
                return Err(SwarmhostError::Config(text));
            },
            Ok(()) => {},
        }
        let player_id = match config.player_id() {
            Some(id) => id,
            None => {
                return Err(SwarmhostError::Config(String::from_str("No keypair set")));
            },
        };
        let state = NodeState { player_id, is_running: false, connected_peers: Vec::new() };
        assert(state@.peers =~= Seq::empty());
        Ok(SwarmhostNode { config, state })
    }

    /// The identifier of the participant that owns this node.
    pub fn player_id(&self) -> (id: PlayerId)
        ensures
            id@ == self@.player_id,
            self.config().spec_player_id() == Some(id@),
    {
        proof {
            use_type_invariant(self);
        }
        self.state.player_id
    }

    /// Starts the node. Fails, and changes nothing, where it already runs.
    pub fn start(&mut self) -> (r: Result<()>)
        ensures
            is_guarded_result(r, old(self)@.may_start(), "Node already running"@),
            final(self)@ == old(self)@.started(),
            final(self).config() == old(self).config(),
    {
        proof {
            use_type_invariant(&*self);
        }
        if self.state.is_running {
            return Err(SwarmhostError::Node(String::from_str("Node already running")));
        }
        self.state.is_running = true;
        Ok(())
    }

    /// Stops the node and forgets its peers. Stopping a stopped node does
    /// nothing and succeeds.
    pub fn stop(&mut self) -> (r: Result<()>)
        ensures
            r is Ok,
            final(self)@ == old(self)@.stopped(),
            final(self).config() == old(self).config(),
    {
        proof {
            use_type_invariant(&*self);
        }
        if !self.state.is_running {
            assert(self.state@.peers =~= Seq::empty());
            return Ok(());
        }
        self.state.connected_peers = Vec::new();
        self.state.is_running = false;
        assert(self.state@.peers =~= Seq::empty());
        Ok(())
    }

    /// Whether the node is running.
    pub fn is_running(&self) -> (running: bool)
        ensures
            running == self@.running,
            self@.well_formed(),
    {
        proof {
            use_type_invariant(self);
        }
        self.state.is_running
    }

    /// The number of connected peers.
    pub fn peer_count(&self) -> (count: usize)
        ensures
            count == self@.peers.len(),
            self@.well_formed(),
    {
        proof {
            use_type_invariant(self);
        }
        self.state.connected_peers.len()
    }

    /// Joins a game session: let through while the node runs, refused
    /// otherwise. Nothing else is checked here.
    pub fn join_game(&self, _game_id: &str) -> (r: Result<()>)
        ensures
            is_guarded_result(r, self@.admits_entry(), "Node not running"@),
    {
        if !self.state.is_running {
            return Err(SwarmhostError::Node(String::from_str("Node not running")));
        }
        Ok(())
    }

    /// Submits an action to the network: let through while the node runs,
    /// refused otherwise. The action is not verified here.
    pub fn submit_action(&self, _action_type: u32, _action_data: &[u8]) -> (r: Result<()>)
        ensures
            is_guarded_result(r, self@.admits_entry(), "Node not running"@),
    {
        if !self.state.is_running {
            return Err(SwarmhostError::Node(String::from_str("Node not running")));
        }
        Ok(())
    }
}

/// Every transition leaves the session well formed, whatever it started
/// from.
pub proof fn lemma_transitions_keep_well_formed(state: SessionState)
    requires
        state.well_formed(),
    ensures
        state.started().well_formed(),
        state.stopped().well_formed(),
        SessionState::initial(state.player_id).well_formed(),
{
}

/// A start succeeds from stopped only: once a session has been started, any
/// further start before a stop fails and changes nothing, and a stop then
/// still leaves the session stopped with no peers.
pub proof fn lemma_start_is_exclusive(state: SessionState)
    requires
        state.well_formed(),
    ensures
        state.may_start() <==> !state.running,
        !state.started().may_start(),
        state.started().started() == state.started(),
        !state.started().started().stopped().running,
        state.started().started().stopped().peers.len() == 0,
        state.started().started().stopped().may_start(),
{
}

/// Stopping is idempotent, and a well-formed stopped session is left as it
/// is.
pub proof fn lemma_stop_is_idempotent(state: SessionState)
    requires
        state.well_formed(),
    ensures
        state.stopped().stopped() == state.stopped(),
        !state.running ==> state.stopped() == state,
{
    if !state.running {
        assert(state.peers =~= Seq::empty());
    }
}

/// The guarded entry points are closed on a session that was never started
/// and on one that was stopped, and open once it has been started.
pub proof fn lemma_entry_is_guarded(state: SessionState)
    ensures
        !SessionState::initial(state.player_id).admits_entry(),
        !state.stopped().admits_entry(),
        state.started().admits_entry(),
        state.admits_entry() <==> state.running,
{
}

} // verus!
