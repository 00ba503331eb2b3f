use swarmhost_core::crypto::KeyPair;
use swarmhost_core::node::{ConsensusConfig, NetworkConfig, NodeConfig, StateConfig};

#[test]
fn test_default_config() {
    let config = NodeConfig::default();
    assert_eq!(config.consensus.quorum_numerator, 2);
    assert_eq!(config.consensus.quorum_denominator, 3);
    assert!(config.consensus.optimistic_execution);
}

#[test]
fn test_new_config_generates_keypair() {
    let config = NodeConfig::new();
    assert!(config.keypair.is_some());
    assert!(config.player_id().is_some());
}

#[test]
fn test_config_builder() {
    let config = NodeConfig::new()
        .with_bootstrap("localhost:8080")
        .with_port(9000)
        .with_optimistic_execution(false);

    assert_eq!(config.bootstrap_server, Some("localhost:8080".to_string()));
    assert_eq!(config.listen_port, 9000);
    assert!(!config.consensus.optimistic_execution);
}

#[test]
fn test_validate_config() {
    let mut config = NodeConfig::new();
    assert!(config.validate().is_ok());

    // Invalid: no keypair
    config.keypair = None;
    assert!(config.validate().is_err());

    // Invalid: bad quorum
    config.keypair = Some(KeyPair::generate());
    config.consensus.quorum_numerator = 0;
    assert!(config.validate().is_err());
}

#[test]
fn default_tunables_have_their_documented_values() {
    let consensus = ConsensusConfig::default();
    assert_eq!(consensus.quorum_numerator, 2);
    assert_eq!(consensus.quorum_denominator, 3);
    assert!(consensus.optimistic_execution);
    assert_eq!(consensus.consensus_timeout_secs, 5);
    assert_eq!(consensus.max_concurrent_validations, 100);

    let network = NetworkConfig::default();
    assert_eq!(network.max_peers, 50);
    assert_eq!(network.heartbeat_interval_secs, 10);
    assert_eq!(network.peer_timeout_secs, 30);
    assert_eq!(network.max_message_size, 1_048_576);
    assert!(network.enable_compression);

    let state = StateConfig::default();
    assert_eq!(state.snapshot_interval, 100);
    assert_eq!(state.max_snapshots_in_memory, 10);
    assert_eq!(state.max_action_log_size, 1000);
}

#[test]
fn default_config_has_no_identity_and_is_refused() {
    let config = NodeConfig::default();
    assert!(config.keypair.is_none());
    assert!(config.player_id().is_none());
    assert_eq!(config.bootstrap_server, None);
    assert_eq!(config.listen_port, 0);
    assert_eq!(config.validate(), Err("Keypair must be set".to_string()));
}

#[test]
fn default_tunables_with_identity_are_valid() {
    let config = NodeConfig::with_keypair(KeyPair::generate());
    assert_eq!(config.consensus.quorum_numerator, 2);
    assert_eq!(config.consensus.quorum_denominator, 3);
    assert!(config.consensus.optimistic_execution);
    assert_eq!(config.validate(), Ok(()));
}

#[test]
fn with_keypair_keeps_the_identity() {
    let keypair = KeyPair::from_bytes(&[9u8; 32]).unwrap();
    let expected = keypair.public_key();
    let config = NodeConfig::with_keypair(keypair);
    assert_eq!(config.player_id(), Some(expected));
    assert_eq!(config.listen_port, 0);
    assert_eq!(config.bootstrap_server, None);
}

#[test]
fn zero_numerator_is_refused() {
    let mut config = NodeConfig::new();
    config.consensus.quorum_numerator = 0;
    assert_eq!(
        config.validate(),
        Err("Quorum fraction cannot have zero denominator/numerator".to_string())
    );
}

#[test]
fn zero_denominator_is_refused() {
    let mut config = NodeConfig::new();
    config.consensus.quorum_denominator = 0;
    assert_eq!(
        config.validate(),
        Err("Quorum fraction cannot have zero denominator/numerator".to_string())
    );
}

#[test]
fn numerator_above_denominator_is_refused() {
    let mut config = NodeConfig::new();
    config.consensus.quorum_numerator = 4;
    config.consensus.quorum_denominator = 3;
    assert_eq!(
        config.validate(),
        Err("Quorum numerator cannot exceed denominator".to_string())
    );
}

#[test]
fn numerator_equal_to_denominator_is_accepted() {
    let mut config = NodeConfig::new();
    config.consensus.quorum_numerator = 3;
    config.consensus.quorum_denominator = 3;
    assert_eq!(config.validate(), Ok(()));
    config.consensus.quorum_numerator = u32::MAX;
    config.consensus.quorum_denominator = u32::MAX;
    assert_eq!(config.validate(), Ok(()));
}

#[test]
fn zero_message_size_is_refused() {
    let mut config = NodeConfig::new();
    config.network.max_message_size = 0;
    assert_eq!(config.validate(), Err("Max message size must be > 0".to_string()));
    config.network.max_message_size = 1;
    assert_eq!(config.validate(), Ok(()));
}

#[test]
fn first_fault_is_the_one_reported() {
    let mut config = NodeConfig::default();
    config.consensus.quorum_numerator = 0;
    config.network.max_message_size = 0;
    assert_eq!(config.validate(), Err("Keypair must be set".to_string()));

    config.keypair = Some(KeyPair::generate());
    assert_eq!(
        config.validate(),
        Err("Quorum fraction cannot have zero denominator/numerator".to_string())
    );

    config.consensus.quorum_numerator = 5;
    assert_eq!(
        config.validate(),
        Err("Quorum numerator cannot exceed denominator".to_string())
    );
}

#[test]
fn builders_change_one_setting_each() {
    let base = NodeConfig::with_keypair(KeyPair::from_bytes(&[1u8; 32]).unwrap());
    let id = base.player_id();

    let config = base.with_port(65535);
    assert_eq!(config.listen_port, 65535);
    assert_eq!(config.bootstrap_server, None);
    assert!(config.consensus.optimistic_execution);
    assert_eq!(config.player_id(), id);

    let config = config.with_optimistic_execution(false);
    assert!(!config.consensus.optimistic_execution);
    assert_eq!(config.consensus.quorum_numerator, 2);
    assert_eq!(config.consensus.quorum_denominator, 3);
    assert_eq!(config.consensus.consensus_timeout_secs, 5);
    assert_eq!(config.listen_port, 65535);

    let config = config.with_bootstrap("10.0.0.1:7000");
    assert_eq!(config.bootstrap_server, Some("10.0.0.1:7000".to_string()));
    assert_eq!(config.listen_port, 65535);
    assert!(!config.consensus.optimistic_execution);
    assert_eq!(config.network.max_message_size, 1_048_576);
    assert_eq!(config.state.snapshot_interval, 100);
    assert_eq!(config.player_id(), id);

    let config = config.with_optimistic_execution(true).with_bootstrap("");
    assert!(config.consensus.optimistic_execution);
    assert_eq!(config.bootstrap_server, Some(String::new()));
}

#[test]
fn clone_keeps_every_field() {
    let config = NodeConfig::new().with_bootstrap("localhost:8080").with_port(9000);
    let copy = config.clone();
    assert_eq!(copy.player_id(), config.player_id());
    assert_eq!(copy.bootstrap_server, config.bootstrap_server);
    assert_eq!(copy.listen_port, 9000);
    assert_eq!(copy.consensus.quorum_numerator, 2);
    assert_eq!(copy.network.max_peers, 50);
    assert_eq!(copy.state.max_action_log_size, 1000);
}
