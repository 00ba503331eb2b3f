use swarmhost_core::crypto::KeyPair;
use swarmhost_core::node::{NodeConfig, SwarmhostNode};
use swarmhost_core::SwarmhostError;

fn node_detail(result: Result<(), SwarmhostError>) -> String {
    match result {
        Err(SwarmhostError::Node(detail)) => detail,
        Err(other) => panic!("not a node error: {:?}", other),
        Ok(()) => panic!("the operation succeeded"),
    }
}

fn config_detail(result: Result<SwarmhostNode, SwarmhostError>) -> String {
    match result {
        Err(SwarmhostError::Config(detail)) => detail,
        Err(other) => panic!("not a configuration error: {:?}", other),
        Ok(_) => panic!("the node was constructed"),
    }
}

#[test]
fn test_node_creation() {
    let config = NodeConfig::new();
    let node = SwarmhostNode::new(config).unwrap();

    assert!(!node.is_running());
    assert_eq!(node.peer_count(), 0);
}

#[test]
fn test_node_start_stop() {
    let config = NodeConfig::new();
    let mut node = SwarmhostNode::new(config).unwrap();

    node.start().unwrap();
    assert!(node.is_running());

    node.stop().unwrap();
    assert!(!node.is_running());
}

#[test]
fn test_double_start_fails() {
    let config = NodeConfig::new();
    let mut node = SwarmhostNode::new(config).unwrap();

    node.start().unwrap();
    let result = node.start();
    assert!(result.is_err());
}

#[test]
fn test_submit_action_when_not_running() {
    let config = NodeConfig::new();
    let node = SwarmhostNode::new(config).unwrap();

    let result = node.submit_action(1, b"test");
    assert!(result.is_err());
}

#[test]
fn node_takes_the_identity_of_its_configuration() {
    let keypair = KeyPair::from_bytes(&[3u8; 32]).unwrap();
    let expected = keypair.public_key();
    let node = SwarmhostNode::new(NodeConfig::with_keypair(keypair)).unwrap();
    assert_eq!(node.player_id(), expected);
}

#[test]
fn construction_refuses_a_configuration_without_identity() {
    let detail = config_detail(SwarmhostNode::new(NodeConfig::default()));
    assert_eq!(detail, "Keypair must be set");
}

#[test]
fn construction_refuses_an_invalid_quorum() {
    let mut config = NodeConfig::new();
    config.consensus.quorum_numerator = 0;
    let detail = config_detail(SwarmhostNode::new(config));
    assert_eq!(detail, "Quorum fraction cannot have zero denominator/numerator");

    let mut config = NodeConfig::new();
    config.consensus.quorum_numerator = 7;
    let detail = config_detail(SwarmhostNode::new(config));
    assert_eq!(detail, "Quorum numerator cannot exceed denominator");
}

#[test]
fn construction_refuses_a_zero_message_size() {
    let mut config = NodeConfig::new();
    config.network.max_message_size = 0;
    let detail = config_detail(SwarmhostNode::new(config));
    assert_eq!(detail, "Max message size must be > 0");
}

#[test]
fn second_start_fails_and_stop_still_stops() {
    let mut node = SwarmhostNode::new(NodeConfig::new()).unwrap();
    let id = node.player_id();

    assert!(node.start().is_ok());
    assert_eq!(node_detail(node.start()), "Node already running");
    assert!(node.is_running());
    assert_eq!(node.player_id(), id);

    assert!(node.stop().is_ok());
    assert!(!node.is_running());
    assert_eq!(node.peer_count(), 0);
    assert_eq!(node.player_id(), id);
}

#[test]
fn stop_is_idempotent() {
    let mut node = SwarmhostNode::new(NodeConfig::new()).unwrap();
    assert!(node.stop().is_ok());
    assert!(!node.is_running());
    assert!(node.start().is_ok());
    assert!(node.stop().is_ok());
    assert!(node.stop().is_ok());
    assert!(!node.is_running());
    assert_eq!(node.peer_count(), 0);
}

#[test]
fn node_can_be_started_again_after_a_stop() {
    let mut node = SwarmhostNode::new(NodeConfig::new()).unwrap();
    assert!(node.start().is_ok());
    assert!(node.stop().is_ok());
    assert!(node.start().is_ok());
    assert!(node.is_running());
    assert!(node.start().is_err());
}

#[test]
fn entry_points_are_guarded_by_the_running_state() {
    let mut node = SwarmhostNode::new(NodeConfig::new()).unwrap();

    assert_eq!(node_detail(node.join_game("lobby")), "Node not running");
    assert_eq!(node_detail(node.submit_action(1, b"test")), "Node not running");

    node.start().unwrap();
    assert!(node.join_game("lobby").is_ok());
    assert!(node.join_game("").is_ok());
    assert!(node.submit_action(1, b"test").is_ok());
    assert!(node.submit_action(u32::MAX, b"").is_ok());

    node.stop().unwrap();
    assert_eq!(node_detail(node.join_game("lobby")), "Node not running");
    assert_eq!(node_detail(node.submit_action(1, b"test")), "Node not running");
}

#[test]
fn submit_does_not_verify_the_action() {
    let mut node = SwarmhostNode::new(NodeConfig::new()).unwrap();
    node.start().unwrap();
    assert!(node.submit_action(0, b"anything at all").is_ok());
    assert!(node.is_running());
}
