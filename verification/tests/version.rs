use swarmhost_core::VERSION;

#[test]
fn test_version() {
    assert!(!VERSION.is_empty());
}
