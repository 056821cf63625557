use signaling_hub::identity::ConnectionId;
use signaling_hub::registry::ConnectionRegistry;

#[test]
fn new_registry_is_empty() {
    let registry: ConnectionRegistry<String> = ConnectionRegistry::new();
    assert_eq!(registry.lookup(ConnectionId(1)), None);
}

#[test]
fn register_then_lookup() {
    let mut registry: ConnectionRegistry<String> = ConnectionRegistry::new();
    registry.register(ConnectionId(1), "one".to_string());
    registry.register(ConnectionId(2), "two".to_string());
    assert_eq!(registry.lookup(ConnectionId(1)), Some(&"one".to_string()));
    assert_eq!(registry.lookup(ConnectionId(2)), Some(&"two".to_string()));
    assert_eq!(registry.lookup(ConnectionId(3)), None);
}

#[test]
fn register_overwrites_silently() {
    let mut registry: ConnectionRegistry<u32> = ConnectionRegistry::new();
    registry.register(ConnectionId(1), 10);
    registry.register(ConnectionId(1), 11);
    assert_eq!(registry.lookup(ConnectionId(1)), Some(&11));
}

#[test]
fn unregister_removes_only_that_entry() {
    let mut registry: ConnectionRegistry<u32> = ConnectionRegistry::new();
    registry.register(ConnectionId(1), 10);
    registry.register(ConnectionId(2), 20);
    assert_eq!(registry.unregister(ConnectionId(1)), Some(10));
    assert_eq!(registry.lookup(ConnectionId(1)), None);
    assert_eq!(registry.lookup(ConnectionId(2)), Some(&20));
}

#[test]
fn unregister_of_unknown_connection_changes_nothing() {
    let mut registry: ConnectionRegistry<u32> = ConnectionRegistry::new();
    registry.register(ConnectionId(2), 20);
    assert_eq!(registry.unregister(ConnectionId(1)), None);
    assert_eq!(registry.unregister(ConnectionId(1)), None);
    assert_eq!(registry.lookup(ConnectionId(2)), Some(&20));
}

#[test]
fn accept_registers_under_the_returned_identifier() {
    let mut registry: ConnectionRegistry<&str> = ConnectionRegistry::new();
    let id = registry.accept("handle");
    assert_eq!(registry.lookup(id), Some(&"handle"));
}

#[test]
fn accepted_identifiers_have_the_random_layout() {
    let mut registry: ConnectionRegistry<u8> = ConnectionRegistry::new();
    for n in 0..32u8 {
        let id = registry.accept(n);
        assert_eq!(
            id.0 & 0x0000_0000_0000_f000_c000_0000_0000_0000,
            0x0000_0000_0000_4000_8000_0000_0000_0000
        );
        assert_eq!(uuid::Uuid::from_u128(id.0).get_version_num(), 4);
    }
}

#[test]
fn accepted_identifiers_differ() {
    let mut registry: ConnectionRegistry<u8> = ConnectionRegistry::new();
    let first = registry.accept(1);
    let second = registry.accept(2);
    assert_ne!(first, second);
    assert_eq!(registry.lookup(first), Some(&1));
    assert_eq!(registry.lookup(second), Some(&2));
}
