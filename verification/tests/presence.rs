use signaling_hub::identity::{ConnectionId, UserId};
use signaling_hub::presence::PresenceDirectory;

#[test]
fn new_directory_resolves_nobody() {
    let directory = PresenceDirectory::new();
    assert_eq!(directory.resolve(UserId(1)), None);
    assert_eq!(directory.len(), 0);
}

#[test]
fn bind_then_resolve() {
    let mut directory = PresenceDirectory::new();
    directory.bind(UserId(1), ConnectionId(10));
    assert_eq!(directory.resolve(UserId(1)), Some(ConnectionId(10)));
    assert_eq!(directory.resolve(UserId(2)), None);
    assert_eq!(directory.len(), 1);
}

#[test]
fn last_binding_wins() {
    let mut directory = PresenceDirectory::new();
    directory.bind(UserId(7), ConnectionId(1));
    directory.bind(UserId(7), ConnectionId(2));
    directory.bind(UserId(7), ConnectionId(3));
    assert_eq!(directory.resolve(UserId(7)), Some(ConnectionId(3)));
    assert_eq!(directory.len(), 1);
}

#[test]
fn rebinding_one_user_leaves_the_others() {
    let mut directory = PresenceDirectory::new();
    directory.bind(UserId(1), ConnectionId(10));
    directory.bind(UserId(2), ConnectionId(20));
    directory.bind(UserId(1), ConnectionId(11));
    assert_eq!(directory.resolve(UserId(1)), Some(ConnectionId(11)));
    assert_eq!(directory.resolve(UserId(2)), Some(ConnectionId(20)));
    assert_eq!(directory.len(), 2);
}

#[test]
fn two_users_may_share_a_connection() {
    let mut directory = PresenceDirectory::new();
    directory.bind(UserId(1), ConnectionId(10));
    directory.bind(UserId(2), ConnectionId(10));
    assert_eq!(directory.resolve(UserId(1)), Some(ConnectionId(10)));
    assert_eq!(directory.resolve(UserId(2)), Some(ConnectionId(10)));
    assert_eq!(directory.len(), 2);
}

#[test]
fn snapshot_is_a_point_in_time_copy() {
    let mut directory = PresenceDirectory::new();
    directory.bind(UserId(1), ConnectionId(10));
    let copy = directory.snapshot();
    directory.bind(UserId(1), ConnectionId(11));
    directory.bind(UserId(2), ConnectionId(20));
    assert_eq!(copy.resolve(UserId(1)), Some(ConnectionId(10)));
    assert_eq!(copy.resolve(UserId(2)), None);
    assert_eq!(copy.len(), 1);
    assert_eq!(directory.resolve(UserId(1)), Some(ConnectionId(11)));
    assert_eq!(directory.len(), 2);
}

#[test]
fn many_distinct_users_are_all_resolvable() {
    let mut directory = PresenceDirectory::new();
    let count: u128 = 200;
    for n in 0..count {
        directory.bind(UserId(n), ConnectionId(1000 + n));
    }
    assert_eq!(directory.len(), 200);
    for n in 0..count {
        assert_eq!(directory.resolve(UserId(n)), Some(ConnectionId(1000 + n)));
    }
    assert_eq!(directory.resolve(UserId(count)), None);
}

#[test]
fn order_of_distinct_bindings_does_not_matter() {
    let mut forward = PresenceDirectory::new();
    forward.bind(UserId(1), ConnectionId(10));
    forward.bind(UserId(2), ConnectionId(20));
    let mut backward = PresenceDirectory::new();
    backward.bind(UserId(2), ConnectionId(20));
    backward.bind(UserId(1), ConnectionId(10));
    for n in 0..4u128 {
        assert_eq!(forward.resolve(UserId(n)), backward.resolve(UserId(n)));
    }
    assert_eq!(forward.len(), backward.len());
}

#[test]
fn identifiers_use_the_full_width() {
    let mut directory = PresenceDirectory::new();
    directory.bind(UserId(u128::MAX), ConnectionId(u128::MAX));
    directory.bind(UserId(0), ConnectionId(0));
    assert_eq!(directory.resolve(UserId(u128::MAX)), Some(ConnectionId(u128::MAX)));
    assert_eq!(directory.resolve(UserId(0)), Some(ConnectionId(0)));
    assert_eq!(directory.resolve(UserId(u128::MAX - 1)), None);
}
