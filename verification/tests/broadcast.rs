use ws_broadcast::key::BroadcastType;
use ws_broadcast::registry::BroadcastSendError;
use ws_broadcast::session::pre_decrement;
use ws_broadcast::session::WebSocket;

#[test]
fn key_pairwise_symmetric() {
    let ab = BroadcastType::get_key(BroadcastType::PointToPoint("alice", "bob"));
    let ba = BroadcastType::get_key(BroadcastType::PointToPoint("bob", "alice"));
    assert_eq!(ab, ba);
    assert_eq!(ab, "point-to-point-alice-bob");
}

#[test]
fn key_group_exact() {
    let g = BroadcastType::get_key(BroadcastType::PointToGroup("alice"));
    assert_eq!(g, "point-to-group-alice");
}

#[test]
fn key_spaces_never_collide() {
    let p = BroadcastType::get_key(BroadcastType::PointToPoint("alice", "alice"));
    let g = BroadcastType::get_key(BroadcastType::PointToGroup("alice"));
    assert_ne!(p, g);
}

#[test]
fn key_idempotent() {
    let first = BroadcastType::get_key(BroadcastType::PointToPoint("carol", "dave"));
    let second = BroadcastType::get_key(BroadcastType::PointToPoint("carol", "dave"));
    assert_eq!(first, second);
    let g1 = BroadcastType::get_key(BroadcastType::PointToGroup("room"));
    let g2 = BroadcastType::get_key(BroadcastType::PointToGroup("room"));
    assert_eq!(g1, g2);
}

#[test]
fn key_equal_identifiers() {
    let k = BroadcastType::get_key(BroadcastType::PointToPoint("x", "x"));
    assert_eq!(k, "point-to-point-x-x");
}

#[test]
fn key_empty_identifier() {
    let k = BroadcastType::get_key(BroadcastType::PointToPoint("a", ""));
    assert_eq!(k, "point-to-point--a");
    let g = BroadcastType::get_key(BroadcastType::PointToGroup(""));
    assert_eq!(g, "point-to-group-");
}

#[test]
fn receiver_count_lifecycle() {
    let mut ws = WebSocket::new();
    let target = BroadcastType::PointToPoint("alice", "bob");
    assert_eq!(ws.receiver_count(target), None);
    assert_eq!(ws.pre_decrement_receiver_count(target), None);
    let _subscription = ws.subscribe_unwrap_or_insert(target);
    assert_eq!(ws.receiver_count(target), Some(1));
    assert_eq!(ws.pre_decrement_receiver_count(target), Some(0));
}

#[test]
fn pre_decrement_values() {
    assert_eq!(pre_decrement(0), 0);
    assert_eq!(pre_decrement(1), 0);
    assert_eq!(pre_decrement(5), 4);
}

#[test]
fn publish_without_channel_fails() {
    let ws = WebSocket::new();
    let target = BroadcastType::PointToGroup("nobody");
    let result = ws.send(target, b"hello".to_vec());
    assert!(matches!(result, Err(BroadcastSendError::NoChannel)));
}

#[test]
fn publish_without_receivers_fails() {
    let mut ws = WebSocket::new();
    let target = BroadcastType::PointToGroup("room");
    let subscription = ws.subscribe_unwrap_or_insert(target);
    drop(subscription);
    let result = ws.send(target, b"hello".to_vec());
    assert!(matches!(result, Err(BroadcastSendError::NoReceivers)));
}

#[test]
fn fanout_reaches_both_subscribers() {
    let mut ws = WebSocket::new();
    let mut sub_a = ws.point_to_point("alice", "bob");
    // The second connection names the peers in the other order and still
    // joins the same channel.
    let mut sub_b = ws.point_to_point("bob", "alice");
    assert_eq!(ws.receiver_count(BroadcastType::PointToPoint("alice", "bob")), Some(2));
    let delivered = ws.send(BroadcastType::PointToPoint("alice", "bob"), b"hi".to_vec());
    assert_eq!(delivered.ok(), Some(2));
    assert_eq!(sub_a.try_next(), Some(b"hi".to_vec()));
    assert_eq!(sub_b.try_next(), Some(b"hi".to_vec()));
    assert_eq!(sub_a.try_next(), None);
    assert_eq!(sub_b.try_next(), None);
}

#[test]
fn group_and_pairwise_channels_are_separate() {
    let mut ws = WebSocket::new();
    let mut pair_sub = ws.point_to_point("alice", "alice");
    let _group_sub = ws.point_to_group("alice");
    let delivered = ws.send(BroadcastType::PointToGroup("alice"), b"g".to_vec());
    assert_eq!(delivered.ok(), Some(1));
    assert_eq!(pair_sub.try_next(), None);
}
