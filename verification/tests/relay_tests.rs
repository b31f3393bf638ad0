use scene_bridge::messages::EngineMessage;
use scene_bridge::relay::{EventQueue, RelayHub};

fn drain(hub: &mut RelayHub, id: usize) -> Vec<String> {
    let mut got = Vec::new();
    while let Some(f) = hub.poll(id) {
        got.push(f);
    }
    got
}

#[test]
fn two_subscribers_see_the_same_sequence() {
    let mut hub = RelayHub::new(100);
    let id1 = hub.subscribe();
    let id2 = hub.subscribe();
    hub.broadcast("c1".to_string());
    hub.broadcast("c2".to_string());
    hub.broadcast("c3".to_string());
    let got1 = drain(&mut hub, id1);
    let got2 = drain(&mut hub, id2);
    assert_eq!(got1, vec!["c1", "c2", "c3"]);
    assert_eq!(got2, vec!["c1", "c2", "c3"]);
}

#[test]
fn no_replay_before_subscription() {
    let mut hub = RelayHub::new(100);
    hub.broadcast("before".to_string());
    let id = hub.subscribe();
    assert_eq!(hub.poll(id), None);
    hub.broadcast("after".to_string());
    assert_eq!(drain(&mut hub, id), vec!["after"]);
}

#[test]
fn broadcast_with_zero_subscribers_has_no_effect() {
    let mut hub = RelayHub::new(100);
    hub.broadcast("into the void".to_string());
    hub.broadcast("again".to_string());
    // A subscriber arriving afterwards observes nothing of it.
    let id = hub.subscribe();
    assert_eq!(hub.poll(id), None);
}

#[test]
fn lagging_subscriber_loses_the_oldest_frames() {
    let mut hub = RelayHub::new(2);
    let id = hub.subscribe();
    hub.broadcast("a".to_string());
    hub.broadcast("b".to_string());
    hub.broadcast("c".to_string());
    // Capacity is two, so the unread "a" was dropped; reading continues.
    assert_eq!(drain(&mut hub, id), vec!["b", "c"]);
    hub.broadcast("d".to_string());
    assert_eq!(drain(&mut hub, id), vec!["d"]);
}

#[test]
fn a_slow_subscriber_does_not_block_a_fast_one() {
    let mut hub = RelayHub::new(2);
    let slow = hub.subscribe();
    let fast = hub.subscribe();
    hub.broadcast("1".to_string());
    assert_eq!(hub.poll(fast), Some("1".to_string()));
    hub.broadcast("2".to_string());
    hub.broadcast("3".to_string());
    assert_eq!(hub.poll(fast), Some("2".to_string()));
    assert_eq!(hub.poll(fast), Some("3".to_string()));
    // The slow subscriber lost "1" but still gets the retained tail.
    assert_eq!(drain(&mut hub, slow), vec!["2", "3"]);
}

#[test]
fn queue_preserves_arrival_order() {
    let mut q = EventQueue::new();
    q.push_event(EngineMessage::EntityCreated { entity_id: 1, name: "a".to_string() });
    q.push_event(EngineMessage::EntityDeleted { entity_id: 2 });
    q.push_event(EngineMessage::Connected);
    assert_eq!(
        q.try_recv(),
        Some(EngineMessage::EntityCreated { entity_id: 1, name: "a".to_string() })
    );
    assert_eq!(q.try_recv(), Some(EngineMessage::EntityDeleted { entity_id: 2 }));
    assert_eq!(q.try_recv(), Some(EngineMessage::Connected));
    assert_eq!(q.try_recv(), None);
}

#[test]
fn malformed_frames_are_dropped_quietly() {
    let mut q = EventQueue::new();
    q.push_decoded(None);
    assert_eq!(q.try_recv(), None);
    q.push_decoded(Some(EngineMessage::Connected));
    q.push_decoded(None);
    q.push_decoded(Some(EngineMessage::EntityDeleted { entity_id: 9 }));
    assert_eq!(q.try_recv(), Some(EngineMessage::Connected));
    assert_eq!(q.try_recv(), Some(EngineMessage::EntityDeleted { entity_id: 9 }));
    assert_eq!(q.try_recv(), None);
}

#[test]
fn handshake_synthesizes_a_connected_event() {
    let mut q = EventQueue::new();
    q.push_connected();
    assert_eq!(q.try_recv(), Some(EngineMessage::Connected));
}
