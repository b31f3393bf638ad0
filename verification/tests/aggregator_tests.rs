use scene_bridge::aggregator::{frame_stats, SharedAppState};
use scene_bridge::messages::EngineMessage;

#[test]
fn connected_event_sets_the_sticky_flag() {
    let mut state = SharedAppState::new();
    assert!(!state.connected);
    // Another connection is open but never emits anything; only this one
    // event arrives, and it is enough.
    state.apply_event(&EngineMessage::Connected);
    assert!(state.connected);
    state.apply_event(&EngineMessage::EntityCreated { entity_id: 1, name: "x".to_string() });
    state.apply_event(&EngineMessage::FrameStats { fps: 60, entity_count: 2 });
    assert!(state.connected);
    assert!(!state.playing);
}

#[test]
fn scene_state_replaces_entities_wholesale() {
    let mut state = SharedAppState::new();
    state.apply_event(&EngineMessage::SceneState {
        scene_json: "{\"entities\":[{\"id\":1}]}".to_string(),
    });
    assert_eq!(state.entities, vec!["{\"id\":1}".to_string()]);
    state.apply_event(&EngineMessage::SceneState {
        scene_json: "{\"entities\":[{\"id\":2},{\"id\":3}]}".to_string(),
    });
    // Exactly the second snapshot: replaced, never merged or appended.
    assert_eq!(
        state.entities,
        vec!["{\"id\":2}".to_string(), "{\"id\":3}".to_string()]
    );
}

#[test]
fn snapshot_without_entities_leaves_the_cache_alone() {
    let mut state = SharedAppState::new();
    state.apply_event(&EngineMessage::SceneState {
        scene_json: "{\"entities\":[7]}".to_string(),
    });
    assert_eq!(state.entities, vec!["7".to_string()]);
    state.apply_event(&EngineMessage::SceneState {
        scene_json: "{\"camera\":{}}".to_string(),
    });
    assert_eq!(state.entities, vec!["7".to_string()]);
}

#[test]
fn malformed_snapshot_changes_nothing() {
    let mut state = SharedAppState::new();
    state.apply_event(&EngineMessage::SceneState {
        scene_json: "{not json".to_string(),
    });
    assert!(state.entities.is_empty());
    assert!(!state.connected);
}

#[test]
fn other_events_do_not_touch_the_cache() {
    let mut state = SharedAppState::new();
    state.apply_event(&EngineMessage::SceneState {
        scene_json: "{\"entities\":[1,2]}".to_string(),
    });
    state.apply_event(&EngineMessage::EntityDeleted { entity_id: 1 });
    state.apply_event(&EngineMessage::Error { message: "boom".to_string() });
    state.apply_event(&EngineMessage::EntitySelected { entity_id: None });
    assert_eq!(state.entities, vec!["1".to_string(), "2".to_string()]);
}

#[test]
fn frame_stats_are_surfaced_and_nothing_else_is() {
    let stats = frame_stats(&EngineMessage::FrameStats { fps: 59, entity_count: 12 });
    assert_eq!(stats, Some((59, 12)));
    assert_eq!(frame_stats(&EngineMessage::Connected), None);
    assert_eq!(
        frame_stats(&EngineMessage::Error { message: "e".to_string() }),
        None
    );
}
