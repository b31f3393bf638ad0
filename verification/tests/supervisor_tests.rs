use scene_bridge::supervisor::EngineSupervisor;

#[test]
fn stop_hands_the_process_to_the_first_caller_only() {
    let mut sup = EngineSupervisor::new();
    sup.record_spawn(Some(4711));
    assert_eq!(sup.take_for_stop(), Some(4711));
    // Stop is idempotent: the second call is a no-op.
    assert_eq!(sup.take_for_stop(), None);
    assert_eq!(sup.take_for_stop(), None);
}

#[test]
fn failed_spawn_leaves_the_handle_empty() {
    let mut sup = EngineSupervisor::new();
    sup.record_spawn(None);
    assert_eq!(sup.take_for_stop(), None);
}

#[test]
fn stop_before_any_start_is_a_no_op() {
    let mut sup = EngineSupervisor::new();
    assert_eq!(sup.take_for_stop(), None);
}
