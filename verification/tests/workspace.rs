use pincher_core::workspace::{GlobalWorkspace, Priority, WaitingAgent};

fn agent(id: &str, priority: Priority, can_degrade: bool) -> WaitingAgent {
    WaitingAgent { agent_id: id.to_string(), enqueued_at_ms: 0, priority, can_degrade_to_procedural: can_degrade }
}

#[test]
fn test_workspace_admission() {
    let mut workspace = GlobalWorkspace::new(2);
    let result = workspace.admit_agent(agent("agent-1", Priority::Normal, false));
    assert!(result.is_some());
    assert_eq!(workspace.active_count(), 1);
}

#[test]
fn test_workspace_capacity() {
    let mut workspace = GlobalWorkspace::new(2);
    for i in 0..3 {
        workspace.admit_agent(agent(&format!("agent-{i}"), Priority::Normal, false));
    }
    assert_eq!(workspace.active_count(), 2);
    assert_eq!(workspace.waiting_count(), 1);
}

#[test]
fn test_procedural_degradation() {
    let mut workspace = GlobalWorkspace::new(1);
    workspace.admit_agent(agent("agent-1", Priority::Normal, false));
    let result = workspace.admit_agent(agent("agent-2", Priority::Normal, true));
    assert!(result.is_none());
    assert_eq!(workspace.stats().total_degradations, 1);
    assert_eq!(workspace.waiting_count(), 0);
}

#[test]
fn test_release_admits_next() {
    let mut workspace = GlobalWorkspace::new(1);
    workspace.admit_agent(agent("agent-1", Priority::Normal, false));
    workspace.admit_agent(agent("agent-2", Priority::High, false));
    assert_eq!(workspace.active_count(), 1);
    assert_eq!(workspace.waiting_count(), 1);
    workspace.release("agent-1");
    assert_eq!(workspace.active_count(), 1);
    assert_eq!(workspace.waiting_count(), 0);
}

#[test]
fn active_count_over_capacity_is_the_load() {
    let mut workspace = GlobalWorkspace::new(4);
    assert_eq!(workspace.active_count(), 0);
    workspace.admit_at(agent("agent-1", Priority::Normal, false), 10);
    let load = workspace.active_count() as f64 / workspace.capacity() as f64;
    assert!((load - 0.25).abs() < 0.01);
}

#[test]
fn release_admits_the_highest_priority_waiter() {
    let mut w = GlobalWorkspace::new(1);
    w.admit_at(agent("a", Priority::Normal, false), 0);
    w.admit_at(agent("low", Priority::Low, false), 1);
    w.admit_at(agent("crit", Priority::Critical, false), 2);
    w.admit_at(agent("high", Priority::High, false), 3);
    assert_eq!(w.waiting_count(), 3);
    let slot = w.release_at("a", 500).expect("a was active");
    assert_eq!(slot.agent_id, "crit");
    assert_eq!(slot.priority, Priority::Critical);
    assert_eq!(slot.entered_at_ms, 500);
    assert_eq!(w.waiting_count(), 2);
}

#[test]
fn equal_priorities_admit_the_latest_enqueued() {
    // Among waiters of equal priority the last one queued is taken.
    let mut w = GlobalWorkspace::new(1);
    w.admit_at(agent("a", Priority::Normal, false), 0);
    w.admit_at(agent("first", Priority::High, false), 1);
    w.admit_at(agent("second", Priority::High, false), 2);
    let slot = w.release_at("a", 10).unwrap();
    assert_eq!(slot.agent_id, "second");
}

#[test]
fn releasing_an_unknown_agent_changes_nothing() {
    let mut w = GlobalWorkspace::new(1);
    w.admit_at(agent("a", Priority::Normal, false), 0);
    w.admit_at(agent("b", Priority::Normal, false), 0);
    assert!(w.release_at("nobody", 5).is_none());
    assert_eq!(w.active_count(), 1);
    assert_eq!(w.waiting_count(), 1);
}

#[test]
fn admission_statistics() {
    let mut w = GlobalWorkspace::new(1);
    assert!(!w.is_full());
    w.admit_at(agent("a", Priority::Normal, false), 0);
    assert!(w.is_full());
    w.admit_at(agent("b", Priority::Normal, false), 0);
    let s = *w.stats();
    assert_eq!(s.total_admissions, 1);
    assert_eq!(s.total_rejections, 1);
    assert_eq!(s.peak_active_contexts, 1);
}

#[test]
fn long_waits_count_as_attentional_blinks() {
    let mut w = GlobalWorkspace::new(1);
    w.admit_at(agent("a", Priority::Normal, false), 0);
    let mut late = agent("late", Priority::Normal, false);
    late.enqueued_at_ms = 100;
    w.admit_at(late, 100);
    let mut fresh = agent("fresh", Priority::Normal, false);
    fresh.enqueued_at_ms = 1_000;
    w.admit_at(fresh, 1_000);
    // At 1.2 s the first waiter has waited 1.1 s, the second 0.2 s.
    assert_eq!(w.check_attentional_blinks_at(1_200), 1);
    assert_eq!(w.stats().attentional_blinks, 1);
}

#[test]
fn clock_driven_blinks() {
    let mut w = GlobalWorkspace::new(1);
    w.admit_agent(agent("a", Priority::Normal, false));
    // Enqueued at the epoch: by the wall clock it has waited far longer than a second.
    w.admit_agent(agent("old", Priority::Normal, false));
    assert_eq!(w.check_attentional_blinks(), 1);
    assert_eq!(w.stats().attentional_blinks, 1);
}
