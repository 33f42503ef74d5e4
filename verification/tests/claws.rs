use pincher_core::claws::{cpu_agent_capacity, cpu_dispatch_target, DispatchKind, ExecutionTarget, ShellFingerprint, CRDT_MERGE_REFUSED};

#[test]
fn crdt_merge_is_never_dispatched() {
    assert_eq!(cpu_dispatch_target(DispatchKind::CrdtMerge), Err(CRDT_MERGE_REFUSED));
    assert_eq!(cpu_dispatch_target(DispatchKind::Inference), Ok(ExecutionTarget::Cpu));
    assert_eq!(cpu_dispatch_target(DispatchKind::VectorSearch), Ok(ExecutionTarget::Cpu));
    assert_eq!(cpu_dispatch_target(DispatchKind::Embed), Ok(ExecutionTarget::Cpu));
    assert_eq!(cpu_dispatch_target(DispatchKind::Compute), Ok(ExecutionTarget::Cpu));
}

#[test]
fn agent_capacity_from_available_ram() {
    // 1.5 GB after the OS: 1536 / (300 + 50) = 4 agents.
    assert_eq!(cpu_agent_capacity(1536), 4);
    assert_eq!(cpu_agent_capacity(349), 0);
    assert_eq!(cpu_agent_capacity(350), 1);
    assert_eq!(cpu_agent_capacity(100_000), 6);
}

#[test]
fn default_fingerprint_is_empty() {
    assert!(ShellFingerprint::default().0.is_empty());
}
