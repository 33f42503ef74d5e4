use pincher_core::gastrolith::{
    sort_by_reason, DecisionTrace, DevelopmentalStage, FullFidelityReflex, GastrolithBuilder, GastrolithError,
    GastrolithReason, Outcome, SubstanceFields, ThermalStatus,
};

fn reflex(id: &str, reason: GastrolithReason) -> FullFidelityReflex {
    FullFidelityReflex {
        reflex_id: id.to_string(),
        trigger_pattern: "t".to_string(),
        action_template: "a".to_string(),
        trust_bits: 0.9f64.to_bits(),
        practice_count: 3,
        reason,
    }
}

fn substance(id: &str) -> SubstanceFields {
    SubstanceFields {
        rigging_id: id.to_string(),
        personality: "calm".to_string(),
        total_sessions: 4,
        total_reflexes: 5,
        developmental_stage: DevelopmentalStage::Juvenile,
    }
}

#[test]
fn build_requires_substance() {
    let r = GastrolithBuilder::new("fp".to_string()).build(10);
    assert!(matches!(r, Err(GastrolithError::MissingSubstance)));
}

#[test]
fn build_orders_reflexes_by_priority_stably() {
    let g = GastrolithBuilder::new("fp".to_string())
        .substance(substance("rig"))
        .add_core_reflex(reflex("u1", GastrolithReason::Unconsolidated { learned_at: 1 }))
        .add_core_reflex(reflex("t1", GastrolithReason::TopUsed { rank: 1 }))
        .add_core_reflex(reflex("i1", GastrolithReason::Identity))
        .add_core_reflex(reflex("c1", GastrolithReason::UserCritical))
        .add_core_reflex(reflex("i2", GastrolithReason::Identity))
        .add_decision_trace(DecisionTrace {
            input_summary: "in".to_string(),
            decision_summary: "out".to_string(),
            outcome: Outcome::Success,
            timestamp: 3,
        })
        .build(42)
        .unwrap();
    let ids: Vec<&str> = g.core_reflexes.iter().map(|r| r.reflex_id.as_str()).collect();
    assert_eq!(ids, vec!["i1", "i2", "c1", "t1", "u1"]);
    assert_eq!(g.created_at, 42);
    assert_eq!(g.source_shell_fingerprint, "fp");
    assert_eq!(g.decision_traces.len(), 1);
    // Without a snapshot the builder uses an empty one taken now.
    assert_eq!(g.interoceptive_snapshot.last_rehydration_at, 42);
    assert_eq!(g.interoceptive_snapshot.thermal_state, ThermalStatus::Nominal);
    assert!(g.interoceptive_snapshot.ram_usage_samples_bits.is_empty());
    assert!(g.is_migration_ready());
}

#[test]
fn migration_readiness_needs_identity_and_five_reflexes() {
    let mut b = GastrolithBuilder::new("fp".to_string()).substance(substance("rig"));
    for i in 0..4 {
        b = b.add_core_reflex(reflex(&format!("r{i}"), GastrolithReason::Identity));
    }
    assert!(!b.build(0).unwrap().is_migration_ready());
    let mut b = GastrolithBuilder::new("fp".to_string()).substance(substance(""));
    for i in 0..5 {
        b = b.add_core_reflex(reflex(&format!("r{i}"), GastrolithReason::Identity));
    }
    assert!(!b.build(0).unwrap().is_migration_ready());
}

#[test]
fn sort_keeps_every_reflex() {
    let v = vec![
        reflex("a", GastrolithReason::TopUsed { rank: 2 }),
        reflex("b", GastrolithReason::TopUsed { rank: 1 }),
        reflex("c", GastrolithReason::UserCritical),
    ];
    let s = sort_by_reason(v);
    let ids: Vec<&str> = s.iter().map(|r| r.reflex_id.as_str()).collect();
    assert_eq!(ids, vec!["c", "a", "b"]);
}
