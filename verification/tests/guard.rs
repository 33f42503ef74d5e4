use pincher_core::guard::{
    AccidentField, ConsentPolicy, ConsentRecord, ConsentState, DifferentialVerification, MigrationError,
    MigrationFailureReason, MigrationGuard, MigrationInitiator, MigrationPhase, NailFile, PairChannelState, ShapeVerb,
    ShellPair, SubstanceAccidentPartition, SubstanceField, C2_SIMULTANEITY, C4_ANIMACY, C5_PAIR, C6_CONSENT,
    C7_VERIFICATION, COMPLETE_NEEDS_FINALIZE, CROSSFADE_NEEDS_PREPARE, PREPARE_NEEDS_STABLE, PREPARE_TIMEOUT_MSG, ROLLBACK_RETENTION_MS,
};

fn partition(ratio: f64) -> SubstanceAccidentPartition {
    SubstanceAccidentPartition {
        substance: vec![SubstanceField::RiggingId, SubstanceField::Personality],
        accidents: vec![AccidentField::Embeddings],
        substance_ratio_bits: ratio.to_bits(),
    }
}

fn consent(state: ConsentState) -> ConsentRecord {
    ConsentRecord {
        consent_type: state,
        consented_at_ms: 0,
        consented_by: "user".to_string(),
        policy: ConsentPolicy::Explicit,
    }
}

fn pair(state: PairChannelState) -> ShellPair {
    ShellPair {
        old_shell_fingerprint: "old".to_string(),
        new_shell_fingerprint: "new".to_string(),
        channel_state: state,
    }
}

fn verification(rollback: bool) -> DifferentialVerification {
    DifferentialVerification { total_tested: 10, passed: 10, failed: vec![], identity_failures: vec![], rollback_recommended: rollback }
}

fn prepared(now: u64) -> MigrationGuard {
    let mut g = MigrationGuard::new();
    g.begin_prepare_at(NailFile, partition(0.65), ShapeVerb::Stretch, MigrationInitiator::User, consent(ConsentState::ExplicitUser), now)
        .unwrap();
    g
}

#[test]
fn full_migration_walks_every_phase() {
    let mut g = prepared(1_000);
    assert!(!g.can_learn());
    assert!(matches!(g.phase(), MigrationPhase::Preparing { started_at_ms: 1_000, .. }));
    g.begin_crossfade_at(pair(PairChannelState::Connected), 500, 2_000).unwrap();
    g.confirm_simultaneity().unwrap();
    g.begin_finalize_at(2_900).unwrap();
    assert!(matches!(g.phase(), MigrationPhase::Finalizing { started_at_ms: 2_900, .. }));
    g.complete_at(verification(false), 3_000).unwrap();
    match g.phase() {
        MigrationPhase::Finalized { migrated_to, rollback_deadline_ms } => {
            assert!(migrated_to.is_empty());
            assert_eq!(*rollback_deadline_ms, 3_000 + ROLLBACK_RETENTION_MS);
        },
        p => panic!("unexpected phase {p:?}"),
    }
}

#[test]
fn shells_cannot_initiate() {
    let mut g = MigrationGuard::new();
    let r = g.begin_prepare_at(NailFile, partition(0.9), ShapeVerb::Spread, MigrationInitiator::Agent, consent(ConsentState::ShellInitiated), 0);
    assert!(matches!(r, Err(MigrationError::ConstraintViolation(m)) if m == C4_ANIMACY));
    assert!(matches!(g.phase(), MigrationPhase::Stable));
    assert!(g.can_learn());
    assert!(g.can_update_trust());
}

#[test]
fn denied_consent_blocks_prepare() {
    let mut g = MigrationGuard::new();
    let r = g.begin_prepare_at(NailFile, partition(0.9), ShapeVerb::Settle, MigrationInitiator::User, consent(ConsentState::Denied), 0);
    assert!(matches!(r, Err(MigrationError::ConstraintViolation(m)) if m == C6_CONSENT));
    assert!(matches!(g.phase(), MigrationPhase::Stable));
}

#[test]
fn low_substance_ratio_is_identity_loss() {
    let mut g = MigrationGuard::new();
    let r = g.begin_prepare_at(NailFile, partition(0.4), ShapeVerb::Stretch, MigrationInitiator::User, consent(ConsentState::ExplicitUser), 0);
    assert!(matches!(r, Err(MigrationError::IdentityLoss { substance_ratio_bits }) if substance_ratio_bits == 0.4f64.to_bits()));
    // Exactly one half is enough.
    let mut g = MigrationGuard::new();
    assert!(g.begin_prepare_at(NailFile, partition(0.5), ShapeVerb::Stretch, MigrationInitiator::User, consent(ConsentState::ExplicitUser), 0).is_ok());
}

#[test]
fn crossfade_needs_prepare_and_a_working_pair() {
    let mut g = MigrationGuard::new();
    let r = g.begin_crossfade_at(pair(PairChannelState::Connected), 100, 0);
    assert!(matches!(r, Err(MigrationError::InvalidTransition(m)) if m == CROSSFADE_NEEDS_PREPARE));
    let mut g = prepared(0);
    let r = g.begin_crossfade_at(pair(PairChannelState::Broken), 100, 10);
    assert!(matches!(r, Err(MigrationError::ConstraintViolation(m)) if m == C5_PAIR));
    assert!(matches!(g.phase(), MigrationPhase::Preparing { .. }));
}

#[test]
fn prepare_timeout_fails_the_migration() {
    let mut g = prepared(0);
    let r = g.begin_crossfade_at(pair(PairChannelState::Connected), 100, 30_001);
    assert!(matches!(r, Err(MigrationError::Timeout(m)) if m == PREPARE_TIMEOUT_MSG));
    assert!(matches!(g.phase(), MigrationPhase::Failed { reason: MigrationFailureReason::PrepareTimeout, rolled_back_at_ms: 30_001 }));
}

#[test]
fn finalize_needs_simultaneity() {
    let mut g = prepared(0);
    g.begin_crossfade_at(pair(PairChannelState::Degraded), 100, 0).unwrap();
    let r = g.begin_finalize_at(50);
    assert!(matches!(r, Err(MigrationError::ConstraintViolation(m)) if m == C2_SIMULTANEITY));
    g.confirm_simultaneity().unwrap();
    // More than twice the crossfade duration: timed out.
    assert!(g.begin_finalize_at(201).is_err());
    assert!(matches!(g.phase(), MigrationPhase::Failed { reason: MigrationFailureReason::CrossfadeTimeout, .. }));
}

fn finalizing(now: u64) -> MigrationGuard {
    let mut g = prepared(now);
    g.begin_crossfade_at(pair(PairChannelState::Connected), 100, now).unwrap();
    g.confirm_simultaneity().unwrap();
    g.begin_finalize_at(now).unwrap();
    g
}

#[test]
fn failed_verification_rolls_back() {
    let mut g = finalizing(0);
    let r = g.complete_at(verification(true), 9);
    assert!(matches!(r, Err(MigrationError::ConstraintViolation(m)) if m == C7_VERIFICATION));
    assert!(matches!(
        g.phase(),
        MigrationPhase::Failed { reason: MigrationFailureReason::VerificationFailed { identity_failures: 0, total_identity: 10 }, rolled_back_at_ms: 9 }
    ));
}

#[test]
fn rollback_records_the_reason() {
    let mut g = prepared(0);
    g.rollback_at(MigrationFailureReason::ChannelBroken, 77);
    assert!(matches!(g.phase(), MigrationPhase::Failed { reason: MigrationFailureReason::ChannelBroken, rolled_back_at_ms: 77 }));
}

#[test]
fn default_guard_is_stable() {
    let g = MigrationGuard::default();
    assert!(matches!(g.phase(), MigrationPhase::Stable));
}

#[test]
fn clock_driven_migration() {
    let mut g = MigrationGuard::new();
    g.begin_prepare(NailFile, partition(0.8), ShapeVerb::Spread, MigrationInitiator::Agent, consent(ConsentState::AgentInitiated))
        .unwrap();
    g.begin_crossfade(pair(PairChannelState::Connected), 60_000).unwrap();
    g.confirm_simultaneity().unwrap();
    g.begin_finalize().unwrap();
    g.complete(verification(false)).unwrap();
    assert!(matches!(g.phase(), MigrationPhase::Finalized { .. }));
    g.rollback(MigrationFailureReason::ConsentRevoked);
    assert!(matches!(g.phase(), MigrationPhase::Failed { reason: MigrationFailureReason::ConsentRevoked, .. }));
}

#[test]
fn prepare_only_from_stable() {
    let mut g = prepared(0);
    g.begin_crossfade_at(pair(PairChannelState::Connected), 100, 5).unwrap();
    let r = g.begin_prepare_at(NailFile, partition(0.9), ShapeVerb::Stretch, MigrationInitiator::User, consent(ConsentState::ExplicitUser), 6);
    assert!(matches!(r, Err(MigrationError::InvalidTransition(m)) if m == PREPARE_NEEDS_STABLE));
    assert!(matches!(g.phase(), MigrationPhase::Crossfading { started_at_ms: 5, .. }));
    let mut p = prepared(0);
    assert!(p.begin_prepare_at(NailFile, partition(0.9), ShapeVerb::Stretch, MigrationInitiator::User, consent(ConsentState::ExplicitUser), 1).is_err());
    assert!(matches!(p.phase(), MigrationPhase::Preparing { started_at_ms: 0, .. }));
}

#[test]
fn complete_only_from_finalizing() {
    let mut g = MigrationGuard::new();
    let r = g.complete_at(verification(false), 3);
    assert!(matches!(r, Err(MigrationError::InvalidTransition(m)) if m == COMPLETE_NEEDS_FINALIZE));
    assert!(matches!(g.phase(), MigrationPhase::Stable));
    let mut p = prepared(0);
    assert!(p.complete_at(verification(true), 3).is_err());
    assert!(matches!(p.phase(), MigrationPhase::Preparing { .. }));
}

#[test]
fn constraints_are_checked_before_the_phase() {
    // A guard already preparing still reports the constraint a request breaks.
    let mut g = prepared(0);
    let r = g.begin_prepare_at(NailFile, partition(0.9), ShapeVerb::Stretch, MigrationInitiator::User, consent(ConsentState::ShellInitiated), 1);
    assert!(matches!(r, Err(MigrationError::ConstraintViolation(m)) if m == C4_ANIMACY));
    let r = g.begin_prepare_at(NailFile, partition(0.9), ShapeVerb::Stretch, MigrationInitiator::User, consent(ConsentState::Denied), 1);
    assert!(matches!(r, Err(MigrationError::ConstraintViolation(m)) if m == C6_CONSENT));
    let r = g.begin_prepare_at(NailFile, partition(0.2), ShapeVerb::Stretch, MigrationInitiator::User, consent(ConsentState::ExplicitUser), 1);
    assert!(matches!(r, Err(MigrationError::IdentityLoss { .. })));
    assert!(matches!(g.phase(), MigrationPhase::Preparing { started_at_ms: 0, .. }));
}
