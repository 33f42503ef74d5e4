use pincher_core::governance::accountability::{
    resolve_accountability, AccountabilityLedger, AccountabilityParty, LedgerEntry, MigrationPhaseAtAction,
};
use pincher_core::governance::consent::{
    ConsentDenial, ConsentGrant, ConsentProof, ConsentType, ConsentValidity, ConstraintConsentStatus, DenialReason,
    PartyId,
};
use pincher_core::governance::constitution::{ArbiterVote, ConstraintId, CourtDecision, CourtVerdict};
use pincher_core::governance::due_process::AppealRateLimiter;
use pincher_core::governance::erasure::{ErasureAction, ErasureRequest, ErasureResult, ErasureZone, GastrolithStatus};
use pincher_core::governance::jurisdiction::{check_adequacy, determine_applicable_law, JurisdictionalRegime};
use pincher_core::guard::MigrationInitiator;

fn user(id: &str) -> PartyId {
    PartyId::User { id: id.to_string() }
}

fn grant(p: PartyId) -> ConsentGrant {
    ConsentGrant {
        consenter: p,
        consent_type: ConsentType::Explicit,
        validity: ConsentValidity::SingleUse,
        conditions: vec![],
        timestamp_ms: 0,
    }
}

fn consent_proof(grants: Vec<ConsentGrant>, denials: Vec<ConsentDenial>, verdict: ConstraintConsentStatus) -> ConsentProof {
    ConsentProof {
        proposal_id: [0; 16],
        grants,
        denials,
        constraint_verdict: verdict,
        court_verdict: None,
        completed_at_ms: 0,
        merkle_root: [0; 32],
    }
}

#[test]
fn consent_types_by_stage() {
    assert!(ConsentType::Explicit.valid_for_stage(MigrationInitiator::User));
    assert!(ConsentType::Explicit.valid_for_stage(MigrationInitiator::AutoIdle));
    assert!(ConsentType::Proxied.valid_for_stage(MigrationInitiator::Agent));
    assert!(!ConsentType::Proxied.valid_for_stage(MigrationInitiator::User));
    assert!(ConsentType::OperatorOverride.valid_for_stage(MigrationInitiator::AutoIdle));
    assert!(!ConsentType::OperatorOverride.valid_for_stage(MigrationInitiator::Agent));
}

#[test]
fn consent_proof_validity() {
    assert!(consent_proof(vec![grant(user("ann"))], vec![], ConstraintConsentStatus::AllPass).is_valid());
    assert!(consent_proof(vec![grant(user("ann"))], vec![], ConstraintConsentStatus::HasWarnings).is_valid());
    assert!(!consent_proof(vec![], vec![], ConstraintConsentStatus::AllPass).is_valid());
    assert!(!consent_proof(vec![grant(user("ann"))], vec![], ConstraintConsentStatus::HasFailures).is_valid());
    let denial = ConsentDenial { denier: user("bob"), reason: DenialReason::PrivacyViolation, timestamp_ms: 1 };
    let p = consent_proof(vec![grant(user("ann"))], vec![denial], ConstraintConsentStatus::AllPass);
    assert!(!p.is_valid());
    assert!(p.party_consented(&user("ann")));
    assert!(!p.party_consented(&user("bob")));
    assert!(p.party_denied(&user("bob")));
    assert!(!p.party_denied(&PartyId::Agent { rigging_id: "bob".to_string() }));
}

#[test]
fn court_needs_two_votes_to_override() {
    assert_eq!(CourtDecision::compute_verdict([Some(ArbiterVote::For), Some(ArbiterVote::For), None]), CourtVerdict::Override);
    assert_eq!(CourtDecision::compute_verdict([Some(ArbiterVote::For), Some(ArbiterVote::Against), Some(ArbiterVote::Abstain)]), CourtVerdict::Uphold);
    assert_eq!(CourtDecision::compute_verdict([None, None, None]), CourtVerdict::Uphold);
    assert_eq!(CourtDecision::compute_verdict([Some(ArbiterVote::For), Some(ArbiterVote::For), Some(ArbiterVote::For)]), CourtVerdict::Override);
    assert!(ConstraintId::C7DifferentialVerification.is_foundational());
}

#[test]
fn appeals_are_rate_limited_per_constraint() {
    let mut l = AppealRateLimiter::new();
    for t in 0..3u64 {
        assert!(l.may_appeal_at("ann", ConstraintId::C1SubstanceAccident, t * 1_000));
        l.record_appeal_at("ann", ConstraintId::C1SubstanceAccident, t * 1_000);
    }
    assert!(!l.may_appeal_at("ann", ConstraintId::C1SubstanceAccident, 3_000));
    assert!(l.may_appeal_at("ann", ConstraintId::C2Simultaneity, 3_000));
    assert!(l.may_appeal_at("bob", ConstraintId::C1SubstanceAccident, 3_000));
    // Five minutes after the first appeal it no longer counts.
    assert!(l.may_appeal_at("ann", ConstraintId::C1SubstanceAccident, 300_000));
    assert!(AppealRateLimiter::default().may_appeal_at("x", ConstraintId::C4AnimacyOfInitiation, 0));
}

#[test]
fn erasure_by_zone() {
    assert_eq!(ErasureZone::AgentZone.erasure_action(), ErasureAction::FullErasure);
    assert_eq!(ErasureZone::InteractionZone.erasure_action(), ErasureAction::Anonymize);
    assert_eq!(ErasureZone::ShellZone.erasure_action(), ErasureAction::NoErasure);
    let request = ErasureRequest {
        requestor: user("ann"),
        target_agent: "agent".to_string(),
        target_shell: "shell".to_string(),
        zones: vec![ErasureZone::AgentZone, ErasureZone::ShellZone],
        requested_at_ms: 0,
        compliance_deadline_ms: 10,
    };
    let mut result = ErasureResult {
        request,
        agent_zone_erased: true,
        interaction_zone_anonymized: false,
        shell_zone_untouched: true,
        gastrolith_status: GastrolithStatus::Erased,
        completed_at_ms: 5,
    };
    assert!(result.is_compliant());
    result.shell_zone_untouched = false;
    assert!(!result.is_compliant());
    // Shell data must stay untouched even when the request did not name its zone.
    result.request.zones = vec![ErasureZone::AgentZone];
    assert!(!result.is_compliant());
    result.shell_zone_untouched = true;
    assert!(result.is_compliant());
    result.shell_zone_untouched = true;
    result.interaction_zone_anonymized = true;
    assert!(!result.is_compliant());
}

#[test]
fn applicable_law() {
    assert!(check_adequacy("EU", "JP"));
    assert!(!check_adequacy("EU", "US"));
    assert!(matches!(determine_applicable_law("EU", "EU", "personal", "personal", 0), JurisdictionalRegime::NoTransfer));
    match determine_applicable_law("EU", "US", "personal", "personal", 0) {
        JurisdictionalRegime::CrossBorder { source, destination, adequacy, safeguards_required } => {
            assert_eq!((source.as_str(), destination.as_str()), ("EU", "US"));
            assert!(!adequacy);
            assert!(safeguards_required);
        },
        other => panic!("unexpected {other:?}"),
    }
    match determine_applicable_law("EU", "EU", "personal", "work", 12) {
        JurisdictionalRegime::TrustBoundaryCrossing { privacy_impact_bits, .. } => assert_eq!(privacy_impact_bits, 12),
        other => panic!("unexpected {other:?}"),
    }
    match determine_applicable_law("EU", "CA", "personal", "work", 3) {
        JurisdictionalRegime::FullTransfer { cross_border, trust_crossing, consent_required } => {
            assert!(cross_border.adequacy);
            assert!(!cross_border.sccs_required);
            assert!(cross_border.transfer_impact_assessment);
            assert_eq!(trust_crossing.impact_bits, 3);
            assert_eq!(consent_required, ConsentType::Explicit);
        },
        other => panic!("unexpected {other:?}"),
    }
}

fn entry(action: &str, reflex: Option<&str>, authorized: bool, phase: Option<MigrationPhaseAtAction>) -> LedgerEntry {
    LedgerEntry {
        action: action.to_string(),
        reflex_id: reflex.map(|r| r.to_string()),
        confidence_bits: 0.8f64.to_bits(),
        user_authorized: authorized,
        timestamp_ms: 0,
        shell: "s".to_string(),
        jurisdiction: "EU".to_string(),
        consent_proof: None,
        migration_phase: phase,
    }
}

#[test]
fn ledger_queries_and_summary() {
    let mut l = AccountabilityLedger::new();
    l.append(entry("ls", Some("r1"), true, Some(MigrationPhaseAtAction::Stable)));
    l.append(entry("cat", Some("r2"), false, Some(MigrationPhaseAtAction::Crossfading)));
    l.append(entry("ls -l", Some("r1"), true, None));
    let r1: Vec<&str> = l.entries_for_reflex("r1").iter().map(|e| e.action.as_str()).collect();
    assert_eq!(r1, vec!["ls", "ls -l"]);
    assert_eq!(l.entries_during_phase(MigrationPhaseAtAction::Crossfading).len(), 1);
    assert_eq!(l.entries_during_phase(MigrationPhaseAtAction::Finalized).len(), 0);
    let s = l.summary();
    assert_eq!(s.total_entries, 3);
    assert_eq!(s.user_authorized_entries, 2);
    assert_eq!(s.inherited_reflex_entries, 0);
    // SHA-256 over each entry's action, a 0xFF separator and its confidence bits.
    let mut bytes: Vec<u8> = Vec::new();
    for e in &l.entries {
        bytes.extend_from_slice(e.action.as_bytes());
        bytes.push(0xFF);
        bytes.extend_from_slice(&e.confidence_bits.to_le_bytes());
    }
    let expected: [u8; 32] = <sha2::Sha256 as sha2::Digest>::digest(&bytes).into();
    assert_eq!(s.ledger_hash, expected);
    // The digest depends on the actions recorded.
    let mut other = AccountabilityLedger::default();
    other.append(entry("rm", Some("r1"), true, None));
    assert_ne!(other.summary().ledger_hash, s.ledger_hash);
}

#[test]
fn accountability_follows_adaptation() {
    assert_eq!(resolve_accountability(0.9f64.to_bits(), true, false, false), AccountabilityParty::BothAgents);
    assert_eq!(resolve_accountability(0.3f64.to_bits(), false, true, true), AccountabilityParty::MigratedAgent);
    assert_eq!(resolve_accountability(0.7f64.to_bits(), false, true, true), AccountabilityParty::User);
    assert_eq!(resolve_accountability(0.7f64.to_bits(), false, true, false), AccountabilityParty::NewAgent);
    assert_eq!(resolve_accountability(0.5f64.to_bits(), false, false, false), AccountabilityParty::NewAgent);
}

#[test]
fn clock_driven_appeals() {
    let mut l = AppealRateLimiter::new();
    assert!(l.may_appeal("ann", ConstraintId::C6ConsentRequirement));
    l.record_appeal("ann", ConstraintId::C6ConsentRequirement);
    l.record_appeal("ann", ConstraintId::C6ConsentRequirement);
    assert!(l.may_appeal("ann", ConstraintId::C6ConsentRequirement));
    l.record_appeal("ann", ConstraintId::C6ConsentRequirement);
    assert!(!l.may_appeal("ann", ConstraintId::C6ConsentRequirement));
}

#[test]
fn recording_an_appeal_touches_only_its_own_pair() {
    let mut l = AppealRateLimiter::new();
    l.record_appeal_at("ann", ConstraintId::C2Simultaneity, 10_000);
    l.record_appeal_at("ann", ConstraintId::C2Simultaneity, 10_000);
    let bob_before = l.may_appeal_at("bob", ConstraintId::C2Simultaneity, 10_000);
    let other_before = l.may_appeal_at("ann", ConstraintId::C3ShapeAsymmetry, 10_000);
    assert!(l.may_appeal_at("ann", ConstraintId::C2Simultaneity, 10_000));
    l.record_appeal_at("ann", ConstraintId::C2Simultaneity, 10_000);
    // The third appeal of the pair fills its window; no other pair moves.
    assert!(!l.may_appeal_at("ann", ConstraintId::C2Simultaneity, 10_000));
    assert_eq!(l.may_appeal_at("bob", ConstraintId::C2Simultaneity, 10_000), bob_before);
    assert_eq!(l.may_appeal_at("ann", ConstraintId::C3ShapeAsymmetry, 10_000), other_before);
}
