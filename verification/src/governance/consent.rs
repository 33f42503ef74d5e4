//! Article III: Consent as a Cryptographic Protocol

use vstd::prelude::*;
use vstd::std_specs::cmp::PartialEqSpecImpl;
use crate::guard::MigrationInitiator;
use crate::governance::constitution::CourtDecision;

verus! {

/// The parties in the consent protocol.
#[derive(Debug, Clone, Copy, PartialEq, Eq, Structural, Hash)]
pub enum PartyKind {
    User,
    Agent,
    OldShell,
    NewShell,
    Symbiont,
}

/// Identifier for a party in the consent protocol.
#[derive(Debug, Clone, Hash)]
pub enum PartyId {
    User { id: String },
    Agent { rigging_id: String },
    Shell { fingerprint: String },
    Symbiont { name: String },
}

/// Two party identifiers are equal when they are the same kind of party
/// with the same name.
pub open spec fn party_eq(a: &PartyId, b: &PartyId) -> bool {
    match (a, b) {
        (PartyId::User { id: x }, PartyId::User { id: y }) => x@ == y@,
        (PartyId::Agent { rigging_id: x }, PartyId::Agent { rigging_id: y }) => x@ == y@,
        (PartyId::Shell { fingerprint: x }, PartyId::Shell { fingerprint: y }) => x@ == y@,
        (PartyId::Symbiont { name: x }, PartyId::Symbiont { name: y }) => x@ == y@,
        _ => false,
    }
}

impl PartialEq for PartyId {
    fn eq(&self, other: &PartyId) -> (r: bool) {
        match (self, other) {
            (PartyId::User { id: x }, PartyId::User { id: y }) => x.eq(y),
            (PartyId::Agent { rigging_id: x }, PartyId::Agent { rigging_id: y }) => x.eq(y),
            (PartyId::Shell { fingerprint: x }, PartyId::Shell { fingerprint: y }) => x.eq(y),
            (PartyId::Symbiont { name: x }, PartyId::Symbiont { name: y }) => x.eq(y),
            _ => false,
        }
    }
}

impl PartialEqSpecImpl for PartyId {
    open spec fn obeys_eq_spec() -> bool {
        true
    }

    open spec fn eq_spec(&self, other: &PartyId) -> bool {
        party_eq(self, other)
    }
}

/// The type of consent granted.
#[derive(Debug, Clone, Copy, PartialEq, Eq, Structural)]
pub enum ConsentType {
    /// Direct, informed, unambiguous (GDPR Art. 4(11))
    Explicit,
    /// JEPA predicts User preference (Megalopa agents only)
    Proxied,
    /// Agent proposes, User confirms (Juvenile agents only)
    Assisted,
    /// Agent decides, User informed (Adult agents only)
    Autonomous,
    /// Fleet operator forces migration (logged, auditable)
    OperatorOverride,
}

impl ConsentType {
    /// Which initiators may use this consent type: explicit consent serves
    /// every initiator, proxied, assisted and autonomous consent serve
    /// agents, and operator override serves idle auto-migration.
    pub open spec fn spec_valid_for_stage(&self, stage: MigrationInitiator) -> bool {
        match self {
            ConsentType::Explicit => true,
            ConsentType::Proxied => stage == MigrationInitiator::Agent,
            ConsentType::Assisted => stage == MigrationInitiator::Agent,
            ConsentType::Autonomous => stage == MigrationInitiator::Agent,
            ConsentType::OperatorOverride => stage == MigrationInitiator::AutoIdle,
        }
    }

    /// Which developmental stages may use this consent type.
    pub fn valid_for_stage(&self, stage: MigrationInitiator) -> (b: bool)
        ensures
            b == self.spec_valid_for_stage(stage),
    {
        match self {
            ConsentType::Explicit => true,
            ConsentType::Proxied => stage == MigrationInitiator::Agent,
            ConsentType::Assisted => stage == MigrationInitiator::Agent,
            ConsentType::Autonomous => stage == MigrationInitiator::Agent,
            ConsentType::OperatorOverride => stage == MigrationInitiator::AutoIdle,
        }
    }
}

/// How long the consent remains valid.
#[derive(Debug, Clone)]
pub enum ConsentValidity {
    /// Valid for one migration only
    SingleUse,
    /// Valid until expiry time
    TimeBounded { expiry_secs: u64 },
    /// Valid while predicate holds
    Conditional { description: String },
}

/// Conditions attached to a consent grant.
#[derive(Debug, Clone, Copy, PartialEq, Eq, Structural)]
pub enum ConsentCondition {
    /// Migration must improve fit by at least this threshold (bit pattern of an `f64`)
    FitImprovementAbove { threshold_bits: u64 },
    /// Must stay within same trust boundary
    NoPrivacyBoundaryCrossing,
    /// New shell must have at least this much symbiont budget
    SymbiontBudgetAvailable { min_mb: u64 },
    /// Old shell must retain rollback snapshot for this duration
    RollbackGuaranteed { retention_secs: u64 },
    /// C7 verification must not exceed this many identity failures
    VerificationThreshold { max_identity_failures: usize },
}

/// A consent grant from one party.
#[derive(Debug, Clone)]
pub struct ConsentGrant {
    pub consenter: PartyId,
    pub consent_type: ConsentType,
    pub validity: ConsentValidity,
    pub conditions: Vec<ConsentCondition>,
    /// When the grant was given (ms)
    pub timestamp_ms: u64,
}

/// Reason for consent denial.
#[derive(Debug, Clone, Copy, PartialEq, Eq, Structural)]
pub enum DenialReason {
    /// Previously granted consent was withdrawn
    ConsentRevoked,
    /// Fit improvement below threshold
    InsufficientImprovement,
    /// Migration crosses trust boundary without authorization
    PrivacyViolation,
    /// A symbiont refused transfer
    SymbiontRejection,
    /// Agent (≥Juvenile) exercises §2.4 right of refusal
    AgentRefusal,
    /// Predicted adaptation > 0.5 (identity threshold)
    AdaptationTooHigh,
}

/// A consent denial from one party.
#[derive(Debug, Clone)]
pub struct ConsentDenial {
    pub denier: PartyId,
    pub reason: DenialReason,
    /// When the denial was given (ms)
    pub timestamp_ms: u64,
}

/// Whether the constraint check passed for consent purposes.
#[derive(Debug, Clone, Copy, PartialEq, Eq, Structural)]
pub enum ConstraintConsentStatus {
    AllPass,
    HasWarnings,
    HasFailures,
}

/// The consent proof — attestation that all required consents were
/// obtained. Stored as an immutable audit record.
#[derive(Debug, Clone)]
pub struct ConsentProof {
    pub proposal_id: [u8; 16],
    pub grants: Vec<ConsentGrant>,
    pub denials: Vec<ConsentDenial>,
    /// The constraint verification status
    pub constraint_verdict: ConstraintConsentStatus,
    /// Consent Court ruling (if appealed)
    pub court_verdict: Option<CourtDecision>,
    /// When the proof was completed (ms)
    pub completed_at_ms: u64,
    /// Merkle root of all consent messages for efficient verification
    pub merkle_root: [u8; 32],
}

impl ConsentProof {
    /// The proof is valid: nobody denied, somebody granted, and the
    /// constraint check did not fail.
    pub open spec fn spec_is_valid(&self) -> bool {
        self.denials@.len() == 0 && self.grants@.len() > 0 && self.constraint_verdict
            != ConstraintConsentStatus::HasFailures
    }

    /// Whether the proof represents a valid consent (all required parties consented, no denials).
    pub fn is_valid(&self) -> (b: bool)
        ensures
            b == self.spec_is_valid(),
    {
        self.denials.len() == 0 && self.grants.len() > 0 && self.constraint_verdict
            != ConstraintConsentStatus::HasFailures
    }

    /// Whether a specific party consented.
    pub fn party_consented(&self, party: &PartyId) -> (b: bool)
        ensures
            b == exists|i: int| 0 <= i < self.grants@.len() && party_eq(&(#[trigger] self.grants@[i]).consenter, party),
    {
        let mut i: usize = 0;
        while i < self.grants.len()
            invariant
                i <= self.grants@.len(),
                forall|j: int| 0 <= j < i ==> !party_eq(&(#[trigger] self.grants@[j]).consenter, party),
            decreases self.grants.len() - i,
        {
            if self.grants[i].consenter == *party {
                return true;
            }
            i += 1;
        }
        false
    }

    /// Whether a specific party denied.
    pub fn party_denied(&self, party: &PartyId) -> (b: bool)
        ensures
            b == exists|i: int| 0 <= i < self.denials@.len() && party_eq(&(#[trigger] self.denials@[i]).denier, party),
    {
        let mut i: usize = 0;
        while i < self.denials.len()
            invariant
                i <= self.denials@.len(),
                forall|j: int| 0 <= j < i ==> !party_eq(&(#[trigger] self.denials@[j]).denier, party),
            decreases self.denials.len() - i,
        {
            if self.denials[i].denier == *party {
                return true;
            }
            i += 1;
        }
        false
    }
}

/// A single denial voids consent, whatever was granted.
pub proof fn law_denial_voids_consent(p: ConsentProof)
    requires
        p.denials@.len() > 0,
    ensures
        !p.spec_is_valid(),
{
}

/// A consent proof is valid only with at least one grant, no denial and a
/// constraint check that did not fail; with all three it is valid.
pub proof fn law_valid_consent_needs_a_grant_and_no_failure(p: ConsentProof)
    ensures
        p.grants@.len() == 0 ==> !p.spec_is_valid(),
        p.constraint_verdict == ConstraintConsentStatus::HasFailures ==> !p.spec_is_valid(),
        p.spec_is_valid() ==> p.denials@.len() == 0,
        (p.grants@.len() > 0 && p.denials@.len() == 0 && p.constraint_verdict
            != ConstraintConsentStatus::HasFailures) ==> p.spec_is_valid(),
{
}

/// Which consent serves which initiator: only explicit consent serves a
/// user-initiated migration; proxied, assisted and autonomous consent serve
/// agent-initiated migrations and nothing else; operator override serves
/// idle auto-migration and nothing else.
pub proof fn law_consent_serves_its_initiators(t: ConsentType, stage: MigrationInitiator)
    ensures
        t.spec_valid_for_stage(MigrationInitiator::User) <==> t == ConsentType::Explicit,
        t != ConsentType::Explicit && t != ConsentType::OperatorOverride ==> (t.spec_valid_for_stage(stage)
            <==> stage == MigrationInitiator::Agent),
        ConsentType::OperatorOverride.spec_valid_for_stage(stage) <==> stage == MigrationInitiator::AutoIdle,
        t.spec_valid_for_stage(MigrationInitiator::Agent) <==> t != ConsentType::OperatorOverride,
{
}

/// Explicit consent serves every initiator.
pub proof fn law_explicit_consent_always_valid(stage: MigrationInitiator)
    ensures
        ConsentType::Explicit.spec_valid_for_stage(stage),
{
}

} // verus!
