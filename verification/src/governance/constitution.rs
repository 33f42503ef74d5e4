//! Article I & II: Rights and Separation of Powers

use vstd::prelude::*;
use uuid::Uuid;

verus! {

/// The inalienable rights of all persons of the system.
/// These are NOT capabilities — they cannot be revoked by the capability
/// issuer.  They can only be overridden by the Consent Court.
#[derive(Debug, Clone, Copy, PartialEq, Eq, Structural, Hash)]
pub enum Right {
    /// §1.1: User controls agent lifecycle
    SovereignDeployment,
    /// §1.2: User owns agent data
    DataOwnership,
    /// §1.3: User can demand erasure (GDPR Art. 17)
    Erasure,
    /// §1.5: User can demand explanation of constraint failures
    Explanation,
    /// §1.6: User can challenge constraints
    Appeal,
    /// §2.1: Agent identity persists through migration
    IdentityContinuity,
    /// §2.2: Consent capacity matches developmental stage
    DevelopmentalProgression,
    /// §2.3: Identity reflexes (confidence > 0.99) are inalienable
    ReflexIntegrity,
    /// §2.4: Agent (≥Juvenile) can refuse migration
    Refusal,
    /// §2.5: Agent's autobiographical memory cannot be erased by non-User
    Memory,
    /// §3.1: Hardware boundaries are inviolable
    Inviolability,
    /// §3.2: Symbionts have guaranteed resource allocation
    SymbiontBudget,
    /// §3.3: Shell keeps its epigenetics
    EpigeneticRetention,
    /// §4.1: Symbionts have right to allocated resources
    MinimalFootprint,
    /// §4.2: The capability issuer operates independently of the agent
    AutonomousOperation,
    /// §4.3: Symbionts can reject transfer to new shell
    TransferNegotiation,
}

/// A rights policy constrains how capabilities may be issued.
#[derive(Debug, Clone)]
pub struct RightsPolicy {
    /// The right being protected
    pub right: Right,
    /// The constraint on capability issuance
    pub constraint: RightsConstraint,
    /// Who may override this policy (and under what conditions)
    pub override_authority: OverrideAuthority,
}

/// How a right constrains capability issuance.
#[derive(Debug, Clone)]
pub enum RightsConstraint {
    /// Capability cannot be issued at all (inalienable right)
    Absolute,
    /// Capability can be issued only with explicit User consent
    RequiresExplicitConsent,
    /// Capability can be issued only within specified constraints
    Conditional { description: String },
    /// Capability can be overridden by the Consent Court
    OverridableByCourt,
}

/// Who may override a rights policy.
#[derive(Debug, Clone, Copy, PartialEq, Eq, Structural)]
pub enum OverrideAuthority {
    /// Cannot be overridden
    NoOverride,
    /// Only the Consent Court (§7)
    ConsentCourt,
    /// Constraint Council with supermajority (bit pattern of an `f64`:
    /// 0.667 operational, 0.8 foundational)
    ConstraintCouncil { supermajority_bits: u64 },
    /// Only explicit User consent
    UserExplicit,
}

/// The three branches of governance.
#[derive(Debug, Clone, Copy, PartialEq, Eq, Structural)]
pub enum Branch {
    /// Constraint Council (§5): defines constraints
    Legislative,
    /// MigrationGuard (§6): enforces constraints
    Executive,
    /// Consent Court (§7): adjudicates disputes
    Judicial,
}

/// The seven foundational constraints.
/// These are ENTRENCHED — require 4/5 supermajority to amend.
#[derive(Debug, Clone, Copy, PartialEq, Eq, Structural, Hash)]
pub enum ConstraintId {
    C1SubstanceAccident,
    C2Simultaneity,
    C3ShapeAsymmetry,
    C4AnimacyOfInitiation,
    C5PairOperation,
    C6ConsentRequirement,
    C7DifferentialVerification,
}

impl ConstraintId {
    /// Whether this constraint is foundational (entrenched, requires 4/5
    /// supermajority): all seven are.
    pub fn is_foundational(&self) -> (b: bool)
        ensures
            b,
    {
        true
    }
}

/// The kind of change an amendment proposes.
#[derive(Debug, Clone)]
pub enum AmendmentType {
    Add { description: String },
    Modify { old: String, new: String },
    Remove { reason: String },
}

#[derive(Debug, Clone, Copy, PartialEq, Eq, Structural)]
pub enum CourtVerdict {
    /// Constraint was correct, migration remains blocked
    Uphold,
    /// Constraint was wrong, migration proceeds
    Override,
    /// Insufficient evidence, re-measure and re-evaluate
    Remand,
    /// Migration proceeds with additional conditions
    Conditional,
}

#[derive(Debug, Clone, Copy, PartialEq, Eq, Structural)]
pub enum PrecedentWeight {
    /// Must be followed by all future similar cases
    Binding,
    /// Should be considered but not binding
    Persuasive,
    /// Specific to this case, no future weight
    NonPrecedential,
}

#[derive(Debug, Clone, Copy, PartialEq, Eq, Structural)]
pub enum ArbiterVote {
    For,
    Against,
    Abstain,
}

/// A Consent Court decision (§7).
#[derive(Debug, Clone)]
pub struct CourtDecision {
    pub case_id: Uuid,
    pub appeal_id: Uuid,
    pub verdict: CourtVerdict,
    pub reasoning: String,
    pub precedent_weight: PrecedentWeight,
    /// Until when the decision holds (ms), if it expires
    pub effective_until_ms: Option<u64>,
    /// Three arbiter votes: [User proxy, Agent advocate, Shell witness]
    pub votes: [Option<ArbiterVote>; 3],
}

/// How many of the three votes equal `v`.
pub open spec fn vote_count(votes: [Option<ArbiterVote>; 3], v: ArbiterVote) -> int {
    (if votes[0] == Some(v) { 1int } else { 0 }) + (if votes[1] == Some(v) { 1int } else { 0 }) + (if votes[2]
        == Some(v) { 1int } else { 0 })
}

/// The verdict of three votes: two votes for override; anything else keeps
/// the status quo.
pub open spec fn verdict_of(votes: [Option<ArbiterVote>; 3]) -> CourtVerdict {
    if vote_count(votes, ArbiterVote::For) >= 2 {
        CourtVerdict::Override
    } else {
        CourtVerdict::Uphold
    }
}

fn is_vote(v: Option<ArbiterVote>, want: ArbiterVote) -> (b: bool)
    ensures
        b == (v == Some(want)),
{
    match v {
        Some(x) => x == want,
        None => false,
    }
}

impl CourtDecision {
    /// Compute the verdict from the three arbiter votes.
    /// 2/3 majority required. Split (1-1-1) defaults to status quo (Uphold).
    pub fn compute_verdict(votes: [Option<ArbiterVote>; 3]) -> (v: CourtVerdict)
        ensures
            v == verdict_of(votes),
    {
        let mut for_count: usize = 0;
        let mut against_count: usize = 0;
        let mut i: usize = 0;
        while i < 3
            invariant
                i <= 3,
                for_count == (if i > 0 && votes[0] == Some(ArbiterVote::For) { 1int } else { 0 }) + (if i > 1
                    && votes[1] == Some(ArbiterVote::For) { 1int } else { 0 }) + (if i > 2 && votes[2] == Some(
                    ArbiterVote::For,
                ) { 1int } else { 0 }),
                against_count <= i,
            decreases 3 - i,
        {
            if is_vote(votes[i], ArbiterVote::For) {
                for_count += 1;
            }
            if is_vote(votes[i], ArbiterVote::Against) {
                against_count += 1;
            }
            i += 1;
        }
        if for_count >= 2 {
            CourtVerdict::Override
        } else if against_count >= 2 {
            CourtVerdict::Uphold
        } else {
            // Split decision or too many abstentions → status quo
            CourtVerdict::Uphold
        }
    }
}

/// Two arbiters voting for an override carry it whatever the third does;
/// with at most one vote for it, the constraint is upheld, however the
/// others vote or abstain.  Which arbiter casts which vote does not matter.
pub proof fn law_two_votes_carry_an_override(a: Option<ArbiterVote>, b: Option<ArbiterVote>, c: Option<ArbiterVote>)
    ensures
        a == Some(ArbiterVote::For) && b == Some(ArbiterVote::For) ==> verdict_of([a, b, c]) == CourtVerdict::Override,
        a == Some(ArbiterVote::For) && c == Some(ArbiterVote::For) ==> verdict_of([a, b, c]) == CourtVerdict::Override,
        b == Some(ArbiterVote::For) && c == Some(ArbiterVote::For) ==> verdict_of([a, b, c]) == CourtVerdict::Override,
        b != Some(ArbiterVote::For) && c != Some(ArbiterVote::For) ==> verdict_of([a, b, c]) == CourtVerdict::Uphold,
        a != Some(ArbiterVote::For) && c != Some(ArbiterVote::For) ==> verdict_of([a, b, c]) == CourtVerdict::Uphold,
        a != Some(ArbiterVote::For) && b != Some(ArbiterVote::For) ==> verdict_of([a, b, c]) == CourtVerdict::Uphold,
        verdict_of([a, b, c]) == verdict_of([c, a, b]),
        verdict_of([a, b, c]) == verdict_of([b, a, c]),
{
}

/// The court overrides a constraint only with at least two votes for it;
/// every other tally upholds it.
pub proof fn law_override_needs_majority(votes: [Option<ArbiterVote>; 3])
    ensures
        verdict_of(votes) == CourtVerdict::Override <==> vote_count(votes, ArbiterVote::For) >= 2,
        verdict_of(votes) == CourtVerdict::Override || verdict_of(votes) == CourtVerdict::Uphold,
{
}

} // verus!
