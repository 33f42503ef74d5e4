//! Gastrolith: cognitive continuity anchor during migration.
//!
//! The gastrolith is the agent-local checkpoint that keeps cognitive
//! continuity through the dissociative state of migration.  It carries the
//! identity core (substance), the reflexes needed right after migration —
//! ordered by how much they matter — recent decision traces, and the last
//! interoceptive snapshot.  Measurements that are real numbers travel as the
//! bit patterns of the `f64`s they stand for.

use vstd::prelude::*;

verus! {

/// Substance fields: what constitutes identity.
#[derive(Debug, Clone)]
pub struct SubstanceFields {
    /// Rigging UUID
    pub rigging_id: String,
    /// Accumulated personality
    pub personality: String,
    /// Number of sessions completed
    pub total_sessions: u64,
    /// Number of reflexes acquired
    pub total_reflexes: u64,
    /// Developmental stage
    pub developmental_stage: DevelopmentalStage,
}

/// Developmental stage of the agent.
#[derive(Debug, Clone, Copy, PartialEq, Eq, Structural)]
pub enum DevelopmentalStage {
    /// No model, no reflexes — drifting through fleet
    Zoea,
    /// Model loading, first reflex acquisition — seeking stability
    Megalopa,
    /// Operating with basic reflexes, still learning
    Juvenile,
    /// Full capability, vacancy chain eligible
    Adult,
}

/// A reflex stored at full fidelity in the gastrolith.
#[derive(Debug, Clone)]
pub struct FullFidelityReflex {
    /// The reflex's unique ID
    pub reflex_id: String,
    /// The trigger pattern
    pub trigger_pattern: String,
    /// The action template (complete, not just text)
    pub action_template: String,
    /// Current cognitive trust state (bit pattern of an `f64`)
    pub trust_bits: u64,
    /// Practice count
    pub practice_count: u32,
    /// Why this reflex is in the gastrolith
    pub reason: GastrolithReason,
}

/// Why a reflex was included in the gastrolith.
#[derive(Debug, Clone, Copy, PartialEq, Eq, Structural)]
pub enum GastrolithReason {
    /// Top-K by usage count
    TopUsed { rank: usize },
    /// Identity reflex (confidence > 0.99, cannot degrade without rollback)
    Identity,
    /// Recently learned but not yet consolidated
    Unconsolidated { learned_at: u64 },
    /// User-designated critical reflex
    UserCritical,
}

/// A decision trace: records a recent decision for working memory reconstruction.
#[derive(Debug, Clone)]
pub struct DecisionTrace {
    /// The input that triggered the decision
    pub input_summary: String,
    /// The reflex or LLM decision that was made
    pub decision_summary: String,
    /// The outcome (success/failure)
    pub outcome: Outcome,
    /// Timestamp (epoch seconds)
    pub timestamp: u64,
}

/// Outcome of a decision trace.
#[derive(Debug, Clone, Copy, PartialEq, Eq, Structural)]
pub enum Outcome {
    Success,
    PartialSuccess,
    Failure,
    Deferred,
}

/// Latency profile: inference timing statistics (bit patterns of `f64` ms).
#[derive(Debug, Clone, Copy, PartialEq, Eq, Structural)]
pub struct LatencyProfile {
    pub p50_ms_bits: u64,
    pub p95_ms_bits: u64,
    pub p99_ms_bits: u64,
    /// Number of samples
    pub sample_count: u32,
}

/// Thermal status of the shell.
#[derive(Debug, Clone, Copy, PartialEq, Eq, Structural)]
pub enum ThermalStatus {
    Nominal,
    Warm,
    Hot,
    Critical,
}

/// A predicted future state (bit patterns of `f64`s).
#[derive(Debug, Clone, Copy, PartialEq, Eq, Structural)]
pub struct PredictedState {
    /// Predicted RAM usage (fraction, 0.0-1.0)
    pub ram_fraction_bits: u64,
    /// Predicted time (seconds from now)
    pub seconds_from_now_bits: u64,
    /// Confidence in this prediction
    pub confidence_bits: u64,
}

/// Interoceptive snapshot: the agent's last known bodily state.
#[derive(Debug, Clone)]
pub struct InteroceptiveSnapshot {
    /// Last known RAM usage pattern (bit patterns of `f64` fractions)
    pub ram_usage_samples_bits: Vec<u64>,
    /// Last known inference latency profile
    pub latency_profile: LatencyProfile,
    /// Last known thermal state
    pub thermal_state: ThermalStatus,
    /// Predicted resource trajectory (if available)
    pub predicted_trajectory: Option<Vec<PredictedState>>,
    /// Epoch seconds of the last rehydration
    pub last_rehydration_at: u64,
}

/// The gastrolith: a cognitive continuity anchor stored in the .nail file.
#[derive(Debug, Clone)]
pub struct Gastrolith {
    /// Substance fields — identity core
    pub substance: SubstanceFields,
    /// Core reflexes, identity reflexes first
    pub core_reflexes: Vec<FullFidelityReflex>,
    /// Decision traces: recent decisions and outcomes.
    pub decision_traces: Vec<DecisionTrace>,
    /// Interoceptive snapshot
    pub interoceptive_snapshot: InteroceptiveSnapshot,
    /// Gastrolith creation timestamp (epoch seconds)
    pub created_at: u64,
    /// Shell fingerprint of the source shell
    pub source_shell_fingerprint: String,
}

/// Building a gastrolith needs the identity core.
#[derive(Debug, Clone, Copy, PartialEq, Eq, Structural)]
pub enum GastrolithError {
    /// Missing substance fields — identity core is required
    MissingSubstance,
}

/// Rank of a reason in the gastrolith: Identity > UserCritical > TopUsed >
/// Unconsolidated.
pub open spec fn reason_rank(r: GastrolithReason) -> int {
    match r {
        GastrolithReason::Identity => 0,
        GastrolithReason::UserCritical => 1,
        GastrolithReason::TopUsed { .. } => 2,
        GastrolithReason::Unconsolidated { .. } => 3,
    }
}

/// The rank of a reason.
pub fn reason_rank_of(r: &GastrolithReason) -> (k: u8)
    ensures
        k == reason_rank(*r),
{
    match r {
        GastrolithReason::Identity => 0,
        GastrolithReason::UserCritical => 1,
        GastrolithReason::TopUsed { .. } => 2,
        GastrolithReason::Unconsolidated { .. } => 3,
    }
}

/// The reflexes of `s` whose reason has rank `k`, in their order in `s`.
pub open spec fn with_rank(s: Seq<FullFidelityReflex>, k: int) -> Seq<FullFidelityReflex>
    decreases s.len(),
{
    if s.len() == 0 {
        s
    } else {
        let front = with_rank(s.drop_last(), k);
        if reason_rank(s.last().reason) == k {
            front.push(s.last())
        } else {
            front
        }
    }
}

/// `s` stably sorted by reason rank.
pub open spec fn priority_order(s: Seq<FullFidelityReflex>) -> Seq<FullFidelityReflex> {
    with_rank(s, 0) + with_rank(s, 1) + with_rank(s, 2) + with_rank(s, 3)
}

/// The snapshot a gastrolith gets when none was given: no samples, a zero
/// latency profile, nominal temperature, no prediction, rehydrated `now`.
pub open spec fn default_snapshot(s: InteroceptiveSnapshot, now: u64) -> bool {
    &&& s.ram_usage_samples_bits@.len() == 0
    &&& s.latency_profile == (LatencyProfile { p50_ms_bits: 0, p95_ms_bits: 0, p99_ms_bits: 0, sample_count: 0 })
    &&& s.thermal_state == ThermalStatus::Nominal
    &&& s.predicted_trajectory is None
    &&& s.last_rehydration_at == now
}

/// Builder for constructing a gastrolith before migration.
pub struct GastrolithBuilder {
    pub substance: Option<SubstanceFields>,
    pub core_reflexes: Vec<FullFidelityReflex>,
    pub decision_traces: Vec<DecisionTrace>,
    pub interoceptive: Option<InteroceptiveSnapshot>,
    pub source_fingerprint: String,
}

impl GastrolithBuilder {
    pub fn new(source_fingerprint: String) -> (b: Self)
        ensures
            b.substance is None,
            b.core_reflexes@.len() == 0,
            b.decision_traces@.len() == 0,
            b.interoceptive is None,
            b.source_fingerprint == source_fingerprint,
    {
        Self {
            substance: None,
            core_reflexes: Vec::new(),
            decision_traces: Vec::new(),
            interoceptive: None,
            source_fingerprint,
        }
    }

    pub fn substance(self, substance: SubstanceFields) -> (b: Self)
        ensures
            b == (Self { substance: Some(substance), ..self }),
    {
        let mut s = self;
        s.substance = Some(substance);
        s
    }

    pub fn add_core_reflex(self, reflex: FullFidelityReflex) -> (b: Self)
        ensures
            b.core_reflexes@ == self.core_reflexes@.push(reflex),
            b.substance == self.substance,
            b.decision_traces == self.decision_traces,
            b.interoceptive == self.interoceptive,
            b.source_fingerprint == self.source_fingerprint,
    {
        let mut s = self;
        s.core_reflexes.push(reflex);
        s
    }

    pub fn add_decision_trace(self, trace: DecisionTrace) -> (b: Self)
        ensures
            b.decision_traces@ == self.decision_traces@.push(trace),
            b.substance == self.substance,
            b.core_reflexes == self.core_reflexes,
            b.interoceptive == self.interoceptive,
            b.source_fingerprint == self.source_fingerprint,
    {
        let mut s = self;
        s.decision_traces.push(trace);
        s
    }

    pub fn interoceptive(self, snapshot: InteroceptiveSnapshot) -> (b: Self)
        ensures
            b == (Self { interoceptive: Some(snapshot), ..self }),
    {
        let mut s = self;
        s.interoceptive = Some(snapshot);
        s
    }

    /// Build the gastrolith at epoch second `now`. The core reflexes are
    /// ordered by priority — Identity, UserCritical, TopUsed, Unconsolidated —
    /// keeping the order in which they were added within each priority.
    pub fn build(self, now: u64) -> (r: Result<Gastrolith, GastrolithError>)
        ensures
            self.substance is None ==> r == Err::<Gastrolith, GastrolithError>(GastrolithError::MissingSubstance),
            self.substance is Some ==> r is Ok && ({
                let g = r->Ok_0;
                &&& g.substance == self.substance->0
                &&& g.core_reflexes@ == priority_order(self.core_reflexes@)
                &&& g.decision_traces == self.decision_traces
                &&& (self.interoceptive is Some ==> g.interoceptive_snapshot == self.interoceptive->0)
                &&& (self.interoceptive is None ==> default_snapshot(g.interoceptive_snapshot, now))
                &&& g.created_at == now
                &&& g.source_shell_fingerprint == self.source_fingerprint
            }),
    {
        let GastrolithBuilder { substance, core_reflexes, decision_traces, interoceptive, source_fingerprint } = self;
        let substance = match substance {
            Some(s) => s,
            None => {
                return Err(GastrolithError::MissingSubstance);
            },
        };
        let interoceptive = match interoceptive {
            Some(s) => s,
            None => InteroceptiveSnapshot {
                ram_usage_samples_bits: Vec::new(),
                latency_profile: LatencyProfile { p50_ms_bits: 0, p95_ms_bits: 0, p99_ms_bits: 0, sample_count: 0 },
                thermal_state: ThermalStatus::Nominal,
                predicted_trajectory: None,
                last_rehydration_at: now,
            },
        };
        let sorted = sort_by_reason(core_reflexes);
        Ok(Gastrolith {
            substance,
            core_reflexes: sorted,
            decision_traces,
            interoceptive_snapshot: interoceptive,
            created_at: now,
            source_shell_fingerprint: source_fingerprint,
        })
    }
}

/// Stable sort of reflexes by reason rank.
pub fn sort_by_reason(reflexes: Vec<FullFidelityReflex>) -> (sorted: Vec<FullFidelityReflex>)
    ensures
        sorted@ == priority_order(reflexes@),
{
    let ghost orig = reflexes@;
    let mut src = reflexes;
    let mut b0: Vec<FullFidelityReflex> = Vec::new();
    let mut b1: Vec<FullFidelityReflex> = Vec::new();
    let mut b2: Vec<FullFidelityReflex> = Vec::new();
    let mut b3: Vec<FullFidelityReflex> = Vec::new();
    let ghost mut done: int = 0;
    assert(orig.skip(0) =~= orig);
    while src.len() > 0
        invariant
            0 <= done <= orig.len(),
            src@ == orig.skip(done),
            b0@ == with_rank(orig.take(done), 0),
            b1@ == with_rank(orig.take(done), 1),
            b2@ == with_rank(orig.take(done), 2),
            b3@ == with_rank(orig.take(done), 3),
        decreases src.len(),
    {
        let r = src.remove(0);
        proof {
            assert(orig.take(done + 1).drop_last() =~= orig.take(done));
            assert(orig.take(done + 1).last() == r);
            assert(src@ =~= orig.skip(done + 1));
            done = done + 1;
        }
        let k = reason_rank_of(&r.reason);
        if k == 0 {
            b0.push(r);
        } else if k == 1 {
            b1.push(r);
        } else if k == 2 {
            b2.push(r);
        } else {
            b3.push(r);
        }
    }
    assert(orig.take(done) =~= orig);
    b0.append(&mut b1);
    b0.append(&mut b2);
    b0.append(&mut b3);
    b0
}

impl Gastrolith {
    /// Whether this gastrolith is sufficient for migration
    /// (at least 5 core reflexes and substance is intact)
    pub fn is_migration_ready(&self) -> (b: bool)
        ensures
            b == (self.substance.rigging_id@.len() > 0 && self.core_reflexes@.len() >= 5),
    {
        !self.substance.rigging_id.as_str().is_empty() && self.core_reflexes.len() >= 5
    }
}

/// Each rank bucket holds only reflexes of that rank, and the buckets
/// together hold every reflex of the input.
pub proof fn lemma_with_rank(s: Seq<FullFidelityReflex>, k: int)
    ensures
        forall|i: int| 0 <= i < with_rank(s, k).len() ==> reason_rank(#[trigger] with_rank(s, k)[i].reason) == k,
        with_rank(s, k).len() <= s.len(),
    decreases s.len(),
{
    if s.len() > 0 {
        lemma_with_rank(s.drop_last(), k);
    }
}

/// The four buckets partition the input.
pub proof fn lemma_buckets_cover(s: Seq<FullFidelityReflex>)
    ensures
        with_rank(s, 0).len() + with_rank(s, 1).len() + with_rank(s, 2).len() + with_rank(s, 3).len() == s.len(),
        with_rank(s, 0).to_multiset().add(with_rank(s, 1).to_multiset()).add(with_rank(s, 2).to_multiset()).add(
            with_rank(s, 3).to_multiset(),
        ) == s.to_multiset(),
    decreases s.len(),
{
    broadcast use vstd::seq_lib::group_to_multiset_ensures;
    if s.len() > 0 {
        lemma_buckets_cover(s.drop_last());
        assert(s =~= s.drop_last().push(s.last()));
    }
}

/// Building orders the core reflexes by priority without losing or adding
/// any: the result is a permutation of what was added, in which every
/// higher-priority reflex comes before every lower-priority one.
pub proof fn law_build_orders_by_priority(s: Seq<FullFidelityReflex>)
    ensures
        priority_order(s).to_multiset() == s.to_multiset(),
        forall|i: int, j: int|
            0 <= i < j < priority_order(s).len() ==> reason_rank(#[trigger] priority_order(s)[i].reason)
                <= reason_rank(#[trigger] priority_order(s)[j].reason),
{
    broadcast use vstd::seq_lib::group_to_multiset_ensures;
    lemma_buckets_cover(s);
    lemma_with_rank(s, 0);
    lemma_with_rank(s, 1);
    lemma_with_rank(s, 2);
    lemma_with_rank(s, 3);
    let a = with_rank(s, 0);
    let b = with_rank(s, 1);
    let c = with_rank(s, 2);
    let d = with_rank(s, 3);
    vstd::seq_lib::lemma_multiset_commutative(a, b);
    vstd::seq_lib::lemma_multiset_commutative(a + b, c);
    vstd::seq_lib::lemma_multiset_commutative(a + b + c, d);
    let p = priority_order(s);
    assert forall|i: int, j: int|
        0 <= i < j < p.len() implies reason_rank(#[trigger] p[i].reason) <= reason_rank(#[trigger] p[j].reason) by {
        let la = a.len() as int;
        let lb = b.len() as int;
        let lc = c.len() as int;
        assert(p == a + b + c + d);
        if i < la {
            assert(p[i] == a[i]);
        } else if i < la + lb {
            assert(p[i] == b[i - la]);
        } else if i < la + lb + lc {
            assert(p[i] == c[i - la - lb]);
        } else {
            assert(p[i] == d[i - la - lb - lc]);
        }
        if j < la {
            assert(p[j] == a[j]);
        } else if j < la + lb {
            assert(p[j] == b[j - la]);
        } else if j < la + lb + lc {
            assert(p[j] == c[j - la - lb]);
        } else {
            assert(p[j] == d[j - la - lb - lc]);
        }
    }
}

} // verus!
