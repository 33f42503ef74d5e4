//! 3-Phase Migration State Machine with 7 Linguistic Constraints
//!
//! Migration runs through three phases (PREPARE → CROSSFADE → FINALIZE).
//! The seven constraints guard the transitions between them:
//!
//! * C1 substance/accident: identity must be preserved (substance ratio ≥ ½)
//! * C2 simultaneity: release and receipt are confirmed as one act
//! * C3 shape asymmetry: the shape verb of the new shell is fixed up front
//! * C4 animacy: shells never initiate a migration
//! * C5 pair operation: the channel between the two shells must hold
//! * C6 consent: a denied consent blocks the migration
//! * C7 differential verification: too many identity failures roll back
//!
//! Time is read from the wall clock in milliseconds; each transition has a
//! form that takes the clock reading as an argument, and whose contract is
//! exact.

use vstd::prelude::*;
use crate::clock::{elapsed, now_ms};
use crate::ieee::{below_half, f64_lt, HALF_BITS};

verus! {

/// How long the PREPARE phase may last (30 s).
pub const PREPARE_TIMEOUT_MS: u64 = 30_000;

/// How long an old shell keeps its rollback snapshot (24 h).
pub const ROLLBACK_RETENTION_MS: u64 = 86_400_000;

/// C4 refusal.
pub const C4_ANIMACY: &'static str = "C4 (Animacy): Shells cannot initiate migration. Only users and agents can.";

/// C6 refusal.
pub const C6_CONSENT: &'static str = "C6 (Consent): Migration consent denied.";

/// C5 refusal.
pub const C5_PAIR: &'static str = "C5 (Pair-Operation): Shell pair channel is broken. Migration is one operation on the pair, not two individual operations.";

/// C2 refusal.
pub const C2_SIMULTANEITY: &'static str = "C2 (Simultaneity): Old shell release and new shell receive were not confirmed simultaneous. The Greek middle voice demands that giving-back and receiving are one act.";

/// C7 refusal.
pub const C7_VERIFICATION: &'static str = "C7 (Differential-Verification): Too many identity reflex failures. Identity reflexes (confidence > 0.99) resist degradation. Rolling back migration.";

/// PREPARE timed out.
pub const PREPARE_TIMEOUT_MSG: &'static str = "PREPARE phase exceeded 30s";

/// CROSSFADE timed out.
pub const CROSSFADE_TIMEOUT_MSG: &'static str = "CROSSFADE phase exceeded 2x duration";

/// CROSSFADE asked for outside PREPARE.
pub const CROSSFADE_NEEDS_PREPARE: &'static str = "CROSSFADE requires PREPARE phase";

/// Simultaneity confirmed outside CROSSFADE.
pub const SIMULTANEITY_NEEDS_CROSSFADE: &'static str = "C2 (Simultaneity) confirmation requires CROSSFADE phase";

/// FINALIZE asked for outside CROSSFADE.
pub const FINALIZE_NEEDS_CROSSFADE: &'static str = "FINALIZE requires CROSSFADE phase";

/// PREPARE asked for outside STABLE.
pub const PREPARE_NEEDS_STABLE: &'static str = "PREPARE requires STABLE phase";

/// COMPLETE asked for outside FINALIZE.
pub const COMPLETE_NEEDS_FINALIZE: &'static str = "COMPLETE requires FINALIZE phase";

/// C1: what is preserved across migration.
#[derive(Debug, Clone, Copy, PartialEq, Eq, Structural)]
pub enum SubstanceField {
    RiggingId,
    Personality,
    ReflexPatterns,
    TrustScores,
    SessionHistory,
}

/// C1: what is adapted to the new shell.
#[derive(Debug, Clone, Copy, PartialEq, Eq, Structural)]
pub enum AccidentField {
    Embeddings,
    SandboxProfiles,
    GpuLayerCount,
    ModelSelection,
    CrdtCellAdaptations,
}

/// C1: Substance-Accident partition.
#[derive(Debug, Clone)]
pub struct SubstanceAccidentPartition {
    /// What is preserved across migration
    pub substance: Vec<SubstanceField>,
    /// What is adapted to the new shell
    pub accidents: Vec<AccidentField>,
    /// Ratio of substance to total state, as the bit pattern of an `f64`.
    /// Below one half, a migration would create a NEW agent.
    pub substance_ratio_bits: u64,
}

/// C3: Shape verb — determines operational mode.
#[derive(Debug, Clone, Copy, PartialEq, Eq, Structural)]
pub enum ShapeVerb {
    /// Long-thin shell (RPi): sequential, reflex-urgent, depth-first
    Stretch,
    /// Flat-wide shell (Jetson): layered, GPU/CPU split, parallel-first
    Spread,
    /// Round-deep shell (Workstation): concurrent, exploratory, breadth-first
    Settle,
}

/// C4: Who initiated this migration? Shells never do.
#[derive(Debug, Clone, Copy, PartialEq, Eq, Structural)]
pub enum MigrationInitiator {
    User,
    Agent,
    AutoIdle,
}

/// C6: Consent record.
#[derive(Debug, Clone)]
pub struct ConsentRecord {
    pub consent_type: ConsentState,
    /// When the consent was given (ms since the Unix epoch)
    pub consented_at_ms: u64,
    pub consented_by: String,
    pub policy: ConsentPolicy,
}

#[derive(Debug, Clone, Copy, PartialEq, Eq, Structural)]
pub enum ConsentState {
    ExplicitUser,
    AgentInitiated,
    AutoWhenIdle,
    AutoIfImprovement,
    Denied,
    /// FORBIDDEN by the animacy constraint
    ShellInitiated,
}

#[derive(Debug, Clone, Copy, PartialEq, Eq, Structural)]
pub enum ConsentPolicy {
    Explicit,
    AutoWhenIdle,
    AutoIfImprovement,
    OperatorOverride,
}

/// C5: Shell pair as operational unit.
#[derive(Debug, Clone)]
pub struct ShellPair {
    pub old_shell_fingerprint: String,
    pub new_shell_fingerprint: String,
    pub channel_state: PairChannelState,
}

#[derive(Debug, Clone, Copy, PartialEq, Eq, Structural)]
pub enum PairChannelState {
    Connected,
    Degraded,
    Broken,
}

/// C7: Differential verification of reflexes.
#[derive(Debug, Clone)]
pub struct DifferentialVerification {
    pub total_tested: usize,
    pub passed: usize,
    pub failed: Vec<FailedReflex>,
    pub identity_failures: Vec<FailedReflex>,
    /// Whether to ROLLBACK (> 30% identity reflex failures)
    pub rollback_recommended: bool,
}

/// A reflex that failed differential verification.
#[derive(Debug, Clone)]
pub struct FailedReflex {
    pub reflex_id: String,
    /// Confidence before migration (bit pattern of an `f64`)
    pub previous_confidence_bits: u64,
    /// Confidence after migration (bit pattern of an `f64`)
    pub new_confidence_bits: u64,
    pub failure_reason: String,
    pub is_identity: bool,
}

/// Placeholder for the migrated bundle.
#[derive(Debug, Clone, Copy, Default)]
pub struct NailFile;

/// Why a migration failed.
#[derive(Debug, Clone)]
pub enum MigrationFailureReason {
    PrepareTimeout,
    CrossfadeTimeout,
    VerificationFailed { identity_failures: usize, total_identity: usize },
    ChannelBroken,
    ConsentRevoked,
    ResourceExhausted,
}

/// Progress of the symbiont hand-over.
#[derive(Debug, Clone)]
pub enum SymbiontTransferStatus {
    Pending,
    InProgress,
    Complete,
    Failed(String),
}

/// Migration state machine. Times are in ms since the Unix epoch.
#[derive(Debug)]
pub enum MigrationPhase {
    /// Normal operation. No migration in progress.
    Stable,
    /// Phase 1: PREPARE. Guards: C1, C3, C4, C6
    Preparing {
        nail_snapshot: NailFile,
        partition: SubstanceAccidentPartition,
        shape_verb: ShapeVerb,
        initiator: MigrationInitiator,
        consent: ConsentRecord,
        started_at_ms: u64,
        timeout_ms: u64,
    },
    /// Phase 2: CROSSFADE. Guards: C2, C5
    Crossfading {
        nail_snapshot: NailFile,
        shell_pair: ShellPair,
        /// C2: simultaneity verified (both shells active in same tick)
        simultaneity_verified: bool,
        crossfade_duration_ms: u64,
        started_at_ms: u64,
    },
    /// Phase 3: FINALIZE. Guard: C7
    Finalizing {
        verification: DifferentialVerification,
        symbiont_transfer: SymbiontTransferStatus,
        rollback_retention_ms: u64,
        started_at_ms: u64,
    },
    /// Migration complete.
    Finalized { migrated_to: String, rollback_deadline_ms: u64 },
    /// Migration failed. Rolled back.
    Failed { reason: MigrationFailureReason, rolled_back_at_ms: u64 },
}

/// Errors of the migration state machine.
#[derive(Debug, Clone)]
pub enum MigrationError {
    ConstraintViolation(&'static str),
    InvalidTransition(&'static str),
    Timeout(&'static str),
    /// C1: the substance ratio (bit pattern of an `f64`) is below one half.
    IdentityLoss { substance_ratio_bits: u64 },
}

/// PREPARE from `old` gives `new` and `r` when the clock reads `now`.
pub open spec fn prepare_step(
    old: MigrationPhase,
    nail: NailFile,
    partition: SubstanceAccidentPartition,
    shape_verb: ShapeVerb,
    initiator: MigrationInitiator,
    consent: ConsentRecord,
    now: u64,
    new: MigrationPhase,
    r: Result<(), MigrationError>,
) -> bool {
    if consent.consent_type == ConsentState::ShellInitiated {
        new == old && r == Err::<(), MigrationError>(MigrationError::ConstraintViolation(C4_ANIMACY))
    } else if consent.consent_type == ConsentState::Denied {
        new == old && r == Err::<(), MigrationError>(MigrationError::ConstraintViolation(C6_CONSENT))
    } else if f64_lt(partition.substance_ratio_bits, HALF_BITS) {
        new == old && r == Err::<(), MigrationError>(
            MigrationError::IdentityLoss { substance_ratio_bits: partition.substance_ratio_bits },
        )
    } else if !(old is Stable) {
        new == old && r == Err::<(), MigrationError>(MigrationError::InvalidTransition(PREPARE_NEEDS_STABLE))
    } else {
        r is Ok && new == MigrationPhase::Preparing {
            nail_snapshot: nail,
            partition,
            shape_verb,
            initiator,
            consent,
            started_at_ms: now,
            timeout_ms: PREPARE_TIMEOUT_MS,
        }
    }
}

/// CROSSFADE from `old` gives `new` and `r` when the clock reads `now`.
pub open spec fn crossfade_step(
    old: MigrationPhase,
    shell_pair: ShellPair,
    crossfade_duration_ms: u64,
    now: u64,
    new: MigrationPhase,
    r: Result<(), MigrationError>,
) -> bool {
    match old {
        MigrationPhase::Preparing { nail_snapshot, started_at_ms, timeout_ms, .. } => {
            if elapsed(started_at_ms, now) > timeout_ms {
                &&& new == MigrationPhase::Failed {
                    reason: MigrationFailureReason::PrepareTimeout,
                    rolled_back_at_ms: now,
                }
                &&& r == Err::<(), MigrationError>(MigrationError::Timeout(PREPARE_TIMEOUT_MSG))
            } else if shell_pair.channel_state == PairChannelState::Broken {
                new == old && r == Err::<(), MigrationError>(MigrationError::ConstraintViolation(C5_PAIR))
            } else {
                &&& r is Ok
                &&& new == MigrationPhase::Crossfading {
                    nail_snapshot,
                    shell_pair,
                    simultaneity_verified: false,
                    crossfade_duration_ms,
                    started_at_ms: now,
                }
            }
        },
        _ => new == old && r == Err::<(), MigrationError>(
            MigrationError::InvalidTransition(CROSSFADE_NEEDS_PREPARE),
        ),
    }
}

/// Confirming C2 on `old` gives `new` and `r`.
pub open spec fn simultaneity_step(
    old: MigrationPhase,
    new: MigrationPhase,
    r: Result<(), MigrationError>,
) -> bool {
    match old {
        MigrationPhase::Crossfading {
            nail_snapshot,
            shell_pair,
            crossfade_duration_ms,
            started_at_ms,
            ..
        } => {
            &&& r is Ok
            &&& new == MigrationPhase::Crossfading {
                nail_snapshot,
                shell_pair,
                simultaneity_verified: true,
                crossfade_duration_ms,
                started_at_ms,
            }
        },
        _ => new == old && r == Err::<(), MigrationError>(
            MigrationError::InvalidTransition(SIMULTANEITY_NEEDS_CROSSFADE),
        ),
    }
}

/// `p` is a FINALIZE phase that started at `now` with an empty verification
/// record, a pending symbiont transfer and the standard rollback retention.
pub open spec fn fresh_finalizing(p: MigrationPhase, now: u64) -> bool {
    match p {
        MigrationPhase::Finalizing {
            verification,
            symbiont_transfer,
            rollback_retention_ms,
            started_at_ms,
        } => {
            &&& verification.total_tested == 0
            &&& verification.passed == 0
            &&& verification.failed@.len() == 0
            &&& verification.identity_failures@.len() == 0
            &&& !verification.rollback_recommended
            &&& symbiont_transfer is Pending
            &&& rollback_retention_ms == ROLLBACK_RETENTION_MS
            &&& started_at_ms == now
        },
        _ => false,
    }
}

/// FINALIZE from `old` gives `new` and `r` when the clock reads `now`.
pub open spec fn finalize_step(
    old: MigrationPhase,
    now: u64,
    new: MigrationPhase,
    r: Result<(), MigrationError>,
) -> bool {
    match old {
        MigrationPhase::Crossfading {
            simultaneity_verified,
            crossfade_duration_ms,
            started_at_ms,
            ..
        } => {
            if !simultaneity_verified {
                new == old && r == Err::<(), MigrationError>(
                    MigrationError::ConstraintViolation(C2_SIMULTANEITY),
                )
            } else if elapsed(started_at_ms, now) > 2 * crossfade_duration_ms {
                &&& new == MigrationPhase::Failed {
                    reason: MigrationFailureReason::CrossfadeTimeout,
                    rolled_back_at_ms: now,
                }
                &&& r == Err::<(), MigrationError>(MigrationError::Timeout(CROSSFADE_TIMEOUT_MSG))
            } else {
                r is Ok && fresh_finalizing(new, now)
            }
        },
        _ => new == old && r == Err::<(), MigrationError>(
            MigrationError::InvalidTransition(FINALIZE_NEEDS_CROSSFADE),
        ),
    }
}

/// The rollback deadline of a migration finished at `now` (saturating).
pub open spec fn rollback_deadline(now: u64) -> u64 {
    if now + ROLLBACK_RETENTION_MS <= u64::MAX {
        (now + ROLLBACK_RETENTION_MS) as u64
    } else {
        u64::MAX
    }
}

/// COMPLETE from `old` with `verification` gives `new` and `r` at `now`.
pub open spec fn complete_step(
    old: MigrationPhase,
    verification: DifferentialVerification,
    now: u64,
    new: MigrationPhase,
    r: Result<(), MigrationError>,
) -> bool {
    if !(old is Finalizing) {
        new == old && r == Err::<(), MigrationError>(MigrationError::InvalidTransition(COMPLETE_NEEDS_FINALIZE))
    } else if verification.rollback_recommended {
        &&& new == MigrationPhase::Failed {
            reason: MigrationFailureReason::VerificationFailed {
                identity_failures: verification.identity_failures@.len() as usize,
                total_identity: verification.total_tested,
            },
            rolled_back_at_ms: now,
        }
        &&& r == Err::<(), MigrationError>(MigrationError::ConstraintViolation(C7_VERIFICATION))
    } else {
        &&& r is Ok
        &&& new matches MigrationPhase::Finalized { migrated_to, rollback_deadline_ms }
        &&& migrated_to@ == Seq::<char>::empty()
        &&& rollback_deadline_ms == rollback_deadline(now)
    }
}

/// The migration guard: checks all constraints before allowing transitions.
pub struct MigrationGuard {
    phase: MigrationPhase,
}

impl View for MigrationGuard {
    type V = MigrationPhase;

    closed spec fn view(&self) -> MigrationPhase {
        self.phase
    }
}

impl Default for MigrationGuard {
    /// A guard in the Stable phase.
    fn default() -> (g: Self)
        ensures
            g@ is Stable,
    {
        Self::new()
    }
}

impl MigrationGuard {
    /// A guard in the Stable phase.
    pub fn new() -> (g: Self)
        ensures
            g@ is Stable,
    {
        Self { phase: MigrationPhase::Stable }
    }

    /// Can the rigging learn new reflexes?
    pub fn can_learn(&self) -> (b: bool)
        ensures
            b == (self@ is Stable),
    {
        match self.phase {
            MigrationPhase::Stable => true,
            _ => false,
        }
    }

    /// Can the rigging update trust scores?
    pub fn can_update_trust(&self) -> (b: bool)
        ensures
            b == (self@ is Stable || self@ is Crossfading),
    {
        match self.phase {
            MigrationPhase::Stable | MigrationPhase::Crossfading { .. } => true,
            _ => false,
        }
    }

    /// Transition: Stable → Preparing, with the clock reading `now`.
    /// Guards: C1 (substance-accident), C3 (shape-asymmetry),
    ///         C4 (animacy), C6 (consent)
    pub fn begin_prepare_at(
        &mut self,
        nail: NailFile,
        partition: SubstanceAccidentPartition,
        shape_verb: ShapeVerb,
        initiator: MigrationInitiator,
        consent: ConsentRecord,
        now: u64,
    ) -> (r: Result<(), MigrationError>)
        ensures
            prepare_step(old(self)@, nail, partition, shape_verb, initiator, consent, now, final(self)@, r),
    {
        // C4: Animacy — shells cannot initiate migration
        if consent.consent_type == ConsentState::ShellInitiated {
            return Err(MigrationError::ConstraintViolation(C4_ANIMACY));
        }
        // C6: Consent required
        if consent.consent_type == ConsentState::Denied {
            return Err(MigrationError::ConstraintViolation(C6_CONSENT));
        }
        // C1: Substance ratio check — identity must be preserved
        if below_half(partition.substance_ratio_bits) {
            return Err(MigrationError::IdentityLoss { substance_ratio_bits: partition.substance_ratio_bits });
        }
        // The transition starts from Stable only.
        if !matches!(self.phase, MigrationPhase::Stable) {
            return Err(MigrationError::InvalidTransition(PREPARE_NEEDS_STABLE));
        }
        // C3: Shape verb must be determined (directional, not symmetric)
        self.phase = MigrationPhase::Preparing {
            nail_snapshot: nail,
            partition,
            shape_verb,
            initiator,
            consent,
            started_at_ms: now,
            timeout_ms: PREPARE_TIMEOUT_MS,
        };
        Ok(())
    }

    /// Transition: Stable → Preparing, at the current time.
    pub fn begin_prepare(
        &mut self,
        nail: NailFile,
        partition: SubstanceAccidentPartition,
        shape_verb: ShapeVerb,
        initiator: MigrationInitiator,
        consent: ConsentRecord,
    ) -> (r: Result<(), MigrationError>)
        ensures
            exists|now: u64|
                prepare_step(old(self)@, nail, partition, shape_verb, initiator, consent, now, final(self)@, r),
    {
        let now = now_ms();
        self.begin_prepare_at(nail, partition, shape_verb, initiator, consent, now)
    }

    /// Transition: Preparing → Crossfading, with the clock reading `now`.
    /// Guards: C2 (simultaneity — to be confirmed), C5 (pair-operation)
    pub fn begin_crossfade_at(
        &mut self,
        shell_pair: ShellPair,
        crossfade_duration_ms: u64,
        now: u64,
    ) -> (r: Result<(), MigrationError>)
        ensures
            crossfade_step(old(self)@, shell_pair, crossfade_duration_ms, now, final(self)@, r),
    {
        let nail = match &self.phase {
            MigrationPhase::Preparing { nail_snapshot, timeout_ms, started_at_ms, .. } => {
                let waited: u64 = if now >= *started_at_ms { now - *started_at_ms } else { 0 };
                if waited > *timeout_ms {
                    self.phase = MigrationPhase::Failed {
                        reason: MigrationFailureReason::PrepareTimeout,
                        rolled_back_at_ms: now,
                    };
                    return Err(MigrationError::Timeout(PREPARE_TIMEOUT_MSG));
                }
                *nail_snapshot
            },
            _ => {
                return Err(MigrationError::InvalidTransition(CROSSFADE_NEEDS_PREPARE));
            },
        };
        // C5: Pair operation — verify channel
        if shell_pair.channel_state == PairChannelState::Broken {
            return Err(MigrationError::ConstraintViolation(C5_PAIR));
        }
        // C2: Simultaneity will be verified during crossfade
        self.phase = MigrationPhase::Crossfading {
            nail_snapshot: nail,
            shell_pair,
            simultaneity_verified: false,
            crossfade_duration_ms,
            started_at_ms: now,
        };
        Ok(())
    }

    /// Transition: Preparing → Crossfading, at the current time.
    pub fn begin_crossfade(&mut self, shell_pair: ShellPair, crossfade_duration_ms: u64) -> (r: Result<(), MigrationError>)
        ensures
            exists|now: u64|
                crossfade_step(old(self)@, shell_pair, crossfade_duration_ms, now, final(self)@, r),
    {
        let now = now_ms();
        self.begin_crossfade_at(shell_pair, crossfade_duration_ms, now)
    }

    /// Confirm C2 (simultaneity) — both shells report active in the same tick
    pub fn confirm_simultaneity(&mut self) -> (r: Result<(), MigrationError>)
        ensures
            simultaneity_step(old(self)@, final(self)@, r),
    {
        match &mut self.phase {
            MigrationPhase::Crossfading { simultaneity_verified, .. } => {
                *simultaneity_verified = true;
                Ok(())
            },
            _ => Err(MigrationError::InvalidTransition(SIMULTANEITY_NEEDS_CROSSFADE)),
        }
    }

    /// Transition: Crossfading → Finalizing, with the clock reading `now`.
    /// Guard: C2 (simultaneity) must be confirmed
    pub fn begin_finalize_at(&mut self, now: u64) -> (r: Result<(), MigrationError>)
        ensures
            finalize_step(old(self)@, now, final(self)@, r),
    {
        match &self.phase {
            MigrationPhase::Crossfading {
                simultaneity_verified,
                crossfade_duration_ms,
                started_at_ms,
                ..
            } => {
                // C2: Simultaneity must be verified
                if !*simultaneity_verified {
                    return Err(MigrationError::ConstraintViolation(C2_SIMULTANEITY));
                }
                let waited: u64 = if now >= *started_at_ms { now - *started_at_ms } else { 0 };
                if (waited as u128) > 2 * (*crossfade_duration_ms as u128) {
                    self.phase = MigrationPhase::Failed {
                        reason: MigrationFailureReason::CrossfadeTimeout,
                        rolled_back_at_ms: now,
                    };
                    return Err(MigrationError::Timeout(CROSSFADE_TIMEOUT_MSG));
                }
            },
            _ => {
                return Err(MigrationError::InvalidTransition(FINALIZE_NEEDS_CROSSFADE));
            },
        }
        // C7: Differential verification will run during finalization
        let verification = DifferentialVerification {
            total_tested: 0,
            passed: 0,
            failed: Vec::new(),
            identity_failures: Vec::new(),
            rollback_recommended: false,
        };
        self.phase = MigrationPhase::Finalizing {
            verification,
            symbiont_transfer: SymbiontTransferStatus::Pending,
            rollback_retention_ms: ROLLBACK_RETENTION_MS,
            started_at_ms: now,
        };
        Ok(())
    }

    /// Transition: Crossfading → Finalizing, at the current time.
    pub fn begin_finalize(&mut self) -> (r: Result<(), MigrationError>)
        ensures
            exists|now: u64| finalize_step(old(self)@, now, final(self)@, r),
    {
        let now = now_ms();
        self.begin_finalize_at(now)
    }

    /// Transition: Finalizing → Finalized or Failed, with the clock at `now`.
    /// Guard: C7 (differential-verification) must pass
    pub fn complete_at(&mut self, verification: DifferentialVerification, now: u64) -> (r: Result<(), MigrationError>)
        ensures
            complete_step(old(self)@, verification, now, final(self)@, r),
    {
        if !matches!(self.phase, MigrationPhase::Finalizing { .. }) {
            return Err(MigrationError::InvalidTransition(COMPLETE_NEEDS_FINALIZE));
        }
        // C7: Differential verification
        if verification.rollback_recommended {
            self.phase = MigrationPhase::Failed {
                reason: MigrationFailureReason::VerificationFailed {
                    identity_failures: verification.identity_failures.len(),
                    total_identity: verification.total_tested,
                },
                rolled_back_at_ms: now,
            };
            return Err(MigrationError::ConstraintViolation(C7_VERIFICATION));
        }
        self.phase = MigrationPhase::Finalized {
            migrated_to: String::new(),
            rollback_deadline_ms: now.saturating_add(ROLLBACK_RETENTION_MS),
        };
        Ok(())
    }

    /// Transition: Finalizing → Finalized or Failed, at the current time.
    pub fn complete(&mut self, verification: DifferentialVerification) -> (r: Result<(), MigrationError>)
        ensures
            exists|now: u64| complete_step(old(self)@, verification, now, final(self)@, r),
    {
        let now = now_ms();
        self.complete_at(verification, now)
    }

    /// Emergency rollback from any phase, with the clock at `now`.
    pub fn rollback_at(&mut self, reason: MigrationFailureReason, now: u64)
        ensures
            final(self)@ == (MigrationPhase::Failed { reason, rolled_back_at_ms: now }),
    {
        self.phase = MigrationPhase::Failed { reason, rolled_back_at_ms: now };
    }

    /// Emergency rollback from any phase.
    pub fn rollback(&mut self, reason: MigrationFailureReason)
        ensures
            final(self)@ matches MigrationPhase::Failed { reason: r, .. } && r == reason,
    {
        let now = now_ms();
        self.rollback_at(reason, now);
    }

    /// Get current phase for inspection.
    pub fn phase(&self) -> (p: &MigrationPhase)
        ensures
            *p == self@,
    {
        &self.phase
    }
}

/// C4: a shell never initiates a migration — a shell-initiated PREPARE is
/// refused by C4, from any phase, and leaves the guard where it was.
pub proof fn law_shells_never_initiate(
    old: MigrationPhase,
    nail: NailFile,
    partition: SubstanceAccidentPartition,
    shape_verb: ShapeVerb,
    initiator: MigrationInitiator,
    consent: ConsentRecord,
    now: u64,
    new: MigrationPhase,
    r: Result<(), MigrationError>,
)
    requires
        consent.consent_type == ConsentState::ShellInitiated,
        prepare_step(old, nail, partition, shape_verb, initiator, consent, now, new, r),
    ensures
        r is Err,
        new == old,
        r == Err::<(), MigrationError>(MigrationError::ConstraintViolation(C4_ANIMACY)),
{
}

/// C1 and C6: a PREPARE that succeeds started from Stable, had consent that
/// was neither denied nor shell-initiated, and a substance ratio of at least
/// one half.
pub proof fn law_prepare_requires_consent_and_identity(
    old: MigrationPhase,
    nail: NailFile,
    partition: SubstanceAccidentPartition,
    shape_verb: ShapeVerb,
    initiator: MigrationInitiator,
    consent: ConsentRecord,
    now: u64,
    new: MigrationPhase,
    r: Result<(), MigrationError>,
)
    requires
        prepare_step(old, nail, partition, shape_verb, initiator, consent, now, new, r),
        r is Ok,
    ensures
        old is Stable,
        consent.consent_type != ConsentState::Denied,
        consent.consent_type != ConsentState::ShellInitiated,
        !f64_lt(partition.substance_ratio_bits, HALF_BITS),
        new is Preparing,
{
}

/// C5: a CROSSFADE that succeeds started from PREPARE over an unbroken
/// channel, and starts with simultaneity unconfirmed.
pub proof fn law_crossfade_requires_prepare(
    old: MigrationPhase,
    shell_pair: ShellPair,
    crossfade_duration_ms: u64,
    now: u64,
    new: MigrationPhase,
    r: Result<(), MigrationError>,
)
    requires
        crossfade_step(old, shell_pair, crossfade_duration_ms, now, new, r),
        r is Ok,
    ensures
        old is Preparing,
        shell_pair.channel_state != PairChannelState::Broken,
        new matches MigrationPhase::Crossfading { simultaneity_verified, .. } && !simultaneity_verified,
{
}

/// C2: FINALIZE succeeds only from a CROSSFADE whose simultaneity was
/// confirmed.
pub proof fn law_finalize_requires_simultaneity(
    old: MigrationPhase,
    now: u64,
    new: MigrationPhase,
    r: Result<(), MigrationError>,
)
    requires
        finalize_step(old, now, new, r),
        r is Ok,
    ensures
        old matches MigrationPhase::Crossfading { simultaneity_verified, .. } && simultaneity_verified,
        new is Finalizing,
{
}

/// C7: during FINALIZE, a verification that recommends rollback always
/// ends the migration in the Failed phase, with the count of identity
/// failures recorded.
pub proof fn law_failed_verification_rolls_back(
    old: MigrationPhase,
    verification: DifferentialVerification,
    now: u64,
    new: MigrationPhase,
    r: Result<(), MigrationError>,
)
    requires
        old is Finalizing,
        complete_step(old, verification, now, new, r),
        verification.rollback_recommended,
    ensures
        r is Err,
        new matches MigrationPhase::Failed { reason, .. } && reason
            == (MigrationFailureReason::VerificationFailed {
            identity_failures: verification.identity_failures@.len() as usize,
            total_identity: verification.total_tested,
        }),
{
}

/// A refused transition that is not a timeout leaves the phase unchanged,
/// except a COMPLETE refused by C7, which rolls the migration back.
pub proof fn law_refusals_keep_phase(
    old: MigrationPhase,
    nail: NailFile,
    partition: SubstanceAccidentPartition,
    shape_verb: ShapeVerb,
    initiator: MigrationInitiator,
    consent: ConsentRecord,
    new_p: MigrationPhase,
    r_p: Result<(), MigrationError>,
    verification: DifferentialVerification,
    new_v: MigrationPhase,
    r_v: Result<(), MigrationError>,
    shell_pair: ShellPair,
    crossfade_duration_ms: u64,
    now: u64,
    new_c: MigrationPhase,
    r_c: Result<(), MigrationError>,
    new_f: MigrationPhase,
    r_f: Result<(), MigrationError>,
    new_s: MigrationPhase,
    r_s: Result<(), MigrationError>,
)
    requires
        prepare_step(old, nail, partition, shape_verb, initiator, consent, now, new_p, r_p),
        complete_step(old, verification, now, new_v, r_v),
        crossfade_step(old, shell_pair, crossfade_duration_ms, now, new_c, r_c),
        finalize_step(old, now, new_f, r_f),
        simultaneity_step(old, new_s, r_s),
    ensures
        r_p is Err ==> new_p == old,
        r_v matches Err(MigrationError::InvalidTransition(_)) ==> new_v == old,
        r_c is Err && !(r_c matches Err(MigrationError::Timeout(_))) ==> new_c == old,
        r_f is Err && !(r_f matches Err(MigrationError::Timeout(_))) ==> new_f == old,
        r_s is Err ==> new_s == old,
{
}

} // verus!
