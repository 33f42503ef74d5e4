//! Article IV: Due Process for Constraint Failures

use vstd::prelude::*;
use crate::clock::{elapsed, now_ms};
use crate::governance::constitution::ConstraintId;
use crate::governance::consent::PartyId;
use crate::text::str_eq;

verus! {

/// A constraint failure notice (Step 1: Notice).
#[derive(Debug, Clone)]
pub struct ConstraintFailureNotice {
    pub constraint_id: ConstraintId,
    /// What was required (bit pattern of an `f64`)
    pub threshold_bits: u64,
    /// What was observed (bit pattern of an `f64`)
    pub actual_bits: u64,
    /// Human-readable explanation (§1.5: Right of Explanation)
    pub explanation: String,
    /// Seconds until appeal deadline (default: 60)
    pub appeal_deadline_secs: u64,
    /// Actions the agent can take to remedy the failure
    pub remediation_options: Vec<RemediationOption>,
}

/// Actions the agent can take to potentially satisfy the constraint.
#[derive(Debug, Clone)]
pub enum RemediationOption {
    /// Re-measure the constraint (e.g., re-probe shell capabilities)
    ReMeasure { description: String },
    /// Reduce the adaptation ratio (bit pattern of an `f64`)
    ReduceAdaptation { target_ratio_bits: u64 },
    /// Re-embed reflexes from trigger_text (addresses version skew)
    ReEmbedReflexes,
    /// Request explicit User consent for an exception
    RequestExplicitConsent,
}

/// Grounds for appealing a constraint failure.
#[derive(Debug, Clone, Copy, PartialEq, Eq, Structural)]
pub enum AppealGround {
    /// The constraint was measured incorrectly
    IncorrectMeasurement,
    /// The threshold is too strict for this context
    IncorrectThreshold,
    /// C1 misclassified identity-significant state as accident
    SubstanceAccidentError,
    /// The agent's context makes the constraint inapplicable
    ContextualOverride,
    /// A previous Consent Court decision would allow this
    PrecedentConflict,
}

/// Relief requested from the Consent Court.
#[derive(Debug, Clone, Copy, PartialEq, Eq, Structural)]
pub enum Relief {
    /// Allow the migration despite the constraint failure
    AllowMigration,
    /// Reduce the threshold for this specific case
    ReduceThreshold,
    /// Re-measure and re-evaluate with better data
    ReMeasureAndEvaluate,
    /// Allow with additional conditions
    ConditionalAllow,
}

/// A due process appeal (Step 2: Appeal).
#[derive(Debug, Clone)]
pub struct ConstraintAppeal {
    pub notice: ConstraintFailureNotice,
    /// Who is filing the appeal
    pub appellant: PartyId,
    /// Legal grounds for the appeal
    pub grounds: AppealGround,
    /// Evidence supporting the appeal
    pub evidence: Vec<String>,
    /// What relief the appellant seeks
    pub requested_relief: Relief,
    /// When the appeal was filed (ms)
    pub filed_at_ms: u64,
}

/// One appeal on record.
#[derive(Debug, Clone)]
pub struct AppealRecord {
    pub appellant: String,
    pub constraint_id: ConstraintId,
    /// When the appeal was filed (ms)
    pub filed_at_ms: u64,
}

/// Default number of appeals allowed per window.
pub const MAX_APPEALS: usize = 3;

/// Default window length (s).
pub const APPEAL_WINDOW_SECS: u64 = 300;

/// An appeal filed at `filed` still counts at `now`: it is less than
/// `window_secs` whole seconds old.
pub open spec fn in_window(filed: u64, now: u64, window_secs: u64) -> bool {
    elapsed(filed, now) / 1000 < window_secs
}

/// How many appeals on record by `appellant` against `constraint` still
/// count at `now`.
pub open spec fn recent_appeals(
    log: Seq<AppealRecord>,
    appellant: Seq<char>,
    constraint: ConstraintId,
    now: u64,
    window_secs: u64,
) -> nat
    decreases log.len(),
{
    if log.len() == 0 {
        0
    } else {
        let r = log.last();
        recent_appeals(log.drop_last(), appellant, constraint, now, window_secs) + if r.appellant@ == appellant
            && r.constraint_id == constraint && in_window(r.filed_at_ms, now, window_secs) {
            1nat
        } else {
            0nat
        }
    }
}

/// Anti-abuse: appeal rate limiter.
/// Maximum 3 appeals per 5-minute window per appellant per constraint.
#[derive(Debug, Clone)]
pub struct AppealRateLimiter {
    /// Appeals filed, in filing order
    appeals: Vec<AppealRecord>,
    /// Maximum appeals per window
    max_appeals: usize,
    /// Window duration in seconds
    window_secs: u64,
}

impl Default for AppealRateLimiter {
    /// A limiter with no appeals on record.
    fn default() -> (l: Self)
        ensures
            l.wf(),
            l.log().len() == 0,
            l.limit() == 3,
            l.window() == 300,
    {
        Self::new()
    }
}

impl AppealRateLimiter {
    /// The limiter is well formed: its window is not empty.  Constructors
    /// establish this and recording keeps it.
    pub closed spec fn wf(&self) -> bool {
        self.window_secs > 0
    }

    /// The appeals on record.
    pub closed spec fn log(&self) -> Seq<AppealRecord> {
        self.appeals@
    }

    /// Maximum appeals per window.
    pub closed spec fn limit(&self) -> nat {
        self.max_appeals as nat
    }

    /// Window length in seconds.
    pub closed spec fn window(&self) -> u64 {
        self.window_secs
    }

    /// A limiter with no appeals on record: 3 appeals per 5 minutes.
    pub fn new() -> (l: Self)
        ensures
            l.wf(),
            l.log().len() == 0,
            l.limit() == 3,
            l.window() == 300,
    {
        Self { appeals: Vec::new(), max_appeals: MAX_APPEALS, window_secs: APPEAL_WINDOW_SECS }
    }

    /// Whether an appeal is allowed under the rate limit at `now`.
    pub fn may_appeal_at(&self, appellant: &str, constraint_id: ConstraintId, now: u64) -> (b: bool)
        ensures
            b == (recent_appeals(self.log(), appellant@, constraint_id, now, self.window()) < self.limit()),
    {
        let mut count: usize = 0;
        let mut i: usize = 0;
        let ghost log = self.appeals@;
        while i < self.appeals.len()
            invariant
                log == self.appeals@,
                i <= log.len(),
                count <= i,
                count == recent_appeals(log.take(i as int), appellant@, constraint_id, now, self.window_secs),
            decreases self.appeals.len() - i,
        {
            let r = &self.appeals[i];
            proof {
                assert(log.take(i + 1).drop_last() =~= log.take(i as int));
            }
            let waited: u64 = if now >= r.filed_at_ms { now - r.filed_at_ms } else { 0 };
            if r.constraint_id == constraint_id && waited / 1000 < self.window_secs && str_eq(
                r.appellant.as_str(),
                appellant,
            ) {
                count += 1;
            }
            i += 1;
        }
        assert(log.take(log.len() as int) =~= log);
        count < self.max_appeals
    }

    /// Check whether an appeal is allowed under the rate limit now.
    pub fn may_appeal(&self, appellant: &str, constraint_id: ConstraintId) -> (b: bool)
        ensures
            exists|now: u64| b == (recent_appeals(self.log(), appellant@, constraint_id, now, self.window()) < self.limit()),
    {
        let now = now_ms();
        self.may_appeal_at(appellant, constraint_id, now)
    }

    /// Record that an appeal was filed at `now`.  Seen at `now`, the appeals
    /// that count go up by one for this appellant and constraint and stay
    /// as they were for every other pair.
    pub fn record_appeal_at(&mut self, appellant: &str, constraint_id: ConstraintId, now: u64)
        requires
            old(self).wf(),
        ensures
            final(self).wf(),
            final(self).log().len() == old(self).log().len() + 1,
            final(self).log().drop_last() == old(self).log(),
            final(self).log().last().appellant@ == appellant@,
            final(self).log().last().constraint_id == constraint_id,
            final(self).log().last().filed_at_ms == now,
            final(self).limit() == old(self).limit(),
            final(self).window() == old(self).window(),
            forall|a: Seq<char>, c: ConstraintId|
                #[trigger] recent_appeals(final(self).log(), a, c, now, final(self).window()) == recent_appeals(
                    old(self).log(),
                    a,
                    c,
                    now,
                    old(self).window(),
                ) + if a == appellant@ && c == constraint_id {
                    1nat
                } else {
                    0nat
                },
    {
        let rec = AppealRecord {
            appellant: appellant.to_string(),
            constraint_id,
            filed_at_ms: now,
        };
        let ghost log0 = self.appeals@;
        self.appeals.push(rec);
        assert(self.appeals@.drop_last() =~= old(self).appeals@);
        proof {
            assert(self.appeals@ == log0.push(rec));
            assert forall|a: Seq<char>, c: ConstraintId|
                #[trigger] recent_appeals(self.appeals@, a, c, now, self.window_secs) == recent_appeals(
                    log0,
                    a,
                    c,
                    now,
                    self.window_secs,
                ) + if a == appellant@ && c == constraint_id {
                    1nat
                } else {
                    0nat
                } by {
                lemma_record_counts(log0, rec, a, c, now, self.window_secs);
            }
        }
    }

    /// Record that an appeal was filed, at the current time; seen at that
    /// time, the count of this appellant and constraint goes up by one and
    /// no other pair's count changes.
    pub fn record_appeal(&mut self, appellant: &str, constraint_id: ConstraintId)
        requires
            old(self).wf(),
        ensures
            final(self).wf(),
            final(self).log().len() == old(self).log().len() + 1,
            final(self).log().drop_last() == old(self).log(),
            final(self).log().last().appellant@ == appellant@,
            final(self).log().last().constraint_id == constraint_id,
            final(self).limit() == old(self).limit(),
            final(self).window() == old(self).window(),
            forall|a: Seq<char>, c: ConstraintId|
                #[trigger] recent_appeals(final(self).log(), a, c, final(self).log().last().filed_at_ms, final(self).window())
                    == recent_appeals(old(self).log(), a, c, final(self).log().last().filed_at_ms, old(self).window())
                    + if a == appellant@ && c == constraint_id {
                    1nat
                } else {
                    0nat
                },
    {
        let now = now_ms();
        self.record_appeal_at(appellant, constraint_id, now);
    }
}

/// Recording an appeal at `now` adds one to the appeals that count at `now`
/// for that appellant and constraint, and none to any other pair.
pub proof fn lemma_record_counts(
    log: Seq<AppealRecord>,
    rec: AppealRecord,
    appellant: Seq<char>,
    constraint: ConstraintId,
    now: u64,
    window_secs: u64,
)
    requires
        window_secs > 0,
        rec.filed_at_ms == now,
    ensures
        recent_appeals(log.push(rec), appellant, constraint, now, window_secs) == recent_appeals(
            log,
            appellant,
            constraint,
            now,
            window_secs,
        ) + if rec.appellant@ == appellant && rec.constraint_id == constraint {
            1nat
        } else {
            0nat
        },
{
    assert(log.push(rec).drop_last() =~= log);
}

/// Three appeals recorded at the same moment exhaust the default limit.
pub proof fn law_three_appeals_exhaust_limit(
    log: Seq<AppealRecord>,
    r1: AppealRecord,
    r2: AppealRecord,
    r3: AppealRecord,
    now: u64,
)
    requires
        r1.filed_at_ms == now,
        r2.filed_at_ms == now,
        r3.filed_at_ms == now,
        r1.appellant@ == r2.appellant@,
        r2.appellant@ == r3.appellant@,
        r1.constraint_id == r2.constraint_id,
        r2.constraint_id == r3.constraint_id,
    ensures
        !(recent_appeals(log.push(r1).push(r2).push(r3), r1.appellant@, r1.constraint_id, now, APPEAL_WINDOW_SECS)
            < MAX_APPEALS),
{
    lemma_record_counts(log, r1, r1.appellant@, r1.constraint_id, now, APPEAL_WINDOW_SECS);
    lemma_record_counts(log.push(r1), r2, r1.appellant@, r1.constraint_id, now, APPEAL_WINDOW_SECS);
    lemma_record_counts(log.push(r1).push(r2), r3, r1.appellant@, r1.constraint_id, now, APPEAL_WINDOW_SECS);
}

} // verus!
