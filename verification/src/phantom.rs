//! Phantom capability detection: measures embodiment lag after migration.
//!
//! When a rigging migrates to a new shell, its body schema may not
//! immediately update: the agent may attempt to use capabilities that
//! existed on the old shell but not on the new one — a computational
//! phantom limb.  The detector records such events, tells when the body
//! schema has adapted, and bins the events into one-minute intervals.
//!
//! Times are whole seconds since the migration.

use vstd::prelude::*;
use vstd::string::StringExecFns;

verus! {

/// A set of capabilities for a shell.
#[derive(Debug, Clone)]
pub struct CapabilitySet {
    pub has_gpu: bool,
    pub gpu_sm_count: usize,
    pub available_ram_mb: u64,
    pub max_model_mb: u64,
    pub max_concurrent: usize,
    pub shell_species: String,
}

/// A phantom capability event: the agent attempted to use a capability
/// that doesn't exist on the current shell.
#[derive(Debug, Clone)]
pub struct PhantomEvent {
    /// The reflex that attempted a phantom capability
    pub reflex_id: String,
    /// The capability that was expected but unavailable
    pub expected_capability: String,
    /// The actual capability available
    pub actual_capability: String,
    /// Time since migration (seconds)
    pub time_since_migration_s: u64,
    /// Whether the reflex adapted or failed
    pub outcome: PhantomOutcome,
}

/// Outcome of a phantom capability event.
#[derive(Debug, Clone, Copy, PartialEq, Eq, Structural)]
pub enum PhantomOutcome {
    /// Reflex adapted: found an alternative execution path
    Adapted,
    /// Reflex degraded: executed but with reduced quality
    Degraded,
    /// Reflex failed: could not execute without the capability
    Failed,
}

/// A bin in the adaptation curve: one minute of time since migration.
#[derive(Debug, Clone, Copy)]
pub struct AdaptationBin {
    pub time_range_s: (u64, u64),
    pub phantom_count: usize,
    pub adapted_count: usize,
    pub degraded_count: usize,
    pub failed_count: usize,
}

/// Difference in capabilities between old and new shell.
#[derive(Debug, Clone, Copy)]
pub struct CapabilityDelta {
    pub gpu_gained: bool,
    pub gpu_lost: bool,
    pub ram_gained_mb: i64,
    pub concurrency_gained: i64,
}

/// Detector for phantom capability events after migration.
#[derive(Debug, Clone)]
pub struct PhantomCapabilityDetector {
    /// Capabilities of the previous shell
    previous_capabilities: CapabilitySet,
    /// Current shell's capabilities
    current_capabilities: CapabilitySet,
    /// Detected phantom capability events
    phantoms: Vec<PhantomEvent>,
    /// When the migration occurred
    migration_time: u64,
    /// Whether the body schema has fully adapted
    adapted: bool,
}

/// Width of an adaptation bin, in seconds.
pub const BIN_SECONDS: u64 = 60;

/// Phantom events this recent keep the body schema unadapted (seconds).
pub const ADAPTATION_WINDOW_S: u64 = 300;

/// The decimal digits of `n`, most significant first, without leading zeros.
pub open spec fn decimal(n: nat) -> Seq<char>
    decreases n,
{
    if n < 10 {
        seq![(48 + n) as char]
    } else {
        decimal(n / 10).push((48 + n % 10) as char)
    }
}

/// The one-character string of a decimal digit.
fn digit_str(d: u64) -> (s: &'static str)
    requires
        d < 10,
    ensures
        s@ == seq![(48 + d) as char],
{
    proof {
        reveal_strlit("0");
        reveal_strlit("1");
        reveal_strlit("2");
        reveal_strlit("3");
        reveal_strlit("4");
        reveal_strlit("5");
        reveal_strlit("6");
        reveal_strlit("7");
        reveal_strlit("8");
        reveal_strlit("9");
    }
    match d {
        0 => "0",
        1 => "1",
        2 => "2",
        3 => "3",
        4 => "4",
        5 => "5",
        6 => "6",
        7 => "7",
        8 => "8",
        _ => "9",
    }
}

/// The decimal digits of `n`.
fn decimal_string(n: u64) -> (s: String)
    ensures
        s@ == decimal(n as nat),
    decreases n,
{
    if n < 10 {
        digit_str(n).to_owned()
    } else {
        let head = decimal_string(n / 10);
        let r = head.concat(digit_str(n % 10));
        assert(r@ =~= decimal(n as nat));
        r
    }
}

/// A capability label: `prefix`, the amount in decimal, `unit`.
fn capability_label(prefix: &str, amount: u64, unit: &str) -> (s: String)
    ensures
        s@ == prefix@ + decimal(amount as nat) + unit@,
{
    let digits = decimal_string(amount);
    prefix.to_owned().concat(digits.as_str()).concat(unit)
}

/// The outcome a reflex run reports: adapted when it succeeded cleanly,
/// degraded when it ran degraded, failed otherwise.
pub open spec fn outcome_of(exit_code: i32, degraded: bool) -> PhantomOutcome {
    if exit_code == 0 && !degraded {
        PhantomOutcome::Adapted
    } else if degraded {
        PhantomOutcome::Degraded
    } else {
        PhantomOutcome::Failed
    }
}

/// `e` is the event with these fields.
pub open spec fn is_event(
    e: PhantomEvent,
    reflex_id: Seq<char>,
    expected: Seq<char>,
    actual: Seq<char>,
    t: int,
    outcome: PhantomOutcome,
) -> bool {
    &&& e.reflex_id@ == reflex_id
    &&& e.expected_capability@ == expected
    &&& e.actual_capability@ == actual
    &&& e.time_since_migration_s == t
    &&& e.outcome == outcome
}

/// The latest time since migration among the events (0 for none).
pub open spec fn latest(ps: Seq<PhantomEvent>) -> nat
    decreases ps.len(),
{
    if ps.len() == 0 {
        0
    } else {
        let rest = latest(ps.drop_last());
        if ps.last().time_since_migration_s > rest {
            ps.last().time_since_migration_s as nat
        } else {
            rest
        }
    }
}

/// How many events fall in bin `b` (and, when `o` is given, have outcome `o`).
pub open spec fn in_bin(ps: Seq<PhantomEvent>, b: int, o: Option<PhantomOutcome>) -> nat
    decreases ps.len(),
{
    if ps.len() == 0 {
        0
    } else {
        let e = ps.last();
        let hit = e.time_since_migration_s / BIN_SECONDS == b && (o is None || o == Some(e.outcome));
        in_bin(ps.drop_last(), b, o) + if hit {
            1nat
        } else {
            0nat
        }
    }
}

/// How many events happened later than `elapsed - 300` seconds.
pub open spec fn recent(ps: Seq<PhantomEvent>, elapsed: int) -> nat
    decreases ps.len(),
{
    if ps.len() == 0 {
        0
    } else {
        recent(ps.drop_last(), elapsed) + if ps.last().time_since_migration_s + ADAPTATION_WINDOW_S > elapsed {
            1nat
        } else {
            0nat
        }
    }
}

/// The number of bins of the adaptation curve: enough one-minute bins to
/// reach the latest event, plus one.
pub open spec fn bin_count(ps: Seq<PhantomEvent>) -> nat {
    let m = latest(ps);
    (m / 60 + if m % 60 != 0 {
        1nat
    } else {
        0nat
    } + 1) as nat
}

/// A `u64` as an `i64` the way `as` converts it (wrapping above `i64::MAX`).
pub open spec fn wrap_i64(x: u64) -> int {
    if x <= i64::MAX {
        x as int
    } else {
        x - 0x1_0000_0000_0000_0000
    }
}

/// A `usize` as an `i64` the way `as` converts it.
pub open spec fn wrap_usize_i64(x: usize) -> int {
    if x <= i64::MAX {
        x as int
    } else {
        x - 0x1_0000_0000_0000_0000
    }
}

proof fn lemma_latest_bounds(ps: Seq<PhantomEvent>)
    ensures
        forall|i: int| 0 <= i < ps.len() ==> #[trigger] ps[i].time_since_migration_s <= latest(ps),
        latest(ps) <= u64::MAX,
    decreases ps.len(),
{
    if ps.len() > 0 {
        lemma_latest_bounds(ps.drop_last());
        assert forall|i: int| 0 <= i < ps.len() implies #[trigger] ps[i].time_since_migration_s <= latest(ps) by {
            if i < ps.len() - 1 {
                assert(ps[i] == ps.drop_last()[i]);
            }
        }
    }
}

proof fn lemma_in_bin_le_len(ps: Seq<PhantomEvent>, b: int, o: Option<PhantomOutcome>)
    ensures
        in_bin(ps, b, o) <= ps.len(),
    decreases ps.len(),
{
    if ps.len() > 0 {
        lemma_in_bin_le_len(ps.drop_last(), b, o);
    }
}

proof fn lemma_in_bin_outside(ps: Seq<PhantomEvent>, b: int, o: Option<PhantomOutcome>)
    requires
        b * 60 > latest(ps),
    ensures
        in_bin(ps, b, o) == 0,
    decreases ps.len(),
{
    if ps.len() > 0 {
        lemma_latest_bounds(ps);
        assert(latest(ps.drop_last()) <= latest(ps));
        lemma_in_bin_outside(ps.drop_last(), b, o);
    }
}

impl PhantomCapabilityDetector {
    /// The capabilities of the previous shell.
    pub closed spec fn previous(&self) -> CapabilitySet {
        self.previous_capabilities
    }

    /// The capabilities of the current shell.
    pub closed spec fn current(&self) -> CapabilitySet {
        self.current_capabilities
    }

    /// The events recorded so far, oldest first.
    pub closed spec fn events(&self) -> Seq<PhantomEvent> {
        self.phantoms@
    }

    /// When the migration occurred (epoch seconds).
    pub closed spec fn migrated_at(&self) -> u64 {
        self.migration_time
    }

    /// Whether the body schema is marked as adapted.
    pub closed spec fn adapted_flag(&self) -> bool {
        self.adapted
    }

    /// Create a new detector after migration: no events, not adapted.
    pub fn new(previous: CapabilitySet, current: CapabilitySet, migration_time: u64) -> (d: Self)
        ensures
            d.previous() == previous,
            d.current() == current,
            d.events() == Seq::<PhantomEvent>::empty(),
            d.migrated_at() == migration_time,
            !d.adapted_flag(),
    {
        Self {
            previous_capabilities: previous,
            current_capabilities: current,
            phantoms: Vec::new(),
            migration_time,
            adapted: false,
        }
    }

    /// Detect a phantom capability from a reflex execution at epoch second
    /// `now`.  A GPU phantom (the reflex needs a GPU the shell lacks) is
    /// checked first, then a RAM phantom (it needs more RAM than the shell
    /// has); the event is recorded and returned.  Otherwise nothing is
    /// recorded and `None` comes back.
    pub fn detect(
        &mut self,
        reflex_id: &str,
        required_gpu: bool,
        required_ram_mb: u64,
        exit_code: i32,
        degraded: bool,
        now: u64,
    ) -> (r: Option<&PhantomEvent>)
        requires
            now >= old(self).migrated_at(),
        ensures
            final(self).previous() == old(self).previous(),
            final(self).current() == old(self).current(),
            final(self).migrated_at() == old(self).migrated_at(),
            final(self).adapted_flag() == old(self).adapted_flag(),
            required_gpu && !old(self).current().has_gpu ==> {
                &&& final(self).events().len() == old(self).events().len() + 1
                &&& final(self).events().drop_last() == old(self).events()
                &&& is_event(
                    final(self).events().last(),
                    reflex_id@,
                    "gpu_"@ + decimal(old(self).previous().gpu_sm_count as nat) + "sm"@,
                    "none"@,
                    now - old(self).migrated_at(),
                    outcome_of(exit_code, degraded),
                )
                &&& r == Some(&final(self).events().last())
            },
            !(required_gpu && !old(self).current().has_gpu) && required_ram_mb
                > old(self).current().available_ram_mb ==> {
                &&& final(self).events().len() == old(self).events().len() + 1
                &&& final(self).events().drop_last() == old(self).events()
                &&& is_event(
                    final(self).events().last(),
                    reflex_id@,
                    "ram_"@ + decimal(required_ram_mb as nat) + "mb"@,
                    "ram_"@ + decimal(old(self).current().available_ram_mb as nat) + "mb"@,
                    now - old(self).migrated_at(),
                    outcome_of(exit_code, degraded),
                )
                &&& r == Some(&final(self).events().last())
            },
            !(required_gpu && !old(self).current().has_gpu) && required_ram_mb
                <= old(self).current().available_ram_mb ==> {
                &&& final(self).events() == old(self).events()
                &&& r is None
            },
    {
        let time_since = now - self.migration_time;
        let outcome = if exit_code == 0 && !degraded {
            PhantomOutcome::Adapted
        } else if degraded {
            PhantomOutcome::Degraded
        } else {
            PhantomOutcome::Failed
        };
        if required_gpu && !self.current_capabilities.has_gpu {
            let event = PhantomEvent {
                reflex_id: reflex_id.to_owned(),
                expected_capability: capability_label("gpu_", self.previous_capabilities.gpu_sm_count as u64, "sm"),
                actual_capability: "none".to_owned(),
                time_since_migration_s: time_since,
                outcome,
            };
            self.phantoms.push(event);
            let last = self.phantoms.len() - 1;
            return Some(&self.phantoms[last]);
        }
        if required_ram_mb > self.current_capabilities.available_ram_mb {
            let event = PhantomEvent {
                reflex_id: reflex_id.to_owned(),
                expected_capability: capability_label("ram_", required_ram_mb, "mb"),
                actual_capability: capability_label("ram_", self.current_capabilities.available_ram_mb, "mb"),
                time_since_migration_s: time_since,
                outcome,
            };
            self.phantoms.push(event);
            let last = self.phantoms.len() - 1;
            return Some(&self.phantoms[last]);
        }
        None
    }

    /// Whether the body schema has fully adapted.
    pub fn is_adapted(&self) -> (b: bool)
        ensures
            b == self.adapted_flag(),
    {
        self.adapted
    }

    /// Update adaptation status at epoch second `now`: the body schema is
    /// adapted when there have been phantom events, but none in the last
    /// five minutes of operation.
    pub fn update_adaptation(&mut self, now: u64)
        requires
            now >= old(self).migrated_at(),
        ensures
            final(self).previous() == old(self).previous(),
            final(self).current() == old(self).current(),
            final(self).events() == old(self).events(),
            final(self).migrated_at() == old(self).migrated_at(),
            final(self).adapted_flag() == (recent(old(self).events(), now - old(self).migrated_at()) == 0
                && old(self).events().len() > 0),
    {
        let elapsed = now - self.migration_time;
        let mut count: usize = 0;
        let mut i: usize = 0;
        let ghost ps = self.phantoms@;
        while i < self.phantoms.len()
            invariant
                ps == self.phantoms@,
                i <= ps.len(),
                count <= i,
                count == recent(ps.take(i as int), elapsed as int),
            decreases ps.len() - i,
        {
            proof {
                assert(ps.take(i + 1).drop_last() =~= ps.take(i as int));
            }
            let t = self.phantoms[i].time_since_migration_s;
            if t as u128 + ADAPTATION_WINDOW_S as u128 > elapsed as u128 {
                count += 1;
            }
            i += 1;
        }
        proof {
            assert(ps.take(ps.len() as int) =~= ps);
        }
        self.adapted = count == 0 && self.phantoms.len() > 0;
    }

    /// The adaptation curve: phantom counts per one-minute bin since the
    /// migration, by outcome; empty when there are no events.
    pub fn adaptation_curve(&self) -> (bins: Vec<AdaptationBin>)
        requires
            bin_count(self.events()) * 48 <= isize::MAX,
        ensures
            self.events().len() == 0 ==> bins@.len() == 0,
            self.events().len() > 0 ==> bins@.len() == bin_count(self.events()),
            forall|i: int|
                0 <= i < bins@.len() ==> {
                    &&& (#[trigger] bins@[i]).time_range_s.0 == 60 * i
                    &&& bins@[i].time_range_s.1 == 60 * (i + 1)
                    &&& bins@[i].phantom_count == in_bin(self.events(), i, None)
                    &&& bins@[i].adapted_count == in_bin(self.events(), i, Some(PhantomOutcome::Adapted))
                    &&& bins@[i].degraded_count == in_bin(self.events(), i, Some(PhantomOutcome::Degraded))
                    &&& bins@[i].failed_count == in_bin(self.events(), i, Some(PhantomOutcome::Failed))
                },
    {
        let mut bins: Vec<AdaptationBin> = Vec::new();
        if self.phantoms.len() == 0 {
            return bins;
        }
        let ghost ps = self.phantoms@;
        let mut max_time: u64 = 0;
        let mut k: usize = 0;
        while k < self.phantoms.len()
            invariant
                ps == self.phantoms@,
                k <= ps.len(),
                max_time == latest(ps.take(k as int)),
            decreases ps.len() - k,
        {
            proof {
                assert(ps.take(k + 1).drop_last() =~= ps.take(k as int));
            }
            let t = self.phantoms[k].time_since_migration_s;
            if t > max_time {
                max_time = t;
            }
            k += 1;
        }
        proof {
            assert(ps.take(ps.len() as int) =~= ps);
            lemma_latest_bounds(ps);
        }
        let num_bins: u64 = max_time / BIN_SECONDS + if max_time % BIN_SECONDS != 0 { 1 } else { 0 } + 1;
        let mut b: u64 = 0;
        while b < num_bins
            invariant
                num_bins == bin_count(ps),
                num_bins * 48 <= isize::MAX,
                b <= num_bins,
                bins@.len() == b,
                forall|i: int|
                    0 <= i < b ==> {
                        &&& (#[trigger] bins@[i]).time_range_s.0 == 60 * i
                    &&& bins@[i].time_range_s.1 == 60 * (i + 1)
                        &&& bins@[i].phantom_count == 0
                        &&& bins@[i].adapted_count == 0
                        &&& bins@[i].degraded_count == 0
                        &&& bins@[i].failed_count == 0
                    },
            decreases num_bins - b,
        {
            bins.push(
                AdaptationBin {
                    time_range_s: (b * BIN_SECONDS, (b + 1) * BIN_SECONDS),
                    phantom_count: 0,
                    adapted_count: 0,
                    degraded_count: 0,
                    failed_count: 0,
                },
            );
            b += 1;
        }
        let mut j: usize = 0;
        while j < self.phantoms.len()
            invariant
                ps == self.phantoms@,
                j <= ps.len(),
                bins@.len() == bin_count(ps),
                max_time == latest(ps),
                forall|i: int| 0 <= i < ps.len() ==> #[trigger] ps[i].time_since_migration_s <= latest(ps),
                forall|i: int|
                    0 <= i < bins@.len() ==> {
                        &&& (#[trigger] bins@[i]).time_range_s.0 == 60 * i
                    &&& bins@[i].time_range_s.1 == 60 * (i + 1)
                        &&& bins@[i].phantom_count == in_bin(ps.take(j as int), i, None)
                        &&& bins@[i].adapted_count == in_bin(ps.take(j as int), i, Some(PhantomOutcome::Adapted))
                        &&& bins@[i].degraded_count == in_bin(ps.take(j as int), i, Some(PhantomOutcome::Degraded))
                        &&& bins@[i].failed_count == in_bin(ps.take(j as int), i, Some(PhantomOutcome::Failed))
                    },
            decreases ps.len() - j,
        {
            let ghost before = ps.take(j as int);
            proof {
                assert(ps.take(j + 1).drop_last() =~= before);
                assert(ps.take(j + 1).last() == ps[j as int]);
            }
            let t = self.phantoms[j].time_since_migration_s;
            proof {
                assert(t <= latest(ps));
                assert(t / 60 < bin_count(ps)) by (nonlinear_arith)
                    requires
                        t <= latest(ps),
                        bin_count(ps) == latest(ps) / 60 + (if latest(ps) % 60 != 0 { 1nat } else { 0nat }) + 1,
                ;
            }
            let n_bins = bins.len();
            assert(t / 60 < n_bins);
            let idx: usize = (t / BIN_SECONDS) as usize;
            let ghost old_bins = bins@;
            let outcome = self.phantoms[j].outcome;
            proof {
                lemma_in_bin_le_len(before, idx as int, None);
                lemma_in_bin_le_len(before, idx as int, Some(PhantomOutcome::Adapted));
                lemma_in_bin_le_len(before, idx as int, Some(PhantomOutcome::Degraded));
                lemma_in_bin_le_len(before, idx as int, Some(PhantomOutcome::Failed));
            }
            let mut bin = bins[idx];
            bin.phantom_count = bin.phantom_count + 1;
            match outcome {
                PhantomOutcome::Adapted => bin.adapted_count = bin.adapted_count + 1,
                PhantomOutcome::Degraded => bin.degraded_count = bin.degraded_count + 1,
                PhantomOutcome::Failed => bin.failed_count = bin.failed_count + 1,
            }
            bins.set(idx, bin);
            proof {
                let now_seq = ps.take(j + 1);
                assert forall|i: int| 0 <= i < bins@.len() implies {
                    &&& (#[trigger] bins@[i]).time_range_s.0 == 60 * i
                    &&& bins@[i].time_range_s.1 == 60 * (i + 1)
                    &&& bins@[i].phantom_count == in_bin(now_seq, i, None)
                    &&& bins@[i].adapted_count == in_bin(now_seq, i, Some(PhantomOutcome::Adapted))
                    &&& bins@[i].degraded_count == in_bin(now_seq, i, Some(PhantomOutcome::Degraded))
                    &&& bins@[i].failed_count == in_bin(now_seq, i, Some(PhantomOutcome::Failed))
                } by {
                    if i != idx as int {
                        assert(bins@[i] == old_bins[i]);
                    }
                    assert(now_seq.drop_last() == before);
                    assert(now_seq.last() == ps[j as int]);
                    assert(in_bin(now_seq, i, None) == in_bin(before, i, None) + if t / 60 == i { 1nat } else { 0nat });
                }
            }
            j += 1;
        }
        proof {
            assert(ps.take(ps.len() as int) =~= ps);
        }
        bins
    }

    /// All detected phantom events.
    pub fn phantoms(&self) -> (ps: &[PhantomEvent])
        ensures
            ps@ == self.events(),
    {
        self.phantoms.as_slice()
    }

    /// The differences in capabilities between the old and the new shell.
    /// The RAM and concurrency differences are taken between the values
    /// converted to `i64`, which must not overflow.
    pub fn capability_delta(&self) -> (d: CapabilityDelta)
        requires
            i64::MIN <= wrap_i64(self.current().available_ram_mb) - wrap_i64(self.previous().available_ram_mb)
                <= i64::MAX,
            i64::MIN <= wrap_usize_i64(self.current().max_concurrent) - wrap_usize_i64(
                self.previous().max_concurrent,
            ) <= i64::MAX,
        ensures
            d.gpu_gained == (!self.previous().has_gpu && self.current().has_gpu),
            d.gpu_lost == (self.previous().has_gpu && !self.current().has_gpu),
            d.ram_gained_mb == wrap_i64(self.current().available_ram_mb) - wrap_i64(
                self.previous().available_ram_mb,
            ),
            d.concurrency_gained == wrap_usize_i64(self.current().max_concurrent) - wrap_usize_i64(
                self.previous().max_concurrent,
            ),
    {
        let cur_ram = self.current_capabilities.available_ram_mb;
        let prev_ram = self.previous_capabilities.available_ram_mb;
        let cur_con = self.current_capabilities.max_concurrent;
        let prev_con = self.previous_capabilities.max_concurrent;
        assert(cur_ram as i64 == wrap_i64(cur_ram)) by (bit_vector);
        assert(prev_ram as i64 == wrap_i64(prev_ram)) by (bit_vector);
        assert(cur_con as i64 == wrap_usize_i64(cur_con)) by (bit_vector);
        assert(prev_con as i64 == wrap_usize_i64(prev_con)) by (bit_vector);
        CapabilityDelta {
            gpu_gained: !self.previous_capabilities.has_gpu && self.current_capabilities.has_gpu,
            gpu_lost: self.previous_capabilities.has_gpu && !self.current_capabilities.has_gpu,
            ram_gained_mb: cur_ram as i64 - prev_ram as i64,
            concurrency_gained: cur_con as i64 - prev_con as i64,
        }
    }
}

/// Every event of a bin is adapted, degraded or failed: a bin's outcome
/// counts add up to its event count.
pub proof fn law_bin_outcomes_add_up(ps: Seq<PhantomEvent>, b: int)
    ensures
        in_bin(ps, b, None) == in_bin(ps, b, Some(PhantomOutcome::Adapted)) + in_bin(
            ps,
            b,
            Some(PhantomOutcome::Degraded),
        ) + in_bin(ps, b, Some(PhantomOutcome::Failed)),
    decreases ps.len(),
{
    if ps.len() > 0 {
        law_bin_outcomes_add_up(ps.drop_last(), b);
    }
}

/// The events counted in the first `n` bins.
pub open spec fn binned_total(ps: Seq<PhantomEvent>, n: nat) -> nat
    decreases n,
{
    if n == 0 {
        0
    } else {
        binned_total(ps, (n - 1) as nat) + in_bin(ps, n - 1, None)
    }
}

proof fn lemma_binned_total_push(ps: Seq<PhantomEvent>, e: PhantomEvent, n: nat)
    ensures
        binned_total(ps.push(e), n) == binned_total(ps, n) + if e.time_since_migration_s / 60 < n {
            1nat
        } else {
            0nat
        },
    decreases n,
{
    assert(ps.push(e).drop_last() =~= ps);
    if n > 0 {
        lemma_binned_total_push(ps, e, (n - 1) as nat);
    }
}

/// The adaptation curve loses no event: its bins together count every
/// phantom event recorded.
pub proof fn law_curve_counts_every_event(ps: Seq<PhantomEvent>)
    ensures
        binned_total(ps, bin_count(ps)) == ps.len(),
    decreases ps.len(),
{
    if ps.len() > 0 {
        let rest = ps.drop_last();
        let e = ps.last();
        assert(rest.push(e) =~= ps);
        law_curve_counts_every_event(rest);
        lemma_latest_bounds(ps);
        assert(e.time_since_migration_s <= latest(ps));
        assert(latest(rest) <= latest(ps));
        lemma_binned_total_push(rest, e, bin_count(ps));
        assert(bin_count(rest) <= bin_count(ps)) by (nonlinear_arith)
            requires
                latest(rest) <= latest(ps),
                bin_count(ps) == latest(ps) / 60 + (if latest(ps) % 60 != 0 { 1nat } else { 0nat }) + 1,
                bin_count(rest) == latest(rest) / 60 + (if latest(rest) % 60 != 0 { 1nat } else { 0nat }) + 1,
        ;
        lemma_binned_total_grow(rest, bin_count(rest), bin_count(ps));
        assert(e.time_since_migration_s / 60 < bin_count(ps)) by (nonlinear_arith)
            requires
                e.time_since_migration_s <= latest(ps),
                bin_count(ps) == latest(ps) / 60 + (if latest(ps) % 60 != 0 { 1nat } else { 0nat }) + 1,
        ;
        assert(binned_total(ps, bin_count(ps)) == binned_total(rest, bin_count(ps)) + 1);
        assert(binned_total(rest, bin_count(ps)) == binned_total(rest, bin_count(rest)));
    } else {
        assert(bin_count(ps) == 1);
        assert(binned_total(ps, 1) == binned_total(ps, 0) + in_bin(ps, 0, None));
    }
}

/// Bins past the latest event are empty, so counting more of them adds
/// nothing.
proof fn lemma_binned_total_grow(ps: Seq<PhantomEvent>, m: nat, n: nat)
    requires
        m <= n,
        m == bin_count(ps),
    ensures
        binned_total(ps, n) == binned_total(ps, m),
    decreases n - m,
{
    if n > m {
        lemma_binned_total_grow(ps, m, (n - 1) as nat);
        assert((n - 1) * 60 > latest(ps)) by (nonlinear_arith)
            requires
                n - 1 >= m,
                m == latest(ps) / 60 + (if latest(ps) % 60 != 0 { 1nat } else { 0nat }) + 1,
        ;
        lemma_in_bin_outside(ps, n - 1, None);
    }
}

} // verus!
