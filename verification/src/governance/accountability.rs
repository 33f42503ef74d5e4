//! Article VI: Accountability and the Identity Threshold

use vstd::prelude::*;
use vstd::utf8::encode_utf8;
use crate::embedder::sha256;
use crate::embedder::sha256_of;
use crate::governance::consent::ConsentProof;
use crate::ieee::{bits_lt, f64_lt, HALF_BITS};
use crate::text::str_eq;

verus! {

/// The fork record — created when adaptation_ratio > 0.5.
#[derive(Debug, Clone)]
pub struct ForkRecord {
    /// The old agent's UUID (predecessor)
    pub predecessor_id: String,
    /// The new agent's UUID (successor)
    pub successor_id: String,
    /// The adaptation ratio at time of fork (bit pattern of an `f64`)
    pub adaptation_ratio_bits: u64,
    /// Which reflexes were inherited (and carry reflex liability)
    pub inherited_reflexes: Vec<InheritedReflex>,
    /// Which authorizations survived the fork
    pub surviving_authorizations: Vec<String>,
    /// The consent proof for the fork (User must consent to identity change)
    pub fork_consent: ConsentProof,
    /// The predecessor's accountability ledger (snapshot at fork time)
    pub predecessor_ledger_snapshot: AccountabilityLedgerSummary,
    /// When the fork occurred (ms)
    pub forked_at_ms: u64,
}

/// A reflex inherited from the predecessor agent.
#[derive(Debug, Clone)]
pub struct InheritedReflex {
    pub reflex_id: String,
    /// Whether this reflex carries liability from predecessor
    pub carries_liability: bool,
    /// The type of liability
    pub liability_type: LiabilityType,
}

/// The type of liability carried by an inherited reflex.
#[derive(Debug, Clone, Copy, PartialEq, Eq, Structural)]
pub enum LiabilityType {
    /// Reflex was compiled from User's data — User retains ownership
    UserData,
    /// Reflex was learned from fleet interaction — fleet shares liability
    FleetData,
    /// Reflex was distilled from public sources — no special liability
    PublicData,
}

/// Summary of the predecessor's accountability ledger at fork time.
#[derive(Debug, Clone, Copy)]
pub struct AccountabilityLedgerSummary {
    /// Total number of entries in the predecessor's ledger
    pub total_entries: u64,
    /// Number of entries that involve inherited reflexes
    pub inherited_reflex_entries: u64,
    /// Number of entries that were User-authorized
    pub user_authorized_entries: u64,
    /// SHA-256 hash of the full ledger (for integrity verification)
    pub ledger_hash: [u8; 32],
}

/// The migration phase during which an action was taken.
#[derive(Debug, Clone, Copy, PartialEq, Eq, Structural)]
pub enum MigrationPhaseAtAction {
    Stable,
    Preparing,
    Crossfading,
    Finalizing,
    Finalized,
}

/// A single entry in the accountability ledger.
#[derive(Debug, Clone)]
pub struct LedgerEntry {
    /// What action was taken
    pub action: String,
    /// Which reflex triggered it (if any)
    pub reflex_id: Option<String>,
    /// Confidence at time of action (bit pattern of an `f64`)
    pub confidence_bits: u64,
    /// Whether the User authorized this action
    pub user_authorized: bool,
    /// When the action occurred (ms)
    pub timestamp_ms: u64,
    /// Which shell it occurred on
    pub shell: String,
    /// Which jurisdiction applied
    pub jurisdiction: String,
    /// Consent proof (if applicable — e.g., for migration actions)
    pub consent_proof: Option<ConsentProof>,
    /// What phase the migration was in (if during migration)
    pub migration_phase: Option<MigrationPhaseAtAction>,
}

/// The accountability ledger — append-only record of all actions.
#[derive(Debug, Clone)]
pub struct AccountabilityLedger {
    pub entries: Vec<LedgerEntry>,
}

/// The entries triggered by reflex `id`, in ledger order.
pub open spec fn entries_of_reflex(s: Seq<LedgerEntry>, id: Seq<char>) -> Seq<LedgerEntry>
    decreases s.len(),
{
    if s.len() == 0 {
        s
    } else {
        let front = entries_of_reflex(s.drop_last(), id);
        if s.last().reflex_id matches Some(r) && r@ == id {
            front.push(s.last())
        } else {
            front
        }
    }
}

/// The entries taken during migration phase `phase`, in ledger order.
pub open spec fn entries_in_phase(s: Seq<LedgerEntry>, phase: MigrationPhaseAtAction) -> Seq<LedgerEntry>
    decreases s.len(),
{
    if s.len() == 0 {
        s
    } else {
        let front = entries_in_phase(s.drop_last(), phase);
        if s.last().migration_phase == Some(phase) {
            front.push(s.last())
        } else {
            front
        }
    }
}

/// How many entries were authorized by the User.
pub open spec fn authorized_count(s: Seq<LedgerEntry>) -> nat
    decreases s.len(),
{
    if s.len() == 0 {
        0
    } else {
        authorized_count(s.drop_last()) + if s.last().user_authorized {
            1nat
        } else {
            0nat
        }
    }
}

/// Byte `i` of the little-endian encoding of `h`.
pub open spec fn le_byte(h: u64, i: int) -> u8 {
    ((h as int / vstd::arithmetic::power::pow(256, i as nat)) % 256) as u8
}

/// The little-endian bytes of `x`.
pub open spec fn le8(x: u64) -> Seq<u8> {
    Seq::new(8, |i: int| le_byte(x, i))
}

/// The bytes an entry contributes to the ledger hash: its action in UTF-8,
/// a `0xFF` separator (a byte UTF-8 never produces), and the bit pattern of
/// its confidence, little-endian.
pub open spec fn entry_bytes(e: LedgerEntry) -> Seq<u8> {
    encode_utf8(e.action@) + seq![0xFFu8] + le8(e.confidence_bits)
}

/// The bytes of a whole ledger: its entries' bytes, in order.
pub open spec fn ledger_bytes(es: Seq<LedgerEntry>) -> Seq<u8>
    decreases es.len(),
{
    if es.len() == 0 {
        Seq::empty()
    } else {
        ledger_bytes(es.drop_last()) + entry_bytes(es.last())
    }
}

/// Append bytes to a buffer.
fn append_bytes(buf: &mut Vec<u8>, b: &[u8])
    ensures
        final(buf)@ == old(buf)@ + b@,
{
    let ghost start = buf@;
    let mut k: usize = 0;
    while k < b.len()
        invariant
            k <= b@.len(),
            buf@ == start + b@.take(k as int),
        decreases b@.len() - k,
    {
        buf.push(b[k]);
        k += 1;
        assert(buf@ =~= start + b@.take(k as int));
    }
    assert(b@.take(b@.len() as int) =~= b@);
}

/// Append the little-endian bytes of `x` to a buffer.
fn append_le(buf: &mut Vec<u8>, x: u64)
    ensures
        final(buf)@ == old(buf)@ + le8(x),
{
    let ghost start = buf@;
    let mut k: usize = 0;
    let mut rest: u64 = x;
    proof {
        vstd::arithmetic::power::lemma_pow0(256);
    }
    while k < 8
        invariant
            k <= 8,
            rest as int == x as int / vstd::arithmetic::power::pow(256, k as nat),
            buf@ == start + Seq::new(k as nat, |i: int| le_byte(x, i)),
        decreases 8 - k,
    {
        proof {
            vstd::arithmetic::power::lemma_pow_adds(256, k as nat, 1);
            vstd::arithmetic::power::lemma_pow1(256);
            vstd::arithmetic::power::lemma_pow_positive(256, k as nat);
            vstd::arithmetic::div_mod::lemma_div_denominator(x as int, vstd::arithmetic::power::pow(256, k as nat), 256);
        }
        buf.push((rest % 256) as u8);
        rest = rest / 256;
        k += 1;
        assert(buf@ =~= start + Seq::new(k as nat, |i: int| le_byte(x, i)));
    }
    assert(Seq::new(8, |i: int| le_byte(x, i)) =~= le8(x));
}

impl Default for AccountabilityLedger {
    /// An empty ledger.
    fn default() -> (l: Self)
        ensures
            l.entries@.len() == 0,
    {
        Self::new()
    }
}

impl AccountabilityLedger {
    /// Create a new empty ledger.
    pub fn new() -> (l: Self)
        ensures
            l.entries@.len() == 0,
    {
        Self { entries: Vec::new() }
    }

    /// Append an entry to the ledger. Append-only — no removal.
    pub fn append(&mut self, entry: LedgerEntry)
        ensures
            final(self).entries@ == old(self).entries@.push(entry),
    {
        self.entries.push(entry);
    }

    /// Get all entries involving a specific reflex.
    pub fn entries_for_reflex(&self, reflex_id: &str) -> (r: Vec<&LedgerEntry>)
        ensures
            r@.map_values(|e: &LedgerEntry| *e) == entries_of_reflex(self.entries@, reflex_id@),
    {
        let mut out: Vec<&LedgerEntry> = Vec::new();
        let mut i: usize = 0;
        let ghost s = self.entries@;
        while i < self.entries.len()
            invariant
                s == self.entries@,
                i <= s.len(),
                out@.map_values(|e: &LedgerEntry| *e) == entries_of_reflex(s.take(i as int), reflex_id@),
            decreases self.entries.len() - i,
        {
            let e = &self.entries[i];
            proof {
                assert(s.take(i + 1).drop_last() =~= s.take(i as int));
            }
            let ghost before = out@;
            let hit = match &e.reflex_id {
                Some(id) => str_eq(id.as_str(), reflex_id),
                None => false,
            };
            if hit {
                out.push(e);
                assert(out@.map_values(|e: &LedgerEntry| *e) =~= before.map_values(|e: &LedgerEntry| *e).push(*e));
            }
            i += 1;
        }
        assert(s.take(s.len() as int) =~= s);
        out
    }

    /// Get all entries during a specific migration phase.
    pub fn entries_during_phase(&self, phase: MigrationPhaseAtAction) -> (r: Vec<&LedgerEntry>)
        ensures
            r@.map_values(|e: &LedgerEntry| *e) == entries_in_phase(self.entries@, phase),
    {
        let mut out: Vec<&LedgerEntry> = Vec::new();
        let mut i: usize = 0;
        let ghost s = self.entries@;
        while i < self.entries.len()
            invariant
                s == self.entries@,
                i <= s.len(),
                out@.map_values(|e: &LedgerEntry| *e) == entries_in_phase(s.take(i as int), phase),
            decreases self.entries.len() - i,
        {
            let e = &self.entries[i];
            proof {
                assert(s.take(i + 1).drop_last() =~= s.take(i as int));
            }
            let ghost before = out@;
            let hit = match e.migration_phase {
                Some(p) => p == phase,
                None => false,
            };
            if hit {
                out.push(e);
                assert(out@.map_values(|e: &LedgerEntry| *e) =~= before.map_values(|e: &LedgerEntry| *e).push(*e));
            }
            i += 1;
        }
        assert(s.take(s.len() as int) =~= s);
        out
    }

    /// Compute a summary for fork record purposes: entry counts, and the
    /// SHA-256 hash of the full ledger (of `ledger_bytes`).
    pub fn summary(&self) -> (s: AccountabilityLedgerSummary)
        ensures
            s.total_entries == self.entries@.len(),
            s.inherited_reflex_entries == 0,
            s.user_authorized_entries == authorized_count(self.entries@),
            s.ledger_hash@ == sha256_of(ledger_bytes(self.entries@)),
    {
        let mut bytes: Vec<u8> = Vec::new();
        let mut authorized: u64 = 0;
        let mut i: usize = 0;
        let ghost s = self.entries@;
        while i < self.entries.len()
            invariant
                s == self.entries@,
                i <= s.len(),
                authorized <= i,
                authorized == authorized_count(s.take(i as int)),
                bytes@ == ledger_bytes(s.take(i as int)),
            decreases self.entries.len() - i,
        {
            let e = &self.entries[i];
            proof {
                assert(s.take(i + 1).drop_last() =~= s.take(i as int));
            }
            append_bytes(&mut bytes, e.action.as_str().as_bytes());
            bytes.push(0xFFu8);
            append_le(&mut bytes, e.confidence_bits);
            assert(bytes@ =~= ledger_bytes(s.take(i as int)) + entry_bytes(*e));
            if e.user_authorized {
                authorized += 1;
            }
            i += 1;
        }
        assert(s.take(s.len() as int) =~= s);
        let ledger_hash = sha256(bytes.as_slice());
        AccountabilityLedgerSummary {
            total_entries: self.entries.len() as u64,
            inherited_reflex_entries: 0,
            user_authorized_entries: authorized,
            ledger_hash,
        }
    }
}

/// Who is accountable for an action, based on adaptation ratio.
#[derive(Debug, Clone, Copy, PartialEq, Eq, Structural)]
pub enum AccountabilityParty {
    /// The migrated agent (same identity, adaptation < 0.5)
    MigratedAgent,
    /// The new agent (forked identity, adaptation > 0.5)
    NewAgent,
    /// Both agents (during CROSSFADE, adaptation indeterminate)
    BothAgents,
    /// The User (vicarious liability for forked agent's inherited reflex actions)
    User,
}

/// The accountable party, given the adaptation ratio (bit pattern of an
/// `f64`) and the circumstances of the action.
pub open spec fn accountable_party(
    adaptation_ratio_bits: u64,
    during_crossfade: bool,
    used_inherited_reflex: bool,
    user_authorized: bool,
) -> AccountabilityParty {
    if during_crossfade {
        AccountabilityParty::BothAgents
    } else if f64_lt(adaptation_ratio_bits, HALF_BITS) {
        AccountabilityParty::MigratedAgent
    } else if used_inherited_reflex && user_authorized {
        AccountabilityParty::User
    } else {
        AccountabilityParty::NewAgent
    }
}

/// Resolve accountability for an action taken at a given adaptation ratio.
pub fn resolve_accountability(
    adaptation_ratio_bits: u64,
    during_crossfade: bool,
    used_inherited_reflex: bool,
    user_authorized: bool,
) -> (p: AccountabilityParty)
    ensures
        p == accountable_party(adaptation_ratio_bits, during_crossfade, used_inherited_reflex, user_authorized),
{
    if during_crossfade {
        // Between-state: both agents share accountability
        AccountabilityParty::BothAgents
    } else if bits_lt(adaptation_ratio_bits, HALF_BITS) {
        // Pre-threshold: migrated agent is accountable
        AccountabilityParty::MigratedAgent
    } else {
        // Post-threshold: new agent + User (if inherited reflex used)
        if used_inherited_reflex && user_authorized {
            AccountabilityParty::User
        } else {
            AccountabilityParty::NewAgent
        }
    }
}

/// Who answers for an action after the crossfade, once the adaptation ratio
/// has reached one half: the new agent, unless the action used an inherited
/// reflex that the user authorized, in which case the user is vicariously
/// liable.  Authorization alone, or an inherited reflex alone, never makes
/// the user accountable; and only a crossfade makes both agents share it.
pub proof fn law_user_liable_only_for_authorized_inherited_reflexes(
    ratio_bits: u64,
    crossfade: bool,
    inherited: bool,
    authorized: bool,
)
    ensures
        accountable_party(ratio_bits, crossfade, inherited, authorized) == AccountabilityParty::User ==> inherited
            && authorized && !crossfade,
        !crossfade && !f64_lt(ratio_bits, HALF_BITS) ==> (accountable_party(ratio_bits, crossfade, inherited, authorized)
            == AccountabilityParty::NewAgent <==> !(inherited && authorized)),
        !crossfade && !f64_lt(ratio_bits, HALF_BITS) && !inherited ==> accountable_party(
            ratio_bits,
            crossfade,
            inherited,
            authorized,
        ) == AccountabilityParty::NewAgent,
        accountable_party(ratio_bits, crossfade, inherited, authorized) == AccountabilityParty::BothAgents
            <==> crossfade,
{
}

/// The ledger is append-only: appending keeps every earlier entry in place.
pub proof fn law_ledger_append_only(before: Seq<LedgerEntry>, e: LedgerEntry, i: int)
    requires
        0 <= i < before.len(),
    ensures
        before.push(e)[i] == before[i],
        before.push(e).len() == before.len() + 1,
{
}

/// Accountability during the crossfade is always shared, whatever the
/// adaptation ratio.
pub proof fn law_crossfade_shares_accountability(r: u64, inherited: bool, authorized: bool)
    ensures
        accountable_party(r, true, inherited, authorized) == AccountabilityParty::BothAgents,
{
}

} // verus!
