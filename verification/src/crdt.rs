//! CRDT cells and their merge rule.
//!
//! Each cell merges an update according to its type:
//! * LWW-Register: the update wins when its timestamp is later
//! * G-Counter, PN-Counter, TrustScore: the larger value wins
//! * OR-Set: the update's value replaces the cell's
//!
//! A merge is logically irreversible when the old value cannot be recovered
//! from the new one (Landauer's principle then sets its energy floor).

use vstd::prelude::*;
use crate::claws::ExecutionTarget;
use crate::ieee::f64_lt;
use crate::ieee::bits_lt;
use dashmap::{DashMap, DashSet};
use std::collections::hash_map::RandomState;

verus! {

/// Cell type determines merge semantics.
#[derive(Debug, Clone, Copy, PartialEq, Eq, Structural)]
pub enum CrdtCellType {
    /// Last-Writer-Wins register
    LwwRegister,
    /// PN-Counter (positive-negative)
    PnCounter,
    /// G-Counter (grow-only)
    GCounter,
    /// OR-Set (observed-remove)
    OrSet,
    /// Trust score (monotonic increase with decay)
    TrustScore,
}

/// A CRDT cell — the fundamental unit of merge.
#[derive(Debug, Clone, Copy)]
pub struct CrdtCell {
    /// The CRDT value (interpretation depends on cell_type)
    pub value: u64,
    /// Vector clock / lamport timestamp
    pub timestamp: u64,
    /// Source shell fingerprint hash
    pub source_hash: u64,
    /// Cell type determines merge semantics
    pub cell_type: CrdtCellType,
    /// Access count (for hot/cold partitioning)
    pub access_count: u64,
    /// Last access time (epoch seconds)
    pub last_access_epoch: u64,
    /// Reserved for future use
    pub _reserved: [u64; 3],
}

/// A pending update to a CRDT cell.
#[derive(Debug, Clone, Copy)]
pub struct PendingUpdate {
    pub target_id: u64,
    pub new_value: u64,
    pub source_hash: u64,
    pub timestamp: u64,
    pub cell_type: CrdtCellType,
    pub _pad: [u8; 7],
}

/// Result of a CRDT merge operation.
#[derive(Debug, Clone, Copy)]
pub struct MergeResult {
    pub target_id: u64,
    pub old_value: u64,
    pub new_value: u64,
    pub merged_on: ExecutionTarget,
    pub was_hot: bool,
}

/// Temperature of a CRDT cell based on access frequency.
#[derive(Debug, Clone, Copy, PartialEq, Eq, Structural, PartialOrd, Ord)]
pub enum CellTemperature {
    /// < 1 access/sec
    Cold,
    /// 1-100 accesses/sec
    Warm,
    /// > 100 accesses/sec
    Hot,
}

/// Number of bits a merge overwrites or keeps (the `u64` value field).
pub const VALUE_BITS: u64 = 64;

/// The value a cell of a merge's type holds after the merge.
pub open spec fn merged_value(cell: CrdtCell, update: PendingUpdate) -> u64 {
    match update.cell_type {
        CrdtCellType::LwwRegister => if update.timestamp > cell.timestamp {
            update.new_value
        } else {
            cell.value
        },
        CrdtCellType::PnCounter | CrdtCellType::GCounter | CrdtCellType::TrustScore => {
            if cell.value >= update.new_value {
                cell.value
            } else {
                update.new_value
            }
        },
        CrdtCellType::OrSet => update.new_value,
    }
}

/// The merge loses the old value.
pub open spec fn merge_is_irreversible(cell: CrdtCell, update: PendingUpdate) -> bool {
    match update.cell_type {
        CrdtCellType::LwwRegister => update.timestamp > cell.timestamp,
        CrdtCellType::PnCounter | CrdtCellType::GCounter | CrdtCellType::TrustScore => update.new_value
            != cell.value,
        CrdtCellType::OrSet => false,
    }
}

/// The cell after merging `update` at epoch second `now`.
pub open spec fn merged_cell(cell: CrdtCell, update: PendingUpdate, now: u64) -> CrdtCell {
    let lww_wins = update.cell_type == CrdtCellType::LwwRegister && update.timestamp > cell.timestamp;
    CrdtCell {
        value: merged_value(cell, update),
        timestamp: if lww_wins { update.timestamp } else { cell.timestamp },
        source_hash: if lww_wins { update.source_hash } else { cell.source_hash },
        access_count: if cell.access_count < u64::MAX { (cell.access_count + 1) as u64 } else { u64::MAX },
        last_access_epoch: now,
        ..cell
    }
}

/// The cell a merge starts from when the target holds none yet.
pub fn fresh_cell(cell_type: CrdtCellType) -> (c: CrdtCell)
    ensures
        c == (CrdtCell {
            value: 0,
            timestamp: 0,
            source_hash: 0,
            cell_type,
            access_count: 0,
            last_access_epoch: 0,
            _reserved: c._reserved,
        }),
        c._reserved@ == seq![0u64, 0u64, 0u64],
{
    let c = CrdtCell {
        value: 0,
        timestamp: 0,
        source_hash: 0,
        cell_type,
        access_count: 0,
        last_access_epoch: 0,
        _reserved: [0, 0, 0],
    };
    assert(c._reserved@ =~= seq![0u64, 0u64, 0u64]);
    c
}

/// Merge a single update into `cell` at epoch second `now`. Returns whether
/// the merge was logically irreversible.
pub fn merge_into(cell: &mut CrdtCell, update: &PendingUpdate, now: u64) -> (irreversible: bool)
    ensures
        *final(cell) == merged_cell(*old(cell), *update, now),
        irreversible == merge_is_irreversible(*old(cell), *update),
{
    // A merge is irreversible if the old value cannot be recovered
    // from the new value + merge metadata.
    let is_irreversible = match update.cell_type {
        // LWW: old value is discarded if timestamp is higher → IRREVERSIBLE
        CrdtCellType::LwwRegister => update.timestamp > cell.timestamp,
        // G-Counter / PN-Counter: max(a,b) → smaller value is LOST
        CrdtCellType::PnCounter | CrdtCellType::GCounter => update.new_value != cell.value,
        // TrustScore: max → same as counter
        CrdtCellType::TrustScore => update.new_value != cell.value,
        // OR-Set: union + tombstone preserves information
        CrdtCellType::OrSet => false,
    };
    let new_value = match update.cell_type {
        CrdtCellType::LwwRegister => {
            if update.timestamp > cell.timestamp {
                cell.timestamp = update.timestamp;
                cell.source_hash = update.source_hash;
                update.new_value
            } else {
                cell.value
            }
        },
        CrdtCellType::PnCounter | CrdtCellType::GCounter => {
            if cell.value >= update.new_value { cell.value } else { update.new_value }
        },
        CrdtCellType::TrustScore => {
            if cell.value >= update.new_value { cell.value } else { update.new_value }
        },
        CrdtCellType::OrSet => update.new_value,
    };
    cell.value = new_value;
    cell.access_count = cell.access_count.saturating_add(1);
    cell.last_access_epoch = now;
    is_irreversible
}

/// The merge of `update` into `cell` as a result record (on the CPU).
pub fn merge_result(target_id: u64, old_value: u64, new_value: u64, was_hot: bool) -> (r: MergeResult)
    ensures
        r.target_id == target_id,
        r.old_value == old_value,
        r.new_value == new_value,
        r.merged_on == ExecutionTarget::Cpu,
        r.was_hot == was_hot,
{
    MergeResult { target_id, old_value, new_value, merged_on: ExecutionTarget::Cpu, was_hot }
}

/// The concurrent maps of the `dashmap` crate.
#[verifier::external_type_specification]
#[verifier::external_body]
#[verifier::reject_recursive_types(K)]
#[verifier::reject_recursive_types(V)]
#[verifier::reject_recursive_types(S)]
pub struct ExDashMap<K, V, S>(DashMap<K, V, S>);

/// The concurrent sets of the `dashmap` crate.
#[verifier::external_type_specification]
#[verifier::external_body]
#[verifier::reject_recursive_types(K)]
#[verifier::reject_recursive_types(S)]
pub struct ExDashSet<K, S>(DashSet<K, S>);

/// The map of cells, by id.
pub type CellMap = DashMap<u64, CrdtCell, RandomState>;

/// A set of cell ids.
pub type IdSet = DashSet<u64, RandomState>;

/// The cells a map holds, by id.
pub uninterp spec fn stored_cells(m: CellMap) -> Map<u64, CrdtCell>;

/// The ids a set holds.
pub uninterp spec fn stored_ids(s: IdSet) -> Set<u64>;

/// `DashMap::with_shard_amount(64)`: an empty map.
#[verifier::external_body]
fn new_cell_map() -> (cells: CellMap)
    ensures
        stored_cells(cells).dom() == Set::<u64>::empty(),
{
    DashMap::with_shard_amount(64)
}

/// `DashSet::new()`: an empty set.
#[verifier::external_body]
fn new_id_set() -> (s: IdSet)
    ensures
        stored_ids(s) == Set::<u64>::empty(),
{
    DashSet::new()
}

/// `DashMap::get`, copying the cell out of the guard it returns.
#[verifier::external_body]
fn cell_get(m: &CellMap, id: u64) -> (c: Option<CrdtCell>)
    ensures
        c == (if stored_cells(*m).contains_key(id) { Some(stored_cells(*m)[id]) } else { None }),
{
    m.get(&id).map(|r| *r)
}

/// `DashMap::insert`: the map now holds `c` at `id`.
#[verifier::external_body]
fn cell_put(m: &mut CellMap, id: u64, c: CrdtCell)
    ensures
        stored_cells(*final(m)) == stored_cells(*old(m)).insert(id, c),
{
    m.insert(id, c);
}

/// `DashSet::contains`.
#[verifier::external_body]
fn id_set_contains(s: &IdSet, id: u64) -> (b: bool)
    ensures
        b == stored_ids(*s).contains(id),
{
    s.contains(&id)
}

/// `DashSet::insert`: the set now holds `id`.
#[verifier::external_body]
fn id_set_insert(s: &mut IdSet, id: u64)
    ensures
        stored_ids(*final(s)) == stored_ids(*old(s)).insert(id),
{
    s.insert(id);
}

/// `DashSet::remove`: the set no longer holds `id`.
#[verifier::external_body]
fn id_set_remove(s: &mut IdSet, id: u64)
    ensures
        stored_ids(*final(s)) == stored_ids(*old(s)).remove(id),
{
    s.remove(&id);
}

/// The cell a merge into `id` starts from: the stored one, or a fresh cell
/// of the update's type.
pub open spec fn start_cell(cells: Map<u64, CrdtCell>, id: u64, fresh: CrdtCell) -> CrdtCell {
    if cells.contains_key(id) {
        cells[id]
    } else {
        fresh
    }
}

/// `c` is the cell a merge creates for a new id: all zero, of type `t`.
pub open spec fn is_fresh(c: CrdtCell, t: CrdtCellType) -> bool {
    &&& c.value == 0
    &&& c.timestamp == 0
    &&& c.source_hash == 0
    &&& c.cell_type == t
    &&& c.access_count == 0
    &&& c.last_access_epoch == 0
    &&& c._reserved@ == seq![0u64, 0u64, 0u64]
}

/// Merge a single update into the map at epoch second `now`: the target's
/// cell (a fresh one when the map has none) is merged and stored back.
/// Returns the merge record and whether the merge was irreversible.
fn merge_one(
    cells: &mut CellMap,
    update: &PendingUpdate,
    now: u64,
    was_hot: bool,
) -> (r: (MergeResult, bool))
    ensures
        exists|fresh: CrdtCell|
            #![trigger is_fresh(fresh, update.cell_type)]
            {
                let start = start_cell(stored_cells(*old(cells)), update.target_id, fresh);
                &&& is_fresh(fresh, update.cell_type)
                &&& stored_cells(*final(cells)) == stored_cells(*old(cells)).insert(
                    update.target_id,
                    merged_cell(start, *update, now),
                )
                &&& r.0.old_value == start.value
                &&& r.0.new_value == merged_value(start, *update)
                &&& r.1 == merge_is_irreversible(start, *update)
            },
        r.0.target_id == update.target_id,
        r.0.merged_on == ExecutionTarget::Cpu,
        r.0.was_hot == was_hot,
{
    let fresh = fresh_cell(update.cell_type);
    let mut cell = match cell_get(cells, update.target_id) {
        Some(c) => c,
        None => fresh,
    };
    let ghost start = cell;
    let old_value = cell.value;
    let irreversible = merge_into(&mut cell, update, now);
    let new_value = cell.value;
    cell_put(cells, update.target_id, cell);
    let result = merge_result(update.target_id, old_value, new_value, was_hot);
    assert(start == start_cell(stored_cells(*old(cells)), update.target_id, fresh));
    assert(is_fresh(fresh, update.cell_type));
    (result, irreversible)
}

/// The cell state of the partitioned CRDT engine: every cell by id, and the
/// ids currently in the hot partition.
pub struct CellStore {
    cells: CellMap,
    hot_cells: IdSet,
}

impl CellStore {
    /// The cells held, by id.
    pub closed spec fn cells(&self) -> Map<u64, CrdtCell> {
        stored_cells(self.cells)
    }

    /// The ids in the hot partition.
    pub closed spec fn hot(&self) -> Set<u64> {
        stored_ids(self.hot_cells)
    }

    /// An empty store: no cells, nothing hot.
    pub fn new() -> (s: Self)
        ensures
            s.cells().dom() == Set::<u64>::empty(),
            s.hot() == Set::<u64>::empty(),
    {
        CellStore { cells: new_cell_map(), hot_cells: new_id_set() }
    }

    /// Whether a cell is in the hot partition.
    pub fn is_hot(&self, id: u64) -> (b: bool)
        ensures
            b == self.hot().contains(id),
    {
        id_set_contains(&self.hot_cells, id)
    }

    /// The temperature of a cell whose access rate is `rate_bits` (if it
    /// has one), against the warm threshold.
    pub fn temperature(&self, id: u64, rate_bits: Option<u64>, warm_threshold_bits: u64) -> (t: CellTemperature)
        ensures
            t == temperature_rule(self.hot().contains(id), rate_bits, warm_threshold_bits),
    {
        let hot = self.is_hot(id);
        temperature_of(hot, rate_bits, warm_threshold_bits)
    }

    /// Merge a single update on the CPU at epoch second `now`: the target's
    /// cell (a fresh one when the store has none) is merged and stored back;
    /// the record says whether the cell was hot.  Returns the record and
    /// whether the merge was irreversible.
    pub fn merge_one_cpu(&mut self, update: &PendingUpdate, now: u64) -> (r: (MergeResult, bool))
        ensures
            final(self).hot() == old(self).hot(),
            exists|fresh: CrdtCell|
                #![trigger is_fresh(fresh, update.cell_type)]
                {
                    let start = start_cell(old(self).cells(), update.target_id, fresh);
                    &&& is_fresh(fresh, update.cell_type)
                    &&& final(self).cells() == old(self).cells().insert(
                        update.target_id,
                        merged_cell(start, *update, now),
                    )
                    &&& r.0.old_value == start.value
                    &&& r.0.new_value == merged_value(start, *update)
                    &&& r.1 == merge_is_irreversible(start, *update)
                },
            r.0.target_id == update.target_id,
            r.0.merged_on == ExecutionTarget::Cpu,
            r.0.was_hot == old(self).hot().contains(update.target_id),
    {
        let was_hot = id_set_contains(&self.hot_cells, update.target_id);
        merge_one(&mut self.cells, update, now, was_hot)
    }

    /// Apply a repartition move to a cell: promotion puts it in the hot
    /// partition, demotion takes it out.  Returns whether anything moved.
    pub fn apply_move(&mut self, id: u64, m: PartitionMove) -> (moved: bool)
        ensures
            final(self).cells() == old(self).cells(),
            final(self).hot() == (match m {
                PartitionMove::Promote => old(self).hot().insert(id),
                PartitionMove::Demote => old(self).hot().remove(id),
                PartitionMove::Keep => old(self).hot(),
            }),
            moved == !(m is Keep),
    {
        match m {
            PartitionMove::Promote => {
                id_set_insert(&mut self.hot_cells, id);
                true
            },
            PartitionMove::Demote => {
                id_set_remove(&mut self.hot_cells, id);
                true
            },
            PartitionMove::Keep => false,
        }
    }
}

/// The temperature rule: hot when the hot set holds the cell, warm when its
/// access rate reaches the warm threshold, cold otherwise.
pub open spec fn temperature_rule(is_hot: bool, rate_bits: Option<u64>, warm_threshold_bits: u64) -> CellTemperature {
    if is_hot {
        CellTemperature::Hot
    } else if rate_bits is Some && !f64_lt(rate_bits->0, warm_threshold_bits) && !crate::ieee::is_nan(rate_bits->0)
        && !crate::ieee::is_nan(warm_threshold_bits) {
        CellTemperature::Warm
    } else {
        CellTemperature::Cold
    }
}

/// The temperature of a cell: hot when the hot set holds it, warm when its
/// access rate reaches the warm threshold, cold otherwise.  The rate and the
/// threshold are doubles, given by their bit patterns.
pub fn temperature_of(is_hot: bool, rate_bits: Option<u64>, warm_threshold_bits: u64) -> (t: CellTemperature)
    ensures
        t == temperature_rule(is_hot, rate_bits, warm_threshold_bits),
{
    if is_hot {
        return CellTemperature::Hot;
    }
    match rate_bits {
        Some(rate) => {
            if at_least(rate, warm_threshold_bits) {
                CellTemperature::Warm
            } else {
                CellTemperature::Cold
            }
        },
        None => CellTemperature::Cold,
    }
}

/// `a >= b` on the doubles the patterns encode (false when either is NaN).
pub fn at_least(a: u64, b: u64) -> (r: bool)
    ensures
        r == (!crate::ieee::is_nan(a) && !crate::ieee::is_nan(b) && !f64_lt(a, b)),
{
    if is_nan_bits(a) || is_nan_bits(b) {
        false
    } else {
        !bits_lt(a, b)
    }
}

/// The pattern encodes a NaN.
pub fn is_nan_bits(a: u64) -> (r: bool)
    ensures
        r == crate::ieee::is_nan(a),
{
    let m: u64 = if a >= crate::ieee::SIGN_BIT { a - crate::ieee::SIGN_BIT } else { a };
    m > crate::ieee::INFINITY_BITS
}

/// The updates of a batch split by temperature, in their order: hot ones,
/// and the warm and cold ones.
pub fn split_by_temperature(updates: &Vec<PendingUpdate>, temps: &Vec<CellTemperature>) -> (r: (
    Vec<PendingUpdate>,
    Vec<PendingUpdate>,
))
    requires
        temps@.len() == updates@.len(),
    ensures
        r.0@ == hot_updates(updates@, temps@),
        r.1@ == other_updates(updates@, temps@),
{
    let mut hot: Vec<PendingUpdate> = Vec::new();
    let mut cold: Vec<PendingUpdate> = Vec::new();
    let mut i: usize = 0;
    while i < updates.len()
        invariant
            temps@.len() == updates@.len(),
            i <= updates@.len(),
            hot@ == hot_updates(updates@.take(i as int), temps@.take(i as int)),
            cold@ == other_updates(updates@.take(i as int), temps@.take(i as int)),
        decreases updates@.len() - i,
    {
        proof {
            assert(updates@.take(i + 1).drop_last() =~= updates@.take(i as int));
            assert(temps@.take(i + 1).drop_last() =~= temps@.take(i as int));
        }
        match temps[i] {
            CellTemperature::Hot => hot.push(updates[i]),
            CellTemperature::Warm | CellTemperature::Cold => cold.push(updates[i]),
        }
        i += 1;
    }
    proof {
        assert(updates@.take(updates@.len() as int) =~= updates@);
        assert(temps@.take(temps@.len() as int) =~= temps@);
    }
    (hot, cold)
}

/// The hot updates of a batch, in order.
pub open spec fn hot_updates(us: Seq<PendingUpdate>, ts: Seq<CellTemperature>) -> Seq<PendingUpdate>
    decreases us.len(),
{
    if us.len() == 0 {
        seq![]
    } else {
        let rest = hot_updates(us.drop_last(), ts.drop_last());
        if ts.last() == CellTemperature::Hot {
            rest.push(us.last())
        } else {
            rest
        }
    }
}

/// The warm and cold updates of a batch, in order.
pub open spec fn other_updates(us: Seq<PendingUpdate>, ts: Seq<CellTemperature>) -> Seq<PendingUpdate>
    decreases us.len(),
{
    if us.len() == 0 {
        seq![]
    } else {
        let rest = other_updates(us.drop_last(), ts.drop_last());
        if ts.last() != CellTemperature::Hot {
            rest.push(us.last())
        } else {
            rest
        }
    }
}

/// What a repartition does to one cell.
#[derive(Debug, Clone, Copy, PartialEq, Eq, Structural)]
pub enum PartitionMove {
    /// The cell joins the hot set.
    Promote,
    /// The cell leaves the hot set.
    Demote,
    /// The cell stays where it is.
    Keep,
}

/// The repartition rule for one cell: a cell whose rate reaches the hot
/// threshold is promoted when it is not hot yet and GPU merging is
/// available; a hot cell whose rate is below the threshold is demoted.
pub fn repartition_move(rate_bits: u64, hot_threshold_bits: u64, is_hot: bool, gpu_merge_available: bool) -> (m:
    PartitionMove)
    ensures
        m == (if !crate::ieee::is_nan(rate_bits) && !crate::ieee::is_nan(hot_threshold_bits) && !f64_lt(
            rate_bits,
            hot_threshold_bits,
        ) && !is_hot {
            if gpu_merge_available {
                PartitionMove::Promote
            } else {
                PartitionMove::Keep
            }
        } else if f64_lt(rate_bits, hot_threshold_bits) && is_hot {
            PartitionMove::Demote
        } else {
            PartitionMove::Keep
        }),
{
    if at_least(rate_bits, hot_threshold_bits) && !is_hot {
        if gpu_merge_available {
            PartitionMove::Promote
        } else {
            PartitionMove::Keep
        }
    } else if bits_lt(rate_bits, hot_threshold_bits) && is_hot {
        PartitionMove::Demote
    } else {
        PartitionMove::Keep
    }
}

/// A merge through the map stores the merged cell under the update's
/// target and leaves every other cell as it was.
pub proof fn law_merge_touches_only_target(
    before: Map<u64, CrdtCell>,
    after: Map<u64, CrdtCell>,
    update: PendingUpdate,
    now: u64,
    fresh: CrdtCell,
    other: u64,
)
    requires
        after == before.insert(update.target_id, merged_cell(start_cell(before, update.target_id, fresh), update, now)),
        other != update.target_id,
    ensures
        after.contains_key(update.target_id),
        after.contains_key(other) == before.contains_key(other),
        before.contains_key(other) ==> after[other] == before[other],
{
}

/// The merge is a counter merge (taking the larger value).
pub open spec fn is_counter(t: CrdtCellType) -> bool {
    t == CrdtCellType::PnCounter || t == CrdtCellType::GCounter || t == CrdtCellType::TrustScore
}

/// Counter merges converge: the order in which two updates arrive does not
/// change the value, merging an update twice changes nothing more than
/// merging it once, and the value never decreases.
pub proof fn law_counter_merge_converges(cell: CrdtCell, u1: PendingUpdate, u2: PendingUpdate, n1: u64, n2: u64)
    requires
        is_counter(u1.cell_type),
        is_counter(u2.cell_type),
    ensures
        merged_cell(merged_cell(cell, u1, n1), u2, n2).value == merged_cell(merged_cell(cell, u2, n1), u1, n2).value,
        merged_cell(merged_cell(cell, u1, n1), u1, n2).value == merged_cell(cell, u1, n1).value,
        merged_cell(cell, u1, n1).value >= cell.value,
        merged_cell(cell, u1, n1).value >= u1.new_value,
{
}

/// Last-writer-wins merges with distinct timestamps converge: whichever
/// order two updates arrive in, the later-stamped one holds the register,
/// and re-merging an update changes nothing.
pub proof fn law_lww_merge_converges(cell: CrdtCell, u1: PendingUpdate, u2: PendingUpdate, n1: u64, n2: u64)
    requires
        u1.cell_type == CrdtCellType::LwwRegister,
        u2.cell_type == CrdtCellType::LwwRegister,
        u1.timestamp != u2.timestamp,
    ensures
        merged_cell(merged_cell(cell, u1, n1), u2, n2).value == merged_cell(merged_cell(cell, u2, n1), u1, n2).value,
        merged_cell(merged_cell(cell, u1, n1), u2, n2).timestamp == merged_cell(merged_cell(cell, u2, n1), u1, n2).timestamp,
        merged_cell(merged_cell(cell, u1, n1), u2, n2).source_hash == merged_cell(merged_cell(cell, u2, n1), u1, n2).source_hash,
        merged_cell(merged_cell(cell, u1, n1), u1, n2).value == merged_cell(cell, u1, n1).value,
{
}

/// A counter merge (PN-Counter, G-Counter, trust score) keeps the larger
/// value, so it loses information exactly when the two values differ: the
/// smaller one is gone, whichever side it came from.  It is then counted as
/// irreversible; when the values are equal nothing is lost.
pub proof fn law_counter_merge_loses_the_smaller_value(cell: CrdtCell, u: PendingUpdate)
    requires
        is_counter(u.cell_type),
    ensures
        merge_is_irreversible(cell, u) <==> u.new_value != cell.value,
        merge_is_irreversible(cell, u) <==> (merged_value(cell, u) != cell.value || merged_value(cell, u)
            != u.new_value),
        u.new_value < cell.value ==> merge_is_irreversible(cell, u) && merged_value(cell, u) == cell.value,
        u.new_value > cell.value ==> merge_is_irreversible(cell, u) && merged_value(cell, u) == u.new_value,
{
}

/// A last-writer-wins merge is irreversible exactly when the update's write
/// replaces the register's (its stamp is later); otherwise the register
/// keeps its value and stamp.
pub proof fn law_lww_merge_loses_the_older_write(cell: CrdtCell, u: PendingUpdate, now: u64)
    requires
        u.cell_type == CrdtCellType::LwwRegister,
    ensures
        merge_is_irreversible(cell, u) <==> merged_cell(cell, u, now).timestamp > cell.timestamp,
        merge_is_irreversible(cell, u) ==> merged_cell(cell, u, now).value == u.new_value,
        !merge_is_irreversible(cell, u) ==> merged_cell(cell, u, now).value == cell.value
            && merged_cell(cell, u, now).timestamp == cell.timestamp,
{
}

/// OR-Set merges lose nothing: they are never counted as irreversible.
pub proof fn law_or_set_merge_reversible(cell: CrdtCell, u: PendingUpdate)
    requires
        u.cell_type == CrdtCellType::OrSet,
    ensures
        !merge_is_irreversible(cell, u),
{
}

} // verus!
