use pincher_core::claws::ExecutionTarget;
use pincher_core::crdt::{
    fresh_cell, merge_into, repartition_move, split_by_temperature, temperature_of, CellStore, CellTemperature,
    CrdtCellType, PartitionMove, PendingUpdate,
};

fn update(target: u64, value: u64, ts: u64, t: CrdtCellType) -> PendingUpdate {
    PendingUpdate { target_id: target, new_value: value, source_hash: 77, timestamp: ts, cell_type: t, _pad: [0; 7] }
}

#[test]
fn counter_merge_keeps_the_larger_value() {
    let mut c = fresh_cell(CrdtCellType::GCounter);
    assert!(merge_into(&mut c, &update(1, 5, 0, CrdtCellType::GCounter), 100));
    assert_eq!(c.value, 5);
    assert!(!merge_into(&mut c, &update(1, 5, 0, CrdtCellType::GCounter), 101));
    assert!(merge_into(&mut c, &update(1, 3, 0, CrdtCellType::GCounter), 102));
    assert_eq!(c.value, 5);
    assert_eq!(c.access_count, 3);
    assert_eq!(c.last_access_epoch, 102);
}

#[test]
fn lww_register_takes_the_later_write() {
    let mut c = fresh_cell(CrdtCellType::LwwRegister);
    assert!(merge_into(&mut c, &update(1, 10, 5, CrdtCellType::LwwRegister), 0));
    assert_eq!((c.value, c.timestamp, c.source_hash), (10, 5, 77));
    assert!(!merge_into(&mut c, &update(1, 20, 4, CrdtCellType::LwwRegister), 0));
    assert_eq!(c.value, 10);
    assert!(!merge_into(&mut c, &update(1, 20, 5, CrdtCellType::LwwRegister), 0));
    assert_eq!(c.value, 10);
}

#[test]
fn or_set_takes_the_update_and_is_reversible() {
    let mut c = fresh_cell(CrdtCellType::OrSet);
    c.value = 9;
    assert!(!merge_into(&mut c, &update(1, 4, 0, CrdtCellType::OrSet), 0));
    assert_eq!(c.value, 4);
}

#[test]
fn merge_order_does_not_matter_for_counters() {
    let a = update(1, 8, 0, CrdtCellType::PnCounter);
    let b = update(1, 3, 0, CrdtCellType::PnCounter);
    let mut x = fresh_cell(CrdtCellType::PnCounter);
    merge_into(&mut x, &a, 0);
    merge_into(&mut x, &b, 0);
    let mut y = fresh_cell(CrdtCellType::PnCounter);
    merge_into(&mut y, &b, 0);
    merge_into(&mut y, &a, 0);
    assert_eq!(x.value, y.value);
    assert_eq!(x.value, 8);
}

#[test]
fn merge_through_the_store() {
    let mut store = CellStore::new();
    let (r, irreversible) = store.merge_one_cpu(&update(7, 12, 0, CrdtCellType::TrustScore), 50);
    assert_eq!((r.target_id, r.old_value, r.new_value, r.was_hot), (7, 0, 12, false));
    assert_eq!(r.merged_on, ExecutionTarget::Cpu);
    assert!(irreversible);
    assert!(store.apply_move(7, PartitionMove::Promote));
    let (r2, irr2) = store.merge_one_cpu(&update(7, 4, 0, CrdtCellType::TrustScore), 51);
    assert_eq!((r2.old_value, r2.new_value, r2.was_hot), (12, 12, true));
    assert!(irr2);
    // Another cell starts fresh.
    let (r3, _) = store.merge_one_cpu(&update(8, 0, 0, CrdtCellType::TrustScore), 52);
    assert_eq!((r3.old_value, r3.new_value), (0, 0));
}

#[test]
fn hot_partition_moves() {
    let mut store = CellStore::new();
    assert!(!store.is_hot(3));
    assert!(!store.apply_move(3, PartitionMove::Keep));
    assert!(!store.is_hot(3));
    store.apply_move(3, PartitionMove::Promote);
    assert!(store.is_hot(3));
    assert_eq!(store.temperature(3, None, 1.0f64.to_bits()), CellTemperature::Hot);
    store.apply_move(3, PartitionMove::Demote);
    assert!(!store.is_hot(3));
    assert_eq!(store.temperature(3, Some(2.0f64.to_bits()), 1.0f64.to_bits()), CellTemperature::Warm);
}

#[test]
fn temperature_rules() {
    let warm = 1.0f64.to_bits();
    assert_eq!(temperature_of(true, None, warm), CellTemperature::Hot);
    assert_eq!(temperature_of(false, None, warm), CellTemperature::Cold);
    assert_eq!(temperature_of(false, Some(1.0f64.to_bits()), warm), CellTemperature::Warm);
    assert_eq!(temperature_of(false, Some(0.99f64.to_bits()), warm), CellTemperature::Cold);
    assert_eq!(temperature_of(false, Some(f64::NAN.to_bits()), warm), CellTemperature::Cold);
}

#[test]
fn batches_split_in_order() {
    let us = vec![
        update(1, 0, 0, CrdtCellType::GCounter),
        update(2, 0, 0, CrdtCellType::GCounter),
        update(3, 0, 0, CrdtCellType::GCounter),
        update(4, 0, 0, CrdtCellType::GCounter),
    ];
    let ts = vec![CellTemperature::Warm, CellTemperature::Hot, CellTemperature::Cold, CellTemperature::Hot];
    let (hot, cold) = split_by_temperature(&us, &ts);
    assert_eq!(hot.iter().map(|u| u.target_id).collect::<Vec<_>>(), vec![2, 4]);
    assert_eq!(cold.iter().map(|u| u.target_id).collect::<Vec<_>>(), vec![1, 3]);
}

#[test]
fn repartition_rules() {
    let t = 100.0f64.to_bits();
    assert_eq!(repartition_move(150.0f64.to_bits(), t, false, true), PartitionMove::Promote);
    assert_eq!(repartition_move(150.0f64.to_bits(), t, false, false), PartitionMove::Keep);
    assert_eq!(repartition_move(150.0f64.to_bits(), t, true, true), PartitionMove::Keep);
    assert_eq!(repartition_move(50.0f64.to_bits(), t, true, true), PartitionMove::Demote);
    assert_eq!(repartition_move(50.0f64.to_bits(), t, false, true), PartitionMove::Keep);
}
