use pincher_core::phantom::{CapabilitySet, PhantomCapabilityDetector, PhantomOutcome};

fn busycotypus() -> CapabilitySet {
    CapabilitySet {
        has_gpu: true,
        gpu_sm_count: 128,
        available_ram_mb: 4096,
        max_model_mb: 1400,
        max_concurrent: 2,
        shell_species: "Busycotypus".to_string(),
    }
}

fn nassarius() -> CapabilitySet {
    CapabilitySet {
        has_gpu: false,
        gpu_sm_count: 0,
        available_ram_mb: 4096,
        max_model_mb: 960,
        max_concurrent: 2,
        shell_species: "Nassarius".to_string(),
    }
}

#[test]
fn test_gpu_phantom_detection() {
    let mut detector = PhantomCapabilityDetector::new(busycotypus(), nassarius(), 1700000000);
    let result = detector.detect("reflex-gpu-sort", true, 0, 1, false, 1700000060);
    assert!(result.is_some(), "Should detect GPU phantom");
    assert_eq!(result.unwrap().outcome, PhantomOutcome::Failed);
}

#[test]
fn test_no_phantom_for_cpu_reflex() {
    let mut detector = PhantomCapabilityDetector::new(busycotypus(), nassarius(), 1700000000);
    let result = detector.detect("reflex-cpu-ls", false, 0, 0, false, 1700000060);
    assert!(result.is_none(), "No phantom for CPU reflex");
}

#[test]
fn test_capability_delta() {
    let detector = PhantomCapabilityDetector::new(busycotypus(), nassarius(), 1700000000);
    let delta = detector.capability_delta();
    assert!(delta.gpu_lost);
    assert!(!delta.gpu_gained);
}

#[test]
fn gpu_phantom_event_fields() {
    let mut d = PhantomCapabilityDetector::new(busycotypus(), nassarius(), 1000);
    let e = d.detect("r1", true, 0, 0, false, 1090).unwrap().clone();
    assert_eq!(e.reflex_id, "r1");
    assert_eq!(e.expected_capability, "gpu_128sm");
    assert_eq!(e.actual_capability, "none");
    assert_eq!(e.time_since_migration_s, 90);
    assert_eq!(e.outcome, PhantomOutcome::Adapted);
    assert_eq!(d.phantoms().len(), 1);
}

#[test]
fn ram_phantom_event_fields() {
    let mut d = PhantomCapabilityDetector::new(busycotypus(), nassarius(), 1000);
    let e = d.detect("big", false, 8192, 1, true, 1000).unwrap().clone();
    assert_eq!(e.expected_capability, "ram_8192mb");
    assert_eq!(e.actual_capability, "ram_4096mb");
    assert_eq!(e.time_since_migration_s, 0);
    assert_eq!(e.outcome, PhantomOutcome::Degraded);
    // Enough RAM: no event.
    assert!(d.detect("small", false, 4096, 0, false, 1001).is_none());
    assert_eq!(d.phantoms().len(), 1);
}

#[test]
fn adaptation_needs_phantoms_and_five_quiet_minutes() {
    let mut d = PhantomCapabilityDetector::new(busycotypus(), nassarius(), 0);
    d.update_adaptation(10_000);
    assert!(!d.is_adapted(), "no phantoms yet: not adapted");
    d.detect("r", true, 0, 1, false, 100);
    d.update_adaptation(350);
    assert!(!d.is_adapted(), "phantom 250 s ago is recent");
    d.update_adaptation(400);
    assert!(d.is_adapted(), "phantom exactly 300 s ago is no longer recent");
}

#[test]
fn adaptation_curve_bins_by_minute() {
    let mut d = PhantomCapabilityDetector::new(busycotypus(), nassarius(), 0);
    assert!(d.adaptation_curve().is_empty());
    d.detect("a", true, 0, 0, false, 30);
    d.detect("b", true, 0, 1, false, 59);
    d.detect("c", true, 0, 0, true, 60);
    d.detect("d", true, 0, 1, false, 125);
    let bins = d.adaptation_curve();
    // Latest event at 125 s: ceil(125 / 60) + 1 = 4 bins.
    assert_eq!(bins.len(), 4);
    assert_eq!(bins[0].time_range_s, (0, 60));
    assert_eq!(bins[3].time_range_s, (180, 240));
    assert_eq!(bins[0].phantom_count, 2);
    assert_eq!(bins[0].adapted_count, 1);
    assert_eq!(bins[0].failed_count, 1);
    assert_eq!(bins[1].phantom_count, 1);
    assert_eq!(bins[1].degraded_count, 1);
    assert_eq!(bins[2].phantom_count, 1);
    assert_eq!(bins[2].failed_count, 1);
    assert_eq!(bins[3].phantom_count, 0);
}

#[test]
fn capability_delta_differences() {
    let mut cur = busycotypus();
    cur.available_ram_mb = 1024;
    cur.max_concurrent = 6;
    let d = PhantomCapabilityDetector::new(nassarius(), cur, 0);
    let delta = d.capability_delta();
    assert!(delta.gpu_gained);
    assert!(!delta.gpu_lost);
    assert_eq!(delta.ram_gained_mb, -3072);
    assert_eq!(delta.concurrency_gained, 4);
}
