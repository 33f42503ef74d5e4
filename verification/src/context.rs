//! The context in which a reflex was encoded or validated (encoding
//! specificity: a memory serves best where it was formed).

use vstd::prelude::*;

verus! {

/// The context in which a reflex was encoded or validated.
#[derive(Debug, Clone)]
pub struct EncodingContext {
    /// Shell fingerprint at encoding time
    pub shell_fingerprint: String,
    /// Shell species (Nassarius, Busycotypus, etc.)
    pub shell_species: String,
    /// Resource state at encoding
    pub resource_state: ResourceSnapshot,
    /// Developmental stage at encoding
    pub developmental_stage: String,
    /// Whether the encoding was on GPU or CPU
    pub compute_path: ComputePath,
    /// Trust boundary (personal, work, shared)
    pub trust_boundary: String,
}

/// Snapshot of resource state at encoding/validation time.
#[derive(Debug, Clone)]
pub struct ResourceSnapshot {
    /// Available RAM (MB)
    pub available_ram_mb: u64,
    /// GPU available
    pub gpu_available: bool,
    /// Model loaded at encoding time
    pub model_loaded: bool,
    /// Thermal state
    pub thermal_state: String,
}

/// The compute path used for encoding/execution.
#[derive(Debug, Clone, Copy, PartialEq, Eq, Structural)]
pub enum ComputePath {
    /// Reflex short-circuit (no LLM, ~50ms)
    ReflexDirect,
    /// Reflex + LLM confirmation (~3s)
    ReflexWithConfirmation,
    /// Full LLM reasoning (~5s)
    FullLlmReasoning,
}

} // verus!
