//! Shared types of the compute substrates ("claws"), and the routing rule
//! every substrate follows: CRDT merge is never dispatched to a substrate.

use vstd::prelude::*;
use std::time::Duration;

verus! {

/// Marker: participates in the ecosystem, thread-safe.
pub trait Pincher: Send + Sync + 'static {}

/// What a compute substrate can accelerate.
#[derive(Debug, Clone, Copy, PartialEq, Eq, Structural)]
pub enum AccelerationDomain {
    /// No acceleration. Everything on CPU. (RPi 4)
    NoAcceleration,
    /// GPU accelerates inference only. CRDT on CPU. (Jetson Nano)
    InferenceOnly,
    /// GPU accelerates inference + hot-path CRDT merge. (RTX 4090)
    InferenceAndHotMerge,
}

/// Priority for dispatch operations.
#[derive(Debug, Clone, Copy, PartialEq, Eq, Structural, PartialOrd, Ord)]
pub enum Priority {
    Low,
    Normal,
    High,
    Critical,
}

/// What kind of compute operation we're dispatching.
#[derive(Debug, Clone, Copy, PartialEq, Eq, Structural)]
pub enum DispatchKind {
    /// CRDT merge — never dispatched to a substrate
    CrdtMerge,
    /// LLM inference — routed to GPU if available, CPU otherwise
    Inference,
    /// Vector similarity search — GPU if available
    VectorSearch,
    /// Embedding computation — GPU if available
    Embed,
    /// Generic compute — implementation decides
    Compute,
}

/// Where an operation ran.
#[derive(Debug, Clone, Copy, PartialEq, Eq, Structural)]
pub enum ExecutionTarget {
    Cpu,
    Gpu,
    CpuSimulated,
}

/// The result of a dispatch operation.
#[derive(Debug, Clone, Copy)]
pub struct DispatchResult {
    /// Where the operation actually ran
    pub executed_on: ExecutionTarget,
    /// Wall-clock time
    pub elapsed: Duration,
    /// Whether the result came from a cache/reflex short-circuit
    pub cached: bool,
}

/// GPU command — 72 bytes of fields.
#[derive(Debug, Clone, Copy)]
pub struct GpuCommand {
    pub op_type: u32,
    pub priority: u32,
    pub target_id: u64,
    pub payload_ptr: u64,
    pub payload_len: u64,
    pub timestamp: u64,
    pub agent_id: u32,
    pub constraint_flag: u32,
    pub completion_sem: u64,
    pub parent_context: u64,
    pub dna_hash: u32,
    pub _pad: u32,
}

/// Thermal status of the CPU.
#[derive(Debug, Clone, Copy, PartialEq, Eq, Structural)]
pub enum ThermalStatus {
    Nominal,
    Warm,
    Hot,
    Critical,
}

/// Hardware fingerprint of a shell.
#[derive(Debug, Clone)]
pub struct ShellFingerprint(pub String);

impl Default for ShellFingerprint {
    /// The empty fingerprint.
    fn default() -> (f: Self)
        ensures
            f.0@ == Seq::<char>::empty(),
    {
        ShellFingerprint(String::new())
    }
}

/// A probed shell.
#[derive(Debug, Clone)]
pub struct ShellProfile {
    pub fingerprint: ShellFingerprint,
    pub device_type: DeviceType,
    pub capabilities: Capabilities,
    pub limits: Limits,
}

#[derive(Debug, Clone, Copy, PartialEq, Eq, Structural)]
pub enum DeviceType {
    TurboShell,
    CudaShell,
    BigConch,
    Custom,
}

#[derive(Debug, Clone, Copy)]
pub struct Capabilities {
    pub ram_total_bytes: u64,
    pub ram_available_bytes: u64,
    pub cpu_cores: usize,
    pub cpu_freq_mhz: u64,
    pub gpu: GpuType,
    pub disk_free_bytes: u64,
}

#[derive(Debug, Clone, Copy)]
pub enum GpuType {
    /// No GPU.
    NoGpu,
    Cuda { compute_capability: (u8, u8), sm_count: usize, vram_bytes: u64 },
}

#[derive(Debug, Clone, Copy)]
pub struct Limits {
    pub max_model_bytes: u64,
    pub max_concurrent_reflexes: usize,
    pub inference_threads: usize,
    pub gpu_layers: u32,
    pub sandbox_mem_bytes: u64,
    pub sandbox_cpu_secs: u64,
}

/// Placeholder for a migration bundle.
#[derive(Debug, Clone, Copy, Default)]
pub struct NailFile;

#[derive(Debug, Clone)]
pub struct ReflexId(pub String);

/// Placeholder for the rigging of an agent.
#[derive(Debug, Clone, Copy)]
pub struct RiggingProfile;

/// Refusal of a CRDT merge handed to a substrate.
pub const CRDT_MERGE_REFUSED: &'static str = "CRDT merge must go through PartitionedCrdtEngine, not Claws::dispatch";

/// Where the CPU substrate runs an operation of `kind`: CRDT merges are
/// refused, everything else runs on the CPU.
pub fn cpu_dispatch_target(kind: DispatchKind) -> (r: Result<ExecutionTarget, &'static str>)
    ensures
        kind == DispatchKind::CrdtMerge ==> r == Err::<ExecutionTarget, &'static str>(CRDT_MERGE_REFUSED),
        kind != DispatchKind::CrdtMerge ==> r == Ok::<ExecutionTarget, &'static str>(ExecutionTarget::Cpu),
{
    if kind == DispatchKind::CrdtMerge {
        Err(CRDT_MERGE_REFUSED)
    } else {
        Ok(ExecutionTarget::Cpu)
    }
}

/// RAM share of the model per agent on the CPU substrate (MB).
pub const MODEL_SHARE_MB: u64 = 300;

/// RAM for the state of one agent (MB).
pub const AGENT_STATE_MB: u64 = 50;

/// Most agents a CPU substrate runs at once.
pub const MAX_CPU_AGENTS: u64 = 6;

/// How many agents fit in `ram_available_mb` of RAM on a CPU substrate:
/// one per 350 MB, at most six.
pub fn cpu_agent_capacity(ram_available_mb: u64) -> (n: usize)
    ensures
        n == if ram_available_mb / 350 < 6 { ram_available_mb / 350 } else { 6 },
{
    let per_agent = MODEL_SHARE_MB + AGENT_STATE_MB;
    let fit = ram_available_mb / per_agent;
    let capped = if fit < MAX_CPU_AGENTS { fit } else { MAX_CPU_AGENTS };
    capped as usize
}

} // verus!
