//! RAM homeostasis: the runtime modes of the engine, the control actions
//! its PID controller recommends, and the rules that pick them.
//!
//! As RAM pressure rises the engine moves from `Normal` to `Light` to
//! `Critical` (reflex-only, no LLM).  The controller's arithmetic is done in
//! floating point outside the library; the thresholds it is held to are
//! decided here, on the bit patterns of the doubles involved.

use vstd::prelude::*;
use crate::ieee::{bits_lt, f64_lt, is_nan, order_key};

verus! {

/// A control action recommended by the PID controller.
#[derive(Debug, Clone, Copy, PartialEq, Eq, Structural)]
pub enum ControlAction {
    /// No change — RAM is within target range.
    Maintain,
    /// Unload the LLM sidecar to free RAM.
    UnloadLLM,
    /// Reduce the LLM context window to reduce RAM pressure.
    ReduceContextWindow,
    /// Load the LLM sidecar (RAM headroom available).
    LoadLLM,
}

/// The current runtime mode of PincherOS, dictated by resource pressure.
#[derive(Debug, Clone, Copy, PartialEq, Eq, Structural)]
pub enum RuntimeMode {
    /// Full operation — LLM + reflex engine available.
    Normal,
    /// Reduced context window — LLM available but limited.
    Light,
    /// Reflex-only — LLM is unloaded, only pre-compiled reflexes execute.
    Critical,
}

/// `0.90`: above this utilisation the engine is critical.
pub const CRITICAL_RATIO_BITS: u64 = 0x3FEC_CCCC_CCCC_CCCD;

/// `0.80`: above this utilisation the engine runs light.
pub const LIGHT_RATIO_BITS: u64 = 0x3FE9_9999_9999_999A;

/// `0.15`: a PID output above this calls for less RAM.
pub const PRESSURE_OUTPUT_BITS: u64 = 0x3FC3_3333_3333_3333;

/// `-0.15`: a PID output below this leaves room to load the LLM.
pub const HEADROOM_OUTPUT_BITS: u64 = 0xBFC3_3333_3333_3333;

/// The mode for a RAM utilisation ratio.
pub open spec fn mode_for(ratio: u64) -> RuntimeMode {
    if f64_lt(CRITICAL_RATIO_BITS, ratio) {
        RuntimeMode::Critical
    } else if f64_lt(LIGHT_RATIO_BITS, ratio) {
        RuntimeMode::Light
    } else {
        RuntimeMode::Normal
    }
}

/// The action for a PID output, given the RAM utilisation ratio.
pub open spec fn action_for(output: u64, ratio: u64) -> ControlAction {
    if f64_lt(PRESSURE_OUTPUT_BITS, output) {
        if f64_lt(CRITICAL_RATIO_BITS, ratio) {
            ControlAction::UnloadLLM
        } else {
            ControlAction::ReduceContextWindow
        }
    } else if f64_lt(output, HEADROOM_OUTPUT_BITS) {
        ControlAction::LoadLLM
    } else {
        ControlAction::Maintain
    }
}

/// The runtime mode for a RAM utilisation ratio (given by its bits):
/// critical above 0.90, light above 0.80, normal otherwise.
pub fn runtime_mode(ram_used_ratio_bits: u64) -> (m: RuntimeMode)
    ensures
        m == mode_for(ram_used_ratio_bits),
{
    if bits_lt(CRITICAL_RATIO_BITS, ram_used_ratio_bits) {
        RuntimeMode::Critical
    } else if bits_lt(LIGHT_RATIO_BITS, ram_used_ratio_bits) {
        RuntimeMode::Light
    } else {
        RuntimeMode::Normal
    }
}

/// Map a PID output to a control action: above 0.15 the footprint shrinks
/// (the LLM is unloaded when RAM is above 0.90, its context window reduced
/// otherwise); below -0.15 the LLM may load; in between nothing changes.
pub fn control_action(output_bits: u64, ram_used_ratio_bits: u64) -> (a: ControlAction)
    ensures
        a == action_for(output_bits, ram_used_ratio_bits),
{
    if bits_lt(PRESSURE_OUTPUT_BITS, output_bits) {
        if bits_lt(CRITICAL_RATIO_BITS, ram_used_ratio_bits) {
            ControlAction::UnloadLLM
        } else {
            ControlAction::ReduceContextWindow
        }
    } else if bits_lt(output_bits, HEADROOM_OUTPUT_BITS) {
        ControlAction::LoadLLM
    } else {
        ControlAction::Maintain
    }
}

/// How severe a mode is: Normal < Light < Critical.
pub open spec fn severity(m: RuntimeMode) -> int {
    match m {
        RuntimeMode::Normal => 0,
        RuntimeMode::Light => 1,
        RuntimeMode::Critical => 2,
    }
}

/// More RAM pressure never means a milder mode: for utilisations `a <= b`
/// (neither NaN), the mode of `b` is at least as severe as that of `a`.
pub proof fn law_mode_monotone(a: u64, b: u64)
    requires
        !is_nan(a),
        !is_nan(b),
        order_key(a) <= order_key(b),
    ensures
        severity(mode_for(a)) <= severity(mode_for(b)),
{
}

/// The controller only unloads the LLM when the engine is critical.
pub proof fn law_unload_only_when_critical(output: u64, ratio: u64)
    requires
        action_for(output, ratio) == ControlAction::UnloadLLM,
    ensures
        mode_for(ratio) == RuntimeMode::Critical,
{
}

} // verus!
