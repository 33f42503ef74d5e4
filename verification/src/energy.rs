//! Power sources, energy policies and the reasons a migration decision
//! gives.  The energy arithmetic itself is floating point and stays outside
//! the library; the policy a battery level calls for is decided here, on the
//! bit pattern of the battery fraction.

use vstd::prelude::*;
use crate::ieee::{bits_lt, f64_lt, is_nan, order_key};

verus! {

/// Where a shell draws its power from.
#[derive(Debug, Clone, Copy, PartialEq, Eq, Structural)]
pub enum PowerSource {
    /// Wall power: effectively unlimited energy
    Ac,
    /// Battery: finite and depleting
    Battery,
    /// Power over Ethernet: limited but stable
    Poe,
    /// Unknown / not reporting
    Unknown,
}

/// Energy policy — determines how aggressively to conserve energy.
#[derive(Debug, Clone, Copy, PartialEq, Eq, Structural)]
pub enum EnergyPolicy {
    /// Maximum performance. AC power assumed.
    Performance,
    /// Balance performance and battery life.
    Balanced,
    /// Conserve battery. Reflex-only mode (no LLM inference).
    Saver,
    /// Battery < 10%. Minimal operation. Emergency.
    Emergency,
}

/// Why a migration decision came out as it did.
#[derive(Debug, Clone, Copy, PartialEq, Eq, Structural)]
pub enum MigrationDecisionReason {
    /// Thermal headroom at current shell is sufficient; no benefit to migration
    ThermallyComfortable,
    /// Current shell is approaching throttle; migration saves energy
    /// by avoiding throttled (inefficient) computation
    ThermalEscape,
    /// New shell has significantly better compute-per-joule
    BetterComputeEfficiency,
    /// Migration cost exceeds projected savings; stay put
    MigrationTooExpensive,
    /// Battery critically low; must migrate to AC-powered shell
    BatteryEmergency,
    /// Consent denied; migration blocked regardless of energy benefit
    ConsentBlocked,
}

/// `0.50` as a double.
pub const HALF_CHARGE_BITS: u64 = 0x3FE0_0000_0000_0000;

/// `0.20` as a double.
pub const LOW_CHARGE_BITS: u64 = 0x3FC9_9999_9999_999A;

/// The policy for a shell: performance on mains power; on battery,
/// balanced above half charge, saver above a fifth, emergency otherwise.
pub open spec fn policy_for(on_battery: bool, battery_pct: u64) -> EnergyPolicy {
    if !on_battery {
        EnergyPolicy::Performance
    } else if f64_lt(HALF_CHARGE_BITS, battery_pct) {
        EnergyPolicy::Balanced
    } else if f64_lt(LOW_CHARGE_BITS, battery_pct) {
        EnergyPolicy::Saver
    } else {
        EnergyPolicy::Emergency
    }
}

impl EnergyPolicy {
    /// The policy a shell's power state calls for; `battery_pct_bits` is
    /// the battery fraction (0.0–1.0) as the bits of a double.
    pub fn auto_policy(on_battery: bool, battery_pct_bits: u64) -> (p: EnergyPolicy)
        ensures
            p == policy_for(on_battery, battery_pct_bits),
    {
        if !on_battery {
            return EnergyPolicy::Performance;
        }
        if bits_lt(HALF_CHARGE_BITS, battery_pct_bits) {
            EnergyPolicy::Balanced
        } else if bits_lt(LOW_CHARGE_BITS, battery_pct_bits) {
            EnergyPolicy::Saver
        } else {
            EnergyPolicy::Emergency
        }
    }
}

/// How much a policy conserves: Performance < Balanced < Saver < Emergency.
pub open spec fn thrift(p: EnergyPolicy) -> int {
    match p {
        EnergyPolicy::Performance => 0,
        EnergyPolicy::Balanced => 1,
        EnergyPolicy::Saver => 2,
        EnergyPolicy::Emergency => 3,
    }
}

/// A lower battery never calls for a less frugal policy: for charges
/// `a <= b` (neither NaN) the policy at `a` conserves at least as much as
/// the one at `b`.
pub proof fn law_policy_tightens_as_battery_drains(a: u64, b: u64)
    requires
        !is_nan(a),
        !is_nan(b),
        order_key(a) <= order_key(b),
    ensures
        thrift(policy_for(true, a)) >= thrift(policy_for(true, b)),
{
}

} // verus!
