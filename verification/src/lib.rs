//! Core state machine of an electric-vehicle charging reward platform.
//!
//! Drivers earn reward points for reported charging sessions, may delegate a
//! spending authority over those points to the platform, and third parties can
//! buy points from drivers by paying native currency directly to the driver.
//! This crate holds the platform's verified state machine: the registry,
//! driver and session records, the deterministic authority derivation, and the
//! five state transitions with their invariants and failure conditions.

use vstd::prelude::*;

pub mod authority;
pub mod errors;
pub mod laws;
pub mod platform;
pub mod state;
pub mod token;

verus! {

/// Reward units minted for each milli-kWh of reported energy.
pub const POINTS_PER_MILLI_KWH: u64 = 1_000_000;

/// Milli-kWh per whole kWh: reported energy is truncated to whole kWh for the
/// session record.
pub const MILLI_PER_KWH: u64 = 1000;

/// Computes the reward points owed for a reported energy amount, in smallest
/// asset units; `None` exactly when the multiplication would overflow.
pub fn points_for_energy(energy_used_milli_kwh: u64) -> (r: Option<u64>)
    ensures
        energy_used_milli_kwh * POINTS_PER_MILLI_KWH <= u64::MAX ==> r == Some(
            (energy_used_milli_kwh * POINTS_PER_MILLI_KWH) as u64,
        ),
        energy_used_milli_kwh * POINTS_PER_MILLI_KWH > u64::MAX ==> r is None,
{
    energy_used_milli_kwh.checked_mul(POINTS_PER_MILLI_KWH)
}

} // verus!
