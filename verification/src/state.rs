//! Persistent records of the platform, and the event that a recorded session
//! emits.
//!
//! Identities are 32-byte account addresses, held as plain byte arrays.

use vstd::prelude::*;

verus! {

/// The singleton platform registry. The admin and the reward-point asset are
/// set at creation and never changed by any operation in scope.
#[derive(Clone, Copy, Debug)]
pub struct PlatformState {
    /// Identity that may register drivers.
    pub admin: [u8; 32],
    /// Identifier of the reward-point asset.
    pub mint: [u8; 32],
    /// Number of successfully recorded sessions since initialization.
    pub total_sessions: u64,
    /// Fee rate in basis points. Accepted at initialization but never applied
    /// by any operation in scope; preserved as-is.
    pub fee_bps: u64,
}

/// One record per registered driver, keyed by the driver identity.
#[derive(Clone, Copy, Debug)]
pub struct DriverAccount {
    /// The driver identity this record belongs to.
    pub driver: [u8; 32],
    /// Cumulative reported energy, in whole kWh. Monotonically non-decreasing.
    pub total_energy: u64,
    /// Cumulative reward points, in smallest asset units. Monotonically
    /// non-decreasing.
    pub total_points: u64,
    /// Number of sessions recorded for this driver. Monotonically
    /// non-decreasing.
    pub session_count: u64,
    /// Reserved. Present in the schema but never read or written by any
    /// operation in scope.
    pub points_balance: u64,
    /// Advisory asking price; no operation enforces it.
    pub price_per_point: u64,
    /// Gate controlling eligibility to sell points.
    pub active: bool,
}

/// One record per recorded charging session; append-only, never mutated.
///
/// `energy_used` is denominated in whole kWh while `points_earned` is in
/// smallest asset units: the unit mismatch within one record is preserved
/// intentionally.
#[derive(Clone, Debug)]
pub struct ChargingSession {
    /// The driver that reported the session.
    pub driver: [u8; 32],
    /// Free-form charger identifier; unauthenticated self-report.
    pub charger_code: String,
    /// Reported energy, truncated to whole kWh.
    pub energy_used: u64,
    /// Points minted for this session, in smallest asset units.
    pub points_earned: u64,
    /// Ledger time at creation.
    pub timestamp: i64,
}

/// Observational event emitted after a successful session recording; log-only,
/// with no effect on the state transition.
#[derive(Clone, Debug)]
pub struct SessionRecorded {
    pub driver: [u8; 32],
    pub charger_code: String,
    /// Reported energy, truncated to whole kWh.
    pub energy_used: u64,
    /// Points minted, in smallest asset units.
    pub points: u64,
}

/// Compares two account identities.
pub fn keys_eq(a: &[u8; 32], b: &[u8; 32]) -> (r: bool)
    ensures
        r == (a@ == b@),
{
    let mut i: usize = 0;
    while i < 32
        invariant
            i <= 32,
            forall|j: int| 0 <= j < i ==> a@[j] == b@[j],
        decreases 32 - i,
    {
        if a[i] != b[i] {
            return false;
        }
        i += 1;
    }
    proof {
        assert(a@ =~= b@);
    }
    true
}

} // verus!
