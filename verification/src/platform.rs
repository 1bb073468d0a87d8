//! The platform's state machine: the singleton registry, one record per
//! registered driver, the append-only session log, and the five state
//! transitions over them.
//!
//! Each transition is atomic: it either commits every effect its spec
//! describes or fails with an error and changes nothing. Every failure
//! condition is exact: the `*_transition` spec functions say, for every input,
//! which error comes back and what the new state is.

use vstd::prelude::*;

use crate::authority::{
    is_mint_authority, is_platform_authority, mint_authority, platform_authority,
    platform_authority_spec,
};
use crate::errors::ErrorCode;
use crate::state::{keys_eq, ChargingSession, DriverAccount, PlatformState, SessionRecorded};
use crate::token::{transfer_delegated, transfer_native, TokenAccount};
use crate::{MILLI_PER_KWH, POINTS_PER_MILLI_KWH};

verus! {

/// Mathematical model of the platform's persistent records.
#[verifier::ext_equal]
pub struct PlatformModel {
    pub registry: Option<PlatformState>,
    pub drivers: Seq<DriverAccount>,
    pub sessions: Seq<ChargingSession>,
}

/// At most one record exists per driver identity.
pub open spec fn unique_drivers(ds: Seq<DriverAccount>) -> bool {
    forall|i: int, j: int| 0 <= i < j < ds.len() ==> ds[i].driver@ != ds[j].driver@
}

/// A driver record exists for this identity.
pub open spec fn contains_driver(ds: Seq<DriverAccount>, id: Seq<u8>) -> bool {
    exists|i: int| 0 <= i < ds.len() && ds[i].driver@ == id
}

/// The position of the driver record for this identity.
pub open spec fn index_of_driver(ds: Seq<DriverAccount>, id: Seq<u8>) -> int {
    choose|i: int| 0 <= i < ds.len() && ds[i].driver@ == id
}

impl PlatformModel {
    /// The singleton registry exists.
    pub open spec fn is_initialized(self) -> bool {
        self.registry is Some
    }

    /// The admin identity set at initialization.
    pub open spec fn admin(self) -> Seq<u8>
        recommends
            self.is_initialized(),
    {
        self.registry->Some_0.admin@
    }

    /// At most one driver record exists per driver identity.
    pub open spec fn drivers_unique(self) -> bool {
        unique_drivers(self.drivers)
    }

    /// A driver record exists for this identity.
    pub open spec fn has_driver(self, id: Seq<u8>) -> bool {
        contains_driver(self.drivers, id)
    }

    /// The position of the driver record for this identity.
    pub open spec fn driver_index(self, id: Seq<u8>) -> int {
        index_of_driver(self.drivers, id)
    }

    /// The driver record for this identity.
    pub open spec fn driver_rec(self, id: Seq<u8>) -> DriverAccount
        recommends
            self.has_driver(id),
    {
        self.drivers[self.driver_index(id)]
    }
}

/// With unique driver identities, any position holding the identity is the
/// position `index_of_driver` names.
pub proof fn lemma_driver_index_unique(ds: Seq<DriverAccount>, id: Seq<u8>, i: int)
    requires
        unique_drivers(ds),
        0 <= i < ds.len(),
        ds[i].driver@ == id,
    ensures
        contains_driver(ds, id),
        index_of_driver(ds, id) == i,
{
    assert(contains_driver(ds, id));
    let j = index_of_driver(ds, id);
    assert(0 <= j < ds.len() && ds[j].driver@ == id);
    if i < j {
        assert(ds[i].driver@ != ds[j].driver@);
    } else if j < i {
        assert(ds[j].driver@ != ds[i].driver@);
    }
}

/// The platform's persistent records.
pub struct Platform {
    /// The singleton registry, once initialized.
    pub registry: Option<PlatformState>,
    /// One record per registered driver.
    pub drivers: Vec<DriverAccount>,
    /// The append-only session log.
    pub sessions: Vec<ChargingSession>,
}

impl View for Platform {
    type V = PlatformModel;

    open spec fn view(&self) -> PlatformModel {
        PlatformModel { registry: self.registry, drivers: self.drivers@, sessions: self.sessions@ }
    }
}

/// The registry record that initialization creates.
pub open spec fn new_registry(admin: [u8; 32], mint: [u8; 32], fee_bps: u64) -> PlatformState {
    PlatformState { admin, mint, total_sessions: 0, fee_bps }
}

/// The driver record that registration creates.
pub open spec fn new_driver_record(driver: [u8; 32], price_per_point: u64) -> DriverAccount {
    DriverAccount {
        driver,
        total_energy: 0,
        total_points: 0,
        session_count: 0,
        points_balance: 0,
        price_per_point,
        active: true,
    }
}

/// What InitializePlatform does: creates the singleton registry with the
/// caller as admin, the fresh reward-point asset, a zero session counter and
/// the given fee rate; fails with AlreadyInitialized exactly when the registry
/// already exists, changing nothing.
pub open spec fn initialize_transition(
    pre: PlatformModel,
    admin: [u8; 32],
    mint: [u8; 32],
    fee_bps: u64,
) -> (PlatformModel, Result<(), ErrorCode>) {
    if pre.registry is Some {
        (pre, Err(ErrorCode::AlreadyInitialized))
    } else {
        (
            PlatformModel {
                registry: Some(new_registry(admin, mint, fee_bps)),
                drivers: pre.drivers,
                sessions: pre.sessions,
            },
            Ok(()),
        )
    }
}

/// What RegisterDriver does: fails with AuthorizationError exactly when the
/// caller is not the registry admin; otherwise fails with
/// DuplicateRegistration exactly when a record for the driver identity already
/// exists; otherwise appends a fresh active driver record. A failure changes
/// nothing.
pub open spec fn register_transition(
    pre: PlatformModel,
    admin_signer: [u8; 32],
    driver_pubkey: [u8; 32],
    price_per_point: u64,
) -> (PlatformModel, Result<(), ErrorCode>)
    recommends
        pre.is_initialized(),
{
    if admin_signer@ != pre.admin() {
        (pre, Err(ErrorCode::AuthorizationError))
    } else if pre.has_driver(driver_pubkey@) {
        (pre, Err(ErrorCode::DuplicateRegistration))
    } else {
        (
            PlatformModel {
                registry: pre.registry,
                drivers: pre.drivers.push(new_driver_record(driver_pubkey, price_per_point)),
                sessions: pre.sessions,
            },
            Ok(()),
        )
    }
}

/// The driver record with its eligibility gate set.
pub open spec fn set_active(rec: DriverAccount, active: bool) -> DriverAccount {
    DriverAccount {
        driver: rec.driver,
        total_energy: rec.total_energy,
        total_points: rec.total_points,
        session_count: rec.session_count,
        points_balance: rec.points_balance,
        price_per_point: rec.price_per_point,
        active,
    }
}

/// Outcome of an ApprovePlatformAccess transition: the driver records and the
/// driver's asset account.
#[verifier::ext_equal]
pub struct ApproveOutcome {
    pub drivers: Seq<DriverAccount>,
    pub token: TokenAccount,
    pub result: Result<(), ErrorCode>,
}

/// What ApprovePlatformAccess does. It fails with AuthorizationError exactly
/// when the signer is not the driver the record belongs to, and with
/// OwnerMismatch exactly when the supplied asset account is not owned by the
/// driver; a failure changes nothing. When activating, it delegates
/// `delegate_amount` units on the driver's asset account to the derived
/// platform authority — overwriting any prior delegation — and sets the record
/// active (failing with InvalidPlatformAuthority in the improbable event that
/// no authority can be derived). When deactivating, it revokes any delegation,
/// idempotently, and clears the active gate.
pub open spec fn approve_transition(
    pre: PlatformModel,
    tok: TokenAccount,
    driver_signer: [u8; 32],
    driver: [u8; 32],
    activate: bool,
    delegate_amount: u64,
    program_id: [u8; 32],
) -> ApproveOutcome
    recommends
        pre.has_driver(driver@),
        pre.drivers_unique(),
{
    let idx = pre.driver_index(driver@);
    let rec = pre.drivers[idx];
    if driver_signer@ != rec.driver@ {
        ApproveOutcome { drivers: pre.drivers, token: tok, result: Err(ErrorCode::AuthorizationError) }
    } else if tok.owner@ != driver_signer@ {
        ApproveOutcome { drivers: pre.drivers, token: tok, result: Err(ErrorCode::OwnerMismatch) }
    } else if activate {
        match platform_authority_spec(program_id@) {
            Some(p) => ApproveOutcome {
                drivers: pre.drivers.update(idx, set_active(rec, true)),
                token: TokenAccount {
                    owner: tok.owner,
                    balance: tok.balance,
                    delegate: Some(p.0),
                    delegated_amount: delegate_amount,
                },
                result: Ok(()),
            },
            None => ApproveOutcome {
                drivers: pre.drivers,
                token: tok,
                result: Err(ErrorCode::InvalidPlatformAuthority),
            },
        }
    } else {
        ApproveOutcome {
            drivers: pre.drivers.update(idx, set_active(rec, false)),
            token: TokenAccount {
                owner: tok.owner,
                balance: tok.balance,
                delegate: None,
                delegated_amount: 0,
            },
            result: Ok(()),
        }
    }
}

/// The reward points owed for a reported energy amount, before the overflow
/// check: the reward multiplier applied to the milli-kWh self-report.
pub open spec fn session_points(e: u64) -> int {
    e * POINTS_PER_MILLI_KWH
}

/// The reported energy truncated to whole kWh.
pub open spec fn session_kwh(e: u64) -> u64 {
    e / MILLI_PER_KWH
}

/// The driver record after one recorded session: points, energy and session
/// count each grow by exactly the session's contribution; nothing else moves.
pub open spec fn apply_session(rec: DriverAccount, e: u64) -> DriverAccount
    recommends
        rec.total_points + session_points(e) <= u64::MAX,
        rec.total_energy + session_kwh(e) <= u64::MAX,
        rec.session_count + 1 <= u64::MAX,
{
    DriverAccount {
        driver: rec.driver,
        total_energy: (rec.total_energy + session_kwh(e)) as u64,
        total_points: (rec.total_points + session_points(e)) as u64,
        session_count: (rec.session_count + 1) as u64,
        points_balance: rec.points_balance,
        price_per_point: rec.price_per_point,
        active: rec.active,
    }
}

/// The registry after one recorded session: only the session counter moves.
pub open spec fn tick_sessions(st: PlatformState) -> PlatformState
    recommends
        st.total_sessions + 1 <= u64::MAX,
{
    PlatformState {
        admin: st.admin,
        mint: st.mint,
        total_sessions: (st.total_sessions + 1) as u64,
        fee_bps: st.fee_bps,
    }
}

/// The session record that one successful RecordSession appends.
pub open spec fn new_session(
    driver: [u8; 32],
    charger_code: String,
    e: u64,
    timestamp: i64,
) -> ChargingSession {
    ChargingSession {
        driver,
        charger_code,
        energy_used: session_kwh(e),
        points_earned: session_points(e) as u64,
        timestamp,
    }
}

/// The notification that a successful RecordSession emits.
pub open spec fn session_event(driver: [u8; 32], charger_code: String, e: u64) -> SessionRecorded {
    SessionRecorded {
        driver,
        charger_code,
        energy_used: session_kwh(e),
        points: session_points(e) as u64,
    }
}

/// Outcome of a RecordSession transition: the platform records and the
/// driver's asset account.
#[verifier::ext_equal]
pub struct RecordOutcome {
    pub model: PlatformModel,
    pub token: TokenAccount,
    pub result: Result<(), ErrorCode>,
}

/// What RecordSession does. The reward multiplication is overflow-checked and
/// fails with ArithmeticError; the supplied mint authority must be the derived
/// one, else InvalidPlatformAuthority; minting fails with ExternalLedgerError
/// exactly when the ledger cannot represent the new balance; every counter
/// update is overflow-checked and fails with ArithmeticError. On success the
/// minted points land on the driver's asset account, a session record is
/// appended, the driver's counters grow by exactly the session's contribution
/// and the registry's session counter by one. A failure changes nothing.
pub open spec fn record_transition(
    pre: PlatformModel,
    tok: TokenAccount,
    driver: [u8; 32],
    charger_code: String,
    e: u64,
    timestamp: i64,
    supplied_mint_authority: [u8; 32],
    program_id: [u8; 32],
) -> RecordOutcome
    recommends
        pre.is_initialized(),
        pre.drivers_unique(),
        pre.has_driver(driver@),
{
    let idx = pre.driver_index(driver@);
    let rec = pre.drivers[idx];
    let st = pre.registry->Some_0;
    if session_points(e) > u64::MAX {
        RecordOutcome { model: pre, token: tok, result: Err(ErrorCode::ArithmeticError) }
    } else if !is_mint_authority(supplied_mint_authority@, program_id@) {
        RecordOutcome { model: pre, token: tok, result: Err(ErrorCode::InvalidPlatformAuthority) }
    } else if tok.balance + session_points(e) > u64::MAX {
        RecordOutcome { model: pre, token: tok, result: Err(ErrorCode::ExternalLedgerError) }
    } else if rec.total_points + session_points(e) > u64::MAX || rec.total_energy + session_kwh(e)
        > u64::MAX || rec.session_count + 1 > u64::MAX || st.total_sessions + 1 > u64::MAX {
        RecordOutcome { model: pre, token: tok, result: Err(ErrorCode::ArithmeticError) }
    } else {
        RecordOutcome {
            model: PlatformModel {
                registry: Some(tick_sessions(st)),
                drivers: pre.drivers.update(idx, apply_session(rec, e)),
                sessions: pre.sessions.push(new_session(driver, charger_code, e, timestamp)),
            },
            token: TokenAccount {
                owner: tok.owner,
                balance: (tok.balance + session_points(e)) as u64,
                delegate: tok.delegate,
                delegated_amount: tok.delegated_amount,
            },
            result: Ok(()),
        }
    }
}

/// Outcome of a BuyPoints transition: the two asset accounts and the two
/// native balances. The platform records never change.
pub struct BuyOutcome {
    pub driver_token: TokenAccount,
    pub buyer_token: TokenAccount,
    pub buyer_lamports: u64,
    pub driver_lamports: u64,
    pub result: Result<(), ErrorCode>,
}

/// A BuyPoints outcome that moved nothing and reports `e`.
pub open spec fn buy_rejected(
    dtok: TokenAccount,
    btok: TokenAccount,
    buyer_lamports: u64,
    driver_lamports: u64,
    e: ErrorCode,
) -> BuyOutcome {
    BuyOutcome { driver_token: dtok, buyer_token: btok, buyer_lamports, driver_lamports, result: Err(e) }
}

/// What BuyPoints does. It fails, moving nothing, with: DriverNotActive
/// exactly when the driver's record is inactive; OwnerMismatch when either
/// asset account is not owned by its expected party; NoDelegation when the
/// driver's asset account does not carry a delegation to the supplied
/// authority — including when no delegation exists at all; ExternalLedgerError
/// when the buyer cannot pay, a balance cannot be represented, or the
/// delegated allowance or point balance is insufficient;
/// InvalidPlatformAuthority when the supplied authority is not the derived
/// platform authority. On success the native payment goes directly from buyer
/// to driver and `amount` points move from the driver's delegated balance to
/// the buyer, debiting the allowance. No check relates `sol_payment` to the
/// driver's advisory price.
pub open spec fn buy_transition(
    rec: DriverAccount,
    dtok: TokenAccount,
    btok: TokenAccount,
    buyer: [u8; 32],
    driver: [u8; 32],
    buyer_lamports: u64,
    driver_lamports: u64,
    amount: u64,
    sol_payment: u64,
    supplied_authority: [u8; 32],
    program_id: [u8; 32],
) -> BuyOutcome {
    if !rec.active {
        buy_rejected(dtok, btok, buyer_lamports, driver_lamports, ErrorCode::DriverNotActive)
    } else if dtok.owner@ != driver@ {
        buy_rejected(dtok, btok, buyer_lamports, driver_lamports, ErrorCode::OwnerMismatch)
    } else if !(dtok.delegate matches Some(d) && d@ == supplied_authority@) {
        buy_rejected(dtok, btok, buyer_lamports, driver_lamports, ErrorCode::NoDelegation)
    } else if btok.owner@ != buyer@ {
        buy_rejected(dtok, btok, buyer_lamports, driver_lamports, ErrorCode::OwnerMismatch)
    } else if buyer_lamports < sol_payment || driver_lamports + sol_payment > u64::MAX {
        buy_rejected(dtok, btok, buyer_lamports, driver_lamports, ErrorCode::ExternalLedgerError)
    } else if !is_platform_authority(supplied_authority@, program_id@) {
        buy_rejected(
            dtok,
            btok,
            buyer_lamports,
            driver_lamports,
            ErrorCode::InvalidPlatformAuthority,
        )
    } else if dtok.delegated_amount < amount || dtok.balance < amount || btok.balance + amount
        > u64::MAX {
        buy_rejected(dtok, btok, buyer_lamports, driver_lamports, ErrorCode::ExternalLedgerError)
    } else {
        BuyOutcome {
            driver_token: TokenAccount {
                owner: dtok.owner,
                balance: (dtok.balance - amount) as u64,
                delegate: dtok.delegate,
                delegated_amount: (dtok.delegated_amount - amount) as u64,
            },
            buyer_token: TokenAccount {
                owner: btok.owner,
                balance: (btok.balance + amount) as u64,
                delegate: btok.delegate,
                delegated_amount: btok.delegated_amount,
            },
            buyer_lamports: (buyer_lamports - sol_payment) as u64,
            driver_lamports: (driver_lamports + sol_payment) as u64,
            result: Ok(()),
        }
    }
}

impl Platform {
    /// A platform with no records: not yet initialized, no drivers, no
    /// sessions.
    pub fn new() -> (r: Platform)
        ensures
            r@.registry is None,
            r@.drivers == Seq::<DriverAccount>::empty(),
            r@.sessions == Seq::<ChargingSession>::empty(),
    {
        Platform { registry: None, drivers: Vec::new(), sessions: Vec::new() }
    }

    /// Whether the singleton registry exists.
    pub fn is_initialized(&self) -> (r: bool)
        ensures
            r == self@.is_initialized(),
    {
        self.registry.is_some()
    }

    /// Finds the position of the driver record for an identity.
    pub fn find_driver(&self, id: &[u8; 32]) -> (r: Option<usize>)
        ensures
            r matches Some(i) ==> i < self.drivers@.len() && self.drivers@[i as int].driver@
                == id@,
            r is None ==> !self@.has_driver(id@),
    {
        let n = self.drivers.len();
        let mut i: usize = 0;
        while i < n
            invariant
                n == self.drivers@.len(),
                i <= n,
                forall|j: int| 0 <= j < i ==> self.drivers@[j].driver@ != id@,
            decreases n - i,
        {
            if keys_eq(&self.drivers[i].driver, id) {
                return Some(i);
            }
            i += 1;
        }
        None
    }

    /// Whether a driver record exists for this identity.
    pub fn has_driver(&self, id: &[u8; 32]) -> (r: bool)
        ensures
            r == self@.has_driver(id@),
    {
        match self.find_driver(id) {
            Some(i) => {
                proof {
                    assert(self@.drivers[i as int].driver@ == id@);
                    assert(self@.has_driver(id@));
                }
                true
            },
            None => false,
        }
    }

    /// Creates the singleton registry and adopts the freshly created
    /// reward-point asset; see `initialize_transition` for the exact contract.
    pub fn initialize_platform(&mut self, admin: [u8; 32], mint: [u8; 32], fee_bps: u64) -> (r:
        Result<(), ErrorCode>)
        ensures
            r == initialize_transition(old(self)@, admin, mint, fee_bps).1,
            final(self)@ == initialize_transition(old(self)@, admin, mint, fee_bps).0,
            old(self)@.drivers_unique() ==> final(self)@.drivers_unique(),
    {
        if self.registry.is_some() {
            return Err(ErrorCode::AlreadyInitialized);
        }
        self.registry = Some(PlatformState { admin, mint, total_sessions: 0, fee_bps });
        proof {
            assert(self@ =~= initialize_transition(old(self)@, admin, mint, fee_bps).0);
            if old(self)@.drivers_unique() {
                assert forall|i: int, j: int|
                    0 <= i < j < self@.drivers.len() implies self@.drivers[i].driver@
                    != self@.drivers[j].driver@ by {
                    assert(old(self)@.drivers[i].driver@ != old(self)@.drivers[j].driver@);
                }
            }
        }
        Ok(())
    }

    /// Registers a driver on the admin's authority; see `register_transition`
    /// for the exact contract.
    pub fn register_driver(
        &mut self,
        admin_signer: &[u8; 32],
        driver_pubkey: [u8; 32],
        price_per_point: u64,
    ) -> (r: Result<(), ErrorCode>)
        requires
            old(self)@.is_initialized(),
            old(self)@.drivers_unique(),
        ensures
            r == register_transition(old(self)@, *admin_signer, driver_pubkey, price_per_point).1,
            final(self)@ == register_transition(
                old(self)@,
                *admin_signer,
                driver_pubkey,
                price_per_point,
            ).0,
            final(self)@.is_initialized(),
            final(self)@.drivers_unique(),
    {
        let admin_ok = match &self.registry {
            Some(st) => keys_eq(&st.admin, admin_signer),
            None => false,
        };
        if !admin_ok {
            return Err(ErrorCode::AuthorizationError);
        }
        match self.find_driver(&driver_pubkey) {
            Some(_) => {
                proof {
                    assert(self@.has_driver(driver_pubkey@));
                }
                Err(ErrorCode::DuplicateRegistration)
            },
            None => {
                let rec = DriverAccount {
                    driver: driver_pubkey,
                    total_energy: 0,
                    total_points: 0,
                    session_count: 0,
                    points_balance: 0,
                    price_per_point,
                    active: true,
                };
                self.drivers.push(rec);
                proof {
                    let post = register_transition(
                        old(self)@,
                        *admin_signer,
                        driver_pubkey,
                        price_per_point,
                    ).0;
                    assert(self@ =~= post);
                    assert forall|i: int, j: int|
                        0 <= i < j < self.drivers@.len() implies self.drivers@[i].driver@
                        != self.drivers@[j].driver@ by {
                        if j == self.drivers@.len() - 1 {
                            assert(!old(self)@.has_driver(driver_pubkey@));
                            assert(old(self)@.drivers[i].driver@ != driver_pubkey@);
                        }
                    }
                }
                Ok(())
            },
        }
    }

    /// Approves or revokes the platform's delegated access to the driver's
    /// asset account and toggles the record's active gate; see
    /// `approve_transition` for the exact contract.
    pub fn approve_platform_access(
        &mut self,
        driver_signer: &[u8; 32],
        driver: &[u8; 32],
        activate: bool,
        delegate_amount: u64,
        program_id: &[u8; 32],
        driver_token: &mut TokenAccount,
    ) -> (r: Result<(), ErrorCode>)
        requires
            old(self)@.is_initialized(),
            old(self)@.drivers_unique(),
            old(self)@.has_driver(driver@),
        ensures
            ({
                let o = approve_transition(
                    old(self)@,
                    *old(driver_token),
                    *driver_signer,
                    *driver,
                    activate,
                    delegate_amount,
                    *program_id,
                );
                &&& r == o.result
                &&& final(self)@.drivers == o.drivers
                &&& *final(driver_token) == o.token
            }),
            final(self)@.registry == old(self)@.registry,
            final(self)@.sessions == old(self)@.sessions,
            final(self)@.is_initialized(),
            final(self)@.drivers_unique(),
            final(self)@.has_driver(driver@),
    {
        let idx = match self.find_driver(driver) {
            Some(i) => i,
            None => {
                proof {
                    assert(false);
                }
                return Err(ErrorCode::AuthorizationError);
            },
        };
        proof {
            lemma_driver_index_unique(self@.drivers, driver@, idx as int);
        }
        if !keys_eq(&self.drivers[idx].driver, driver_signer) {
            return Err(ErrorCode::AuthorizationError);
        }
        if !keys_eq(&driver_token.owner, driver_signer) {
            return Err(ErrorCode::OwnerMismatch);
        }
        let rec = self.drivers[idx];
        if activate {
            match platform_authority(program_id) {
                Some((authority, _bump)) => {
                    driver_token.approve(authority, delegate_amount);
                    self.drivers[idx] = DriverAccount {
                        driver: rec.driver,
                        total_energy: rec.total_energy,
                        total_points: rec.total_points,
                        session_count: rec.session_count,
                        points_balance: rec.points_balance,
                        price_per_point: rec.price_per_point,
                        active: true,
                    };
                    proof {
                        lemma_update_keeps_unique(old(self)@.drivers, idx as int, set_active(rec, true));
                        assert(self@.drivers =~= approve_transition(
                            old(self)@,
                            *old(driver_token),
                            *driver_signer,
                            *driver,
                            activate,
                            delegate_amount,
                            *program_id,
                        ).drivers);
                    }
                    Ok(())
                },
                None => Err(ErrorCode::InvalidPlatformAuthority),
            }
        } else {
            driver_token.revoke();
            self.drivers[idx] = DriverAccount {
                driver: rec.driver,
                total_energy: rec.total_energy,
                total_points: rec.total_points,
                session_count: rec.session_count,
                points_balance: rec.points_balance,
                price_per_point: rec.price_per_point,
                active: false,
            };
            proof {
                lemma_update_keeps_unique(old(self)@.drivers, idx as int, set_active(rec, false));
                assert(self@.drivers =~= approve_transition(
                    old(self)@,
                    *old(driver_token),
                    *driver_signer,
                    *driver,
                    activate,
                    delegate_amount,
                    *program_id,
                ).drivers);
            }
            Ok(())
        }
    }

    /// Records a self-reported charging session: mints the owed points to the
    /// driver's asset account under the derived mint authority, appends the
    /// session to the audit log, and advances the driver's and the registry's
    /// counters; see `record_transition` for the exact contract. On success it
    /// returns the notification to emit.
    pub fn record_session(
        &mut self,
        driver: &[u8; 32],
        charger_code: String,
        energy_used_milli_kwh: u64,
        timestamp: i64,
        supplied_mint_authority: &[u8; 32],
        program_id: &[u8; 32],
        driver_token: &mut TokenAccount,
    ) -> (r: Result<SessionRecorded, ErrorCode>)
        requires
            old(self)@.is_initialized(),
            old(self)@.drivers_unique(),
            old(self)@.has_driver(driver@),
            old(driver_token).owner@ == driver@,
        ensures
            ({
                let o = record_transition(
                    old(self)@,
                    *old(driver_token),
                    *driver,
                    charger_code,
                    energy_used_milli_kwh,
                    timestamp,
                    *supplied_mint_authority,
                    *program_id,
                );
                &&& final(self)@ == o.model
                &&& *final(driver_token) == o.token
                &&& (r is Ok <==> o.result is Ok)
                &&& (r matches Err(c) ==> o.result == Err::<(), ErrorCode>(c))
                &&& (r matches Ok(ev) ==> ev == session_event(
                    *driver,
                    charger_code,
                    energy_used_milli_kwh,
                ))
            }),
            final(self)@.is_initialized(),
            final(self)@.drivers_unique(),
            final(self)@.has_driver(driver@),
    {
        let idx = match self.find_driver(driver) {
            Some(i) => i,
            None => {
                proof {
                    assert(false);
                }
                return Err(ErrorCode::AuthorizationError);
            },
        };
        proof {
            lemma_driver_index_unique(self@.drivers, driver@, idx as int);
        }
        let points = match energy_used_milli_kwh.checked_mul(POINTS_PER_MILLI_KWH) {
            Some(p) => p,
            None => {
                return Err(ErrorCode::ArithmeticError);
            },
        };
        let authority_ok = match mint_authority(program_id) {
            Some((authority, _bump)) => keys_eq(&authority, supplied_mint_authority),
            None => false,
        };
        if !authority_ok {
            return Err(ErrorCode::InvalidPlatformAuthority);
        }
        if driver_token.balance.checked_add(points).is_none() {
            return Err(ErrorCode::ExternalLedgerError);
        }
        let kwh = energy_used_milli_kwh / MILLI_PER_KWH;
        let rec = self.drivers[idx];
        let new_total_points = match rec.total_points.checked_add(points) {
            Some(v) => v,
            None => {
                return Err(ErrorCode::ArithmeticError);
            },
        };
        let new_total_energy = match rec.total_energy.checked_add(kwh) {
            Some(v) => v,
            None => {
                return Err(ErrorCode::ArithmeticError);
            },
        };
        let new_session_count = match rec.session_count.checked_add(1) {
            Some(v) => v,
            None => {
                return Err(ErrorCode::ArithmeticError);
            },
        };
        let st = match &self.registry {
            Some(s) => *s,
            None => {
                proof {
                    assert(false);
                }
                return Err(ErrorCode::ArithmeticError);
            },
        };
        let new_total_sessions = match st.total_sessions.checked_add(1) {
            Some(v) => v,
            None => {
                return Err(ErrorCode::ArithmeticError);
            },
        };
        // Every failure condition is ruled out: commit the whole transition.
        let _minted = driver_token.mint_to(points);
        let event = SessionRecorded {
            driver: *driver,
            charger_code: charger_code.clone(),
            energy_used: kwh,
            points,
        };
        self.drivers[idx] = DriverAccount {
            driver: rec.driver,
            total_energy: new_total_energy,
            total_points: new_total_points,
            session_count: new_session_count,
            points_balance: rec.points_balance,
            price_per_point: rec.price_per_point,
            active: rec.active,
        };
        self.sessions.push(
            ChargingSession {
                driver: *driver,
                charger_code,
                energy_used: kwh,
                points_earned: points,
                timestamp,
            },
        );
        self.registry = Some(
            PlatformState {
                admin: st.admin,
                mint: st.mint,
                total_sessions: new_total_sessions,
                fee_bps: st.fee_bps,
            },
        );
        proof {
            let o = record_transition(
                old(self)@,
                *old(driver_token),
                *driver,
                charger_code,
                energy_used_milli_kwh,
                timestamp,
                *supplied_mint_authority,
                *program_id,
            );
            lemma_update_keeps_unique(
                old(self)@.drivers,
                idx as int,
                apply_session(old(self)@.drivers[idx as int], energy_used_milli_kwh),
            );
            assert(self@.drivers =~= o.model.drivers);
            assert(self@.sessions =~= o.model.sessions);
            assert(self@ =~= o.model);
        }
        Ok(event)
    }

    /// Sells points from the driver's delegated balance: pays the driver in
    /// native currency directly from the buyer, re-derives the platform
    /// authority to guard against account substitution, and moves the points
    /// under that authority's delegation; see `buy_transition` for the exact
    /// contract. The platform's own records never change.
    pub fn buy_points(
        &self,
        buyer: &[u8; 32],
        buyer_lamports: &mut u64,
        driver: &[u8; 32],
        driver_lamports: &mut u64,
        amount: u64,
        sol_payment: u64,
        supplied_platform_authority: &[u8; 32],
        program_id: &[u8; 32],
        driver_token: &mut TokenAccount,
        buyer_token: &mut TokenAccount,
    ) -> (r: Result<(), ErrorCode>)
        requires
            self@.is_initialized(),
            self@.drivers_unique(),
            self@.has_driver(driver@),
        ensures
            ({
                let o = buy_transition(
                    self@.driver_rec(driver@),
                    *old(driver_token),
                    *old(buyer_token),
                    *buyer,
                    *driver,
                    *old(buyer_lamports),
                    *old(driver_lamports),
                    amount,
                    sol_payment,
                    *supplied_platform_authority,
                    *program_id,
                );
                &&& r == o.result
                &&& *final(driver_token) == o.driver_token
                &&& *final(buyer_token) == o.buyer_token
                &&& *final(buyer_lamports) == o.buyer_lamports
                &&& *final(driver_lamports) == o.driver_lamports
            }),
    {
        let idx = match self.find_driver(driver) {
            Some(i) => i,
            None => {
                proof {
                    assert(false);
                }
                return Err(ErrorCode::DriverNotActive);
            },
        };
        proof {
            lemma_driver_index_unique(self@.drivers, driver@, idx as int);
        }
        let rec = self.drivers[idx];
        if !rec.active {
            return Err(ErrorCode::DriverNotActive);
        }
        if !keys_eq(&driver_token.owner, driver) {
            return Err(ErrorCode::OwnerMismatch);
        }
        let delegated_to_supplied = match &driver_token.delegate {
            Some(d) => keys_eq(d, supplied_platform_authority),
            None => false,
        };
        if !delegated_to_supplied {
            return Err(ErrorCode::NoDelegation);
        }
        if !keys_eq(&buyer_token.owner, buyer) {
            return Err(ErrorCode::OwnerMismatch);
        }
        if *buyer_lamports < sol_payment || driver_lamports.checked_add(sol_payment).is_none() {
            return Err(ErrorCode::ExternalLedgerError);
        }
        let authority_ok = match platform_authority(program_id) {
            Some((authority, _bump)) => keys_eq(&authority, supplied_platform_authority),
            None => false,
        };
        if !authority_ok {
            return Err(ErrorCode::InvalidPlatformAuthority);
        }
        if driver_token.delegated_amount < amount || driver_token.balance < amount
            || buyer_token.balance.checked_add(amount).is_none() {
            return Err(ErrorCode::ExternalLedgerError);
        }
        // Every failure condition is ruled out: commit, payment first.
        let _paid = transfer_native(buyer_lamports, driver_lamports, sol_payment);
        let _moved = transfer_delegated(
            driver_token,
            buyer_token,
            supplied_platform_authority,
            amount,
        );
        Ok(())
    }
}

/// Updating a driver record in place, without changing its identity, keeps the
/// identities unique and the record reachable at the same position.
pub proof fn lemma_update_keeps_unique(ds: Seq<DriverAccount>, idx: int, rec: DriverAccount)
    requires
        unique_drivers(ds),
        0 <= idx < ds.len(),
        rec.driver@ == ds[idx].driver@,
    ensures
        ({
            let post = ds.update(idx, rec);
            &&& unique_drivers(post)
            &&& contains_driver(post, rec.driver@)
            &&& index_of_driver(post, rec.driver@) == idx
        }),
{
    let post = ds.update(idx, rec);
    assert forall|i: int, j: int| 0 <= i < j < post.len() implies post[i].driver@
        != post[j].driver@ by {
        assert(ds[i].driver@ != ds[j].driver@);
    }
    assert(post[idx].driver@ == rec.driver@);
    lemma_driver_index_unique(post, rec.driver@, idx);
}

} // verus!
