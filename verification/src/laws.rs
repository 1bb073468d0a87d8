//! Platform-wide laws, proved once and for all from the transition
//! specifications in `platform`.

use vstd::prelude::*;

use crate::authority::{is_platform_authority, platform_authority_spec};
use crate::errors::ErrorCode;
use crate::platform::{
    apply_session, approve_transition, buy_transition, initialize_transition, new_registry,
    record_transition, register_transition, set_active, session_kwh, session_points,
    lemma_driver_index_unique, lemma_update_keeps_unique, PlatformModel,
};
use crate::state::DriverAccount;
use crate::token::TokenAccount;

verus! {

/// The registry's session counter equals the length of the append-only session
/// log — that is, the number of successful RecordSession transitions since
/// initialization.
pub open spec fn audit_consistent(m: PlatformModel) -> bool {
    match m.registry {
        Some(st) => st.total_sessions == m.sessions.len(),
        None => m.sessions.len() == 0,
    }
}

/// InitializePlatform establishes the session-counter audit: it creates the
/// registry with a zero counter and touches no session.
pub proof fn lemma_initialize_audit(
    pre: PlatformModel,
    admin: [u8; 32],
    mint: [u8; 32],
    fee_bps: u64,
)
    requires
        audit_consistent(pre),
    ensures
        ({
            let (post, r) = initialize_transition(pre, admin, mint, fee_bps);
            &&& audit_consistent(post)
            &&& post.sessions == pre.sessions
            &&& (r is Ok ==> post.registry == Some(new_registry(admin, mint, fee_bps)))
        }),
{
}

/// RegisterDriver keeps the session-counter audit: it touches neither the
/// registry's counter nor the session log.
pub proof fn lemma_register_audit(
    pre: PlatformModel,
    admin_signer: [u8; 32],
    driver_pubkey: [u8; 32],
    price_per_point: u64,
)
    requires
        audit_consistent(pre),
    ensures
        ({
            let (post, r) = register_transition(pre, admin_signer, driver_pubkey, price_per_point);
            &&& audit_consistent(post)
            &&& post.sessions == pre.sessions
            &&& post.registry == pre.registry
        }),
{
}

/// RecordSession keeps the session-counter audit, and the counter never
/// decreases: a successful transition appends exactly one session as it adds
/// exactly one to the counter, and a failed one changes nothing. Together with
/// `lemma_initialize_audit` and `lemma_register_audit` — ApprovePlatformAccess
/// touches only driver records, and BuyPoints no platform record at all — the
/// counter equals the number of successful RecordSession transitions since
/// initialization.
pub proof fn lemma_record_session_audit(
    pre: PlatformModel,
    tok: TokenAccount,
    driver: [u8; 32],
    charger_code: String,
    e: u64,
    timestamp: i64,
    supplied_mint_authority: [u8; 32],
    program_id: [u8; 32],
)
    requires
        audit_consistent(pre),
        pre.is_initialized(),
    ensures
        ({
            let o = record_transition(
                pre,
                tok,
                driver,
                charger_code,
                e,
                timestamp,
                supplied_mint_authority,
                program_id,
            );
            &&& audit_consistent(o.model)
            &&& o.model.is_initialized()
            &&& o.model.registry->Some_0.total_sessions >= pre.registry->Some_0.total_sessions
            &&& (o.result is Ok ==> o.model.sessions.len() == pre.sessions.len() + 1
                && o.model.registry->Some_0.total_sessions == pre.registry->Some_0.total_sessions
                + 1)
            &&& (o.result is Err ==> o.model == pre)
            &&& o.model.sessions.subrange(0, pre.sessions.len() as int) == pre.sessions
        }),
{
    let o = record_transition(
        pre,
        tok,
        driver,
        charger_code,
        e,
        timestamp,
        supplied_mint_authority,
        program_id,
    );
    if o.result is Ok {
        assert(o.model.sessions.subrange(0, pre.sessions.len() as int) =~= pre.sessions);
    } else {
        assert(o.model.sessions.subrange(0, pre.sessions.len() as int) =~= pre.sessions);
    }
}

/// A successful RecordSession for reported energy `e` grows the driver's
/// cumulative points by exactly `e` times the reward multiplier, the
/// cumulative energy by exactly `e` truncated to whole kWh, the session count
/// by one, and mints exactly the same points to the driver's asset account;
/// all the counters are overflow-checked, and a driver's counters never
/// decrease.
pub proof fn lemma_record_session_increments(
    pre: PlatformModel,
    tok: TokenAccount,
    driver: [u8; 32],
    charger_code: String,
    e: u64,
    timestamp: i64,
    supplied_mint_authority: [u8; 32],
    program_id: [u8; 32],
)
    requires
        pre.is_initialized(),
        pre.drivers_unique(),
        pre.has_driver(driver@),
    ensures
        ({
            let o = record_transition(
                pre,
                tok,
                driver,
                charger_code,
                e,
                timestamp,
                supplied_mint_authority,
                program_id,
            );
            let rec = pre.driver_rec(driver@);
            let post_rec = o.model.driver_rec(driver@);
            &&& o.model.has_driver(driver@)
            &&& (o.result is Ok ==> {
                &&& post_rec.total_points == rec.total_points + session_points(e)
                &&& post_rec.total_energy == rec.total_energy + session_kwh(e)
                &&& post_rec.session_count == rec.session_count + 1
                &&& post_rec.active == rec.active
                &&& post_rec.price_per_point == rec.price_per_point
                &&& o.token.balance == tok.balance + session_points(e)
            })
            &&& (o.result is Err ==> o.model == pre)
            &&& post_rec.total_points >= rec.total_points
            &&& post_rec.total_energy >= rec.total_energy
            &&& post_rec.session_count >= rec.session_count
        }),
{
    let o = record_transition(
        pre,
        tok,
        driver,
        charger_code,
        e,
        timestamp,
        supplied_mint_authority,
        program_id,
    );
    let idx = pre.driver_index(driver@);
    let rec = pre.driver_rec(driver@);
    if o.result is Ok {
        lemma_update_keeps_unique(pre.drivers, idx, apply_session(rec, e));
    }
}

/// BuyPoints on an inactive driver record fails with DriverNotActive, for any
/// amount and any payment, moving no points, no delegation and no payment.
pub proof fn lemma_buy_points_requires_active(
    rec: DriverAccount,
    dtok: TokenAccount,
    btok: TokenAccount,
    buyer: [u8; 32],
    driver: [u8; 32],
    buyer_lamports: u64,
    driver_lamports: u64,
    amount: u64,
    sol_payment: u64,
    supplied_authority: [u8; 32],
    program_id: [u8; 32],
)
    requires
        !rec.active,
    ensures
        ({
            let o = buy_transition(
                rec,
                dtok,
                btok,
                buyer,
                driver,
                buyer_lamports,
                driver_lamports,
                amount,
                sol_payment,
                supplied_authority,
                program_id,
            );
            &&& o.result == Err::<(), ErrorCode>(ErrorCode::DriverNotActive)
            &&& o.driver_token == dtok
            &&& o.buyer_token == btok
            &&& o.buyer_lamports == buyer_lamports
            &&& o.driver_lamports == driver_lamports
        }),
{
}

/// A failed BuyPoints moves nothing: not the points, not the delegation, and
/// no payment is sent.
pub proof fn lemma_failed_buy_moves_nothing(
    rec: DriverAccount,
    dtok: TokenAccount,
    btok: TokenAccount,
    buyer: [u8; 32],
    driver: [u8; 32],
    buyer_lamports: u64,
    driver_lamports: u64,
    amount: u64,
    sol_payment: u64,
    supplied_authority: [u8; 32],
    program_id: [u8; 32],
)
    ensures
        ({
            let o = buy_transition(
                rec,
                dtok,
                btok,
                buyer,
                driver,
                buyer_lamports,
                driver_lamports,
                amount,
                sol_payment,
                supplied_authority,
                program_id,
            );
            o.result is Err ==> {
                &&& o.driver_token == dtok
                &&& o.buyer_token == btok
                &&& o.buyer_lamports == buyer_lamports
                &&& o.driver_lamports == driver_lamports
            }
        }),
{
}

/// BuyPoints against an asset account that carries no delegation fails with
/// NoDelegation — whatever else holds — whenever the record is active and the
/// account is the driver's; with the record inactive it fails with
/// DriverNotActive instead. Either way nothing moves.
pub proof fn lemma_no_delegation_blocks_buy(
    rec: DriverAccount,
    dtok: TokenAccount,
    btok: TokenAccount,
    buyer: [u8; 32],
    driver: [u8; 32],
    buyer_lamports: u64,
    driver_lamports: u64,
    amount: u64,
    sol_payment: u64,
    supplied_authority: [u8; 32],
    program_id: [u8; 32],
)
    requires
        dtok.delegate is None,
    ensures
        ({
            let o = buy_transition(
                rec,
                dtok,
                btok,
                buyer,
                driver,
                buyer_lamports,
                driver_lamports,
                amount,
                sol_payment,
                supplied_authority,
                program_id,
            );
            &&& o.result is Err
            &&& (rec.active && dtok.owner@ == driver@ ==> o.result == Err::<(), ErrorCode>(
                ErrorCode::NoDelegation,
            ))
            &&& o.driver_token == dtok
            &&& o.buyer_token == btok
            &&& o.buyer_lamports == buyer_lamports
            &&& o.driver_lamports == driver_lamports
        }),
{
}

/// InitializePlatform succeeds at most once: on an uninitialized platform the
/// first call succeeds, and a second call — with any inputs — fails with
/// AlreadyInitialized and leaves the first registry, and everything else,
/// unchanged.
pub proof fn lemma_initialize_at_most_once(
    pre: PlatformModel,
    admin1: [u8; 32],
    mint1: [u8; 32],
    fee1: u64,
    admin2: [u8; 32],
    mint2: [u8; 32],
    fee2: u64,
)
    requires
        pre.registry is None,
    ensures
        ({
            let (mid, r1) = initialize_transition(pre, admin1, mint1, fee1);
            let (post, r2) = initialize_transition(mid, admin2, mint2, fee2);
            &&& r1 is Ok
            &&& mid.registry == Some(new_registry(admin1, mint1, fee1))
            &&& r2 == Err::<(), ErrorCode>(ErrorCode::AlreadyInitialized)
            &&& post == mid
        }),
{
}

/// After a deactivating ApprovePlatformAccess, any subsequent BuyPoints
/// referencing that driver fails and moves nothing, even if a delegation
/// previously existed: deactivation clears the active gate — on which BuyPoints
/// fails with DriverNotActive — and also revokes the delegation, on which even
/// a record that were still active would fail with NoDelegation (see
/// `lemma_no_delegation_blocks_buy`).
pub proof fn lemma_revoked_access_blocks_buy(
    pre: PlatformModel,
    tok: TokenAccount,
    signer: [u8; 32],
    driver: [u8; 32],
    delegate_amount: u64,
    program_id: [u8; 32],
    btok: TokenAccount,
    buyer: [u8; 32],
    buyer_lamports: u64,
    driver_lamports: u64,
    amount: u64,
    sol_payment: u64,
    supplied_authority: [u8; 32],
    buy_program_id: [u8; 32],
)
    requires
        pre.drivers_unique(),
        pre.has_driver(driver@),
        approve_transition(pre, tok, signer, driver, false, delegate_amount, program_id).result
            is Ok,
    ensures
        ({
            let ao = approve_transition(pre, tok, signer, driver, false, delegate_amount, program_id);
            let post = PlatformModel {
                registry: pre.registry,
                drivers: ao.drivers,
                sessions: pre.sessions,
            };
            let o = buy_transition(
                post.driver_rec(driver@),
                ao.token,
                btok,
                buyer,
                driver,
                buyer_lamports,
                driver_lamports,
                amount,
                sol_payment,
                supplied_authority,
                buy_program_id,
            );
            &&& ao.token.delegate is None
            &&& ao.token.delegated_amount == 0
            &&& post.driver_rec(driver@).active == false
            &&& o.result == Err::<(), ErrorCode>(ErrorCode::DriverNotActive)
            &&& o.driver_token == ao.token
            &&& o.buyer_token == btok
            &&& o.buyer_lamports == buyer_lamports
            &&& o.driver_lamports == driver_lamports
        }),
{
    let idx = pre.driver_index(driver@);
    let rec = pre.drivers[idx];
    lemma_driver_index_unique(pre.drivers, driver@, idx);
    lemma_update_keeps_unique(pre.drivers, idx, set_active(rec, false));
}

/// Round trip: approving platform access with any delegated amount and then
/// revoking it leaves the driver record inactive and the asset account with no
/// usable delegation — and any BuyPoints attempt in between that failed moved
/// nothing (`lemma_failed_buy_moves_nothing`).
pub proof fn lemma_approve_revoke_round_trip(
    pre: PlatformModel,
    tok: TokenAccount,
    signer: [u8; 32],
    driver: [u8; 32],
    delegate_amount: u64,
    program_id: [u8; 32],
)
    requires
        pre.drivers_unique(),
        pre.has_driver(driver@),
        signer@ == pre.driver_rec(driver@).driver@,
        tok.owner@ == signer@,
        platform_authority_spec(program_id@) is Some,
    ensures
        ({
            let a1 = approve_transition(pre, tok, signer, driver, true, delegate_amount, program_id);
            let mid = PlatformModel {
                registry: pre.registry,
                drivers: a1.drivers,
                sessions: pre.sessions,
            };
            let a2 = approve_transition(mid, a1.token, signer, driver, false, 0, program_id);
            let post = PlatformModel {
                registry: pre.registry,
                drivers: a2.drivers,
                sessions: pre.sessions,
            };
            &&& a1.result is Ok
            &&& (a1.token.delegate matches Some(d) && is_platform_authority(d@, program_id@))
            &&& a1.token.delegated_amount == delegate_amount
            &&& a2.result is Ok
            &&& a2.token.delegate is None
            &&& a2.token.delegated_amount == 0
            &&& post.driver_rec(driver@).active == false
        }),
{
    let idx = pre.driver_index(driver@);
    let rec = pre.drivers[idx];
    lemma_driver_index_unique(pre.drivers, driver@, idx);
    let a1 = approve_transition(pre, tok, signer, driver, true, delegate_amount, program_id);
    lemma_update_keeps_unique(pre.drivers, idx, set_active(rec, true));
    let mid = PlatformModel { registry: pre.registry, drivers: a1.drivers, sessions: pre.sessions };
    lemma_update_keeps_unique(mid.drivers, idx, set_active(mid.drivers[idx], false));
}

} // verus!

