use ev::errors::ErrorCode;
use ev::platform::Platform;
use ev::token::TokenAccount;

fn key(b: u8) -> [u8; 32] {
    [b; 32]
}

const PROGRAM_ID: [u8; 32] = [7u8; 32];

fn mint_authority_key() -> [u8; 32] {
    ev::authority::mint_authority(&PROGRAM_ID).expect("derivable").0
}

fn platform_authority_key() -> [u8; 32] {
    ev::authority::platform_authority(&PROGRAM_ID).expect("derivable").0
}

fn fresh_token(owner: [u8; 32]) -> TokenAccount {
    TokenAccount { owner, balance: 0, delegate: None, delegated_amount: 0 }
}

/// A platform with one registered driver, as most scenarios start.
fn registered(admin: [u8; 32], driver: [u8; 32], price: u64) -> Platform {
    let mut p = Platform::new();
    p.initialize_platform(admin, key(9), 250).unwrap();
    p.register_driver(&admin, driver, price).unwrap();
    p
}

#[test]
fn initialize_sets_registry_fields() {
    let mut p = Platform::new();
    assert!(!p.is_initialized());
    p.initialize_platform(key(1), key(9), 250).unwrap();
    assert!(p.is_initialized());
    let st = p.registry.as_ref().unwrap();
    assert_eq!(st.admin, key(1));
    assert_eq!(st.mint, key(9));
    assert_eq!(st.total_sessions, 0);
    assert_eq!(st.fee_bps, 250);
}

#[test]
fn initialize_at_most_once() {
    let mut p = Platform::new();
    p.initialize_platform(key(1), key(9), 250).unwrap();
    let second = p.initialize_platform(key(2), key(8), 0);
    assert_eq!(second, Err(ErrorCode::AlreadyInitialized));
    // The first registry is untouched.
    let st = p.registry.as_ref().unwrap();
    assert_eq!(st.admin, key(1));
    assert_eq!(st.mint, key(9));
    assert_eq!(st.fee_bps, 250);
}

#[test]
fn register_requires_admin() {
    let mut p = Platform::new();
    p.initialize_platform(key(1), key(9), 0).unwrap();
    let r = p.register_driver(&key(2), key(3), 10);
    assert_eq!(r, Err(ErrorCode::AuthorizationError));
    assert!(p.drivers.is_empty());
}

#[test]
fn register_initializes_record_active() {
    let p = registered(key(1), key(3), 10);
    assert_eq!(p.drivers.len(), 1);
    let rec = &p.drivers[0];
    assert_eq!(rec.driver, key(3));
    assert_eq!(rec.total_energy, 0);
    assert_eq!(rec.total_points, 0);
    assert_eq!(rec.session_count, 0);
    assert_eq!(rec.points_balance, 0);
    assert_eq!(rec.price_per_point, 10);
    assert!(rec.active);
}

#[test]
fn register_rejects_duplicate() {
    let mut p = registered(key(1), key(3), 10);
    let r = p.register_driver(&key(1), key(3), 99);
    assert_eq!(r, Err(ErrorCode::DuplicateRegistration));
    assert_eq!(p.drivers.len(), 1);
    assert_eq!(p.drivers[0].price_per_point, 10);
}

#[test]
fn record_session_scenario() {
    // RecordSession(charger_code="C-42", energy 5000 milli-kWh): 5,000,000,000
    // points minted, 5 kWh on the session record, counters advance.
    let driver = key(3);
    let mut p = registered(key(1), driver, 10);
    let mut tok = fresh_token(driver);
    let ev = p
        .record_session(&driver, "C-42".to_string(), 5000, 1700000000, &mint_authority_key(), &PROGRAM_ID, &mut tok)
        .unwrap();
    assert_eq!(ev.driver, driver);
    assert_eq!(ev.charger_code, "C-42");
    assert_eq!(ev.energy_used, 5);
    assert_eq!(ev.points, 5_000_000_000);
    assert_eq!(tok.balance, 5_000_000_000);
    let rec = &p.drivers[0];
    assert_eq!(rec.total_points, 5_000_000_000);
    assert_eq!(rec.total_energy, 5);
    assert_eq!(rec.session_count, 1);
    assert_eq!(p.registry.as_ref().unwrap().total_sessions, 1);
    assert_eq!(p.sessions.len(), 1);
    let s = &p.sessions[0];
    assert_eq!(s.driver, driver);
    assert_eq!(s.charger_code, "C-42");
    assert_eq!(s.energy_used, 5);
    assert_eq!(s.points_earned, 5_000_000_000);
    assert_eq!(s.timestamp, 1700000000);
}

#[test]
fn record_session_truncates_energy() {
    let driver = key(3);
    let mut p = registered(key(1), driver, 10);
    let mut tok = fresh_token(driver);
    let ma = mint_authority_key();
    p.record_session(&driver, "A".to_string(), 5999, 0, &ma, &PROGRAM_ID, &mut tok).unwrap();
    assert_eq!(p.drivers[0].total_energy, 5);
    assert_eq!(p.sessions[0].energy_used, 5);
    p.record_session(&driver, "B".to_string(), 999, 0, &ma, &PROGRAM_ID, &mut tok).unwrap();
    assert_eq!(p.sessions[1].energy_used, 0);
    assert_eq!(p.sessions[1].points_earned, 999_000_000);
    // Counters accumulate and the audit holds.
    assert_eq!(p.drivers[0].total_energy, 5);
    assert_eq!(p.drivers[0].total_points, 5999_000_000 + 999_000_000);
    assert_eq!(p.drivers[0].session_count, 2);
    assert_eq!(p.registry.as_ref().unwrap().total_sessions, 2);
    assert_eq!(p.sessions.len(), 2);
}

#[test]
fn record_session_overflow_fails_atomically() {
    let driver = key(3);
    let mut p = registered(key(1), driver, 10);
    let mut tok = fresh_token(driver);
    let r = p.record_session(
        &driver,
        "C".to_string(),
        u64::MAX,
        0,
        &mint_authority_key(),
        &PROGRAM_ID,
        &mut tok,
    );
    assert_eq!(r.unwrap_err(), ErrorCode::ArithmeticError);
    assert_eq!(tok.balance, 0);
    assert_eq!(p.drivers[0].total_points, 0);
    assert_eq!(p.drivers[0].session_count, 0);
    assert_eq!(p.registry.as_ref().unwrap().total_sessions, 0);
    assert!(p.sessions.is_empty());
}

#[test]
fn record_session_rejects_wrong_mint_authority() {
    let driver = key(3);
    let mut p = registered(key(1), driver, 10);
    let mut tok = fresh_token(driver);
    let wrong = key(42);
    let r = p.record_session(&driver, "C".to_string(), 5, 0, &wrong, &PROGRAM_ID, &mut tok);
    assert_eq!(r.unwrap_err(), ErrorCode::InvalidPlatformAuthority);
    assert_eq!(tok.balance, 0);
    assert!(p.sessions.is_empty());
}

#[test]
fn approve_then_revoke_round_trip() {
    // ApprovePlatformAccess(true, 500) then ApprovePlatformAccess(false, 0)
    // leaves active = false and no usable delegation.
    let driver = key(3);
    let mut p = registered(key(1), driver, 10);
    let mut tok = fresh_token(driver);
    p.approve_platform_access(&driver, &driver, true, 500, &PROGRAM_ID, &mut tok).unwrap();
    assert_eq!(tok.delegate, Some(platform_authority_key()));
    assert_eq!(tok.delegated_amount, 500);
    assert!(p.drivers[0].active);
    p.approve_platform_access(&driver, &driver, false, 0, &PROGRAM_ID, &mut tok).unwrap();
    assert_eq!(tok.delegate, None);
    assert_eq!(tok.delegated_amount, 0);
    assert!(!p.drivers[0].active);
}

#[test]
fn approve_requires_driver_signer() {
    let driver = key(3);
    let mut p = registered(key(1), driver, 10);
    let mut tok = fresh_token(driver);
    let r = p.approve_platform_access(&key(4), &driver, true, 500, &PROGRAM_ID, &mut tok);
    assert_eq!(r, Err(ErrorCode::AuthorizationError));
    assert_eq!(tok.delegate, None);
    assert!(p.drivers[0].active);
}

#[test]
fn approve_requires_owned_token_account() {
    let driver = key(3);
    let mut p = registered(key(1), driver, 10);
    let mut tok = fresh_token(key(5));
    let r = p.approve_platform_access(&driver, &driver, true, 500, &PROGRAM_ID, &mut tok);
    assert_eq!(r, Err(ErrorCode::OwnerMismatch));
    assert_eq!(tok.delegate, None);
}

#[test]
fn approve_overwrites_prior_delegation() {
    let driver = key(3);
    let mut p = registered(key(1), driver, 10);
    let mut tok = fresh_token(driver);
    p.approve_platform_access(&driver, &driver, true, 500, &PROGRAM_ID, &mut tok).unwrap();
    p.approve_platform_access(&driver, &driver, true, 70, &PROGRAM_ID, &mut tok).unwrap();
    assert_eq!(tok.delegate, Some(platform_authority_key()));
    assert_eq!(tok.delegated_amount, 70);
}

#[test]
fn buy_points_without_approval_fails_with_no_delegation() {
    // RegisterDriver(price_per_point=10) then immediate
    // BuyPoints(amount=100, sol_payment=1000): no delegation exists, nothing
    // moves.
    let driver = key(3);
    let buyer = key(4);
    let p = registered(key(1), driver, 10);
    let mut dtok = fresh_token(driver);
    let mut btok = fresh_token(buyer);
    let mut buyer_lamports: u64 = 10_000;
    let mut driver_lamports: u64 = 0;
    let r = p.buy_points(
        &buyer,
        &mut buyer_lamports,
        &driver,
        &mut driver_lamports,
        100,
        1000,
        &platform_authority_key(),
        &PROGRAM_ID,
        &mut dtok,
        &mut btok,
    );
    assert_eq!(r, Err(ErrorCode::NoDelegation));
    assert_eq!(buyer_lamports, 10_000);
    assert_eq!(driver_lamports, 0);
    assert_eq!(dtok.balance, 0);
    assert_eq!(btok.balance, 0);
}

#[test]
fn buy_points_requires_active_driver() {
    // With active = false every BuyPoints fails with DriverNotActive, whatever
    // the amounts, and neither payment nor points move.
    let driver = key(3);
    let buyer = key(4);
    let mut p = registered(key(1), driver, 10);
    let mut dtok = fresh_token(driver);
    // Delegate first, then deactivate: the stale delegation must not help.
    p.approve_platform_access(&driver, &driver, true, 500, &PROGRAM_ID, &mut dtok).unwrap();
    p.approve_platform_access(&driver, &driver, false, 0, &PROGRAM_ID, &mut dtok).unwrap();
    dtok.balance = 1_000;
    let mut btok = fresh_token(buyer);
    let mut buyer_lamports: u64 = 10_000;
    let mut driver_lamports: u64 = 5;
    let r = p.buy_points(
        &buyer,
        &mut buyer_lamports,
        &driver,
        &mut driver_lamports,
        1,
        1,
        &platform_authority_key(),
        &PROGRAM_ID,
        &mut dtok,
        &mut btok,
    );
    assert_eq!(r, Err(ErrorCode::DriverNotActive));
    assert_eq!(buyer_lamports, 10_000);
    assert_eq!(driver_lamports, 5);
    assert_eq!(dtok.balance, 1_000);
    assert_eq!(btok.balance, 0);
}

/// A platform whose driver has minted points and an active delegation of 200.
fn ready_to_sell(driver: [u8; 32]) -> (Platform, TokenAccount) {
    let mut p = registered(key(1), driver, 10);
    let mut dtok = fresh_token(driver);
    p.record_session(&driver, "C-1".to_string(), 5000, 0, &mint_authority_key(), &PROGRAM_ID, &mut dtok)
        .unwrap();
    p.approve_platform_access(&driver, &driver, true, 200, &PROGRAM_ID, &mut dtok).unwrap();
    (p, dtok)
}

#[test]
fn buy_points_success_moves_payment_and_points() {
    let driver = key(3);
    let buyer = key(4);
    let (p, mut dtok) = ready_to_sell(driver);
    let mut btok = fresh_token(buyer);
    let mut buyer_lamports: u64 = 10_000;
    let mut driver_lamports: u64 = 1;
    // sol_payment bears no required relation to amount × price_per_point.
    p.buy_points(
        &buyer,
        &mut buyer_lamports,
        &driver,
        &mut driver_lamports,
        100,
        50,
        &platform_authority_key(),
        &PROGRAM_ID,
        &mut dtok,
        &mut btok,
    )
    .unwrap();
    assert_eq!(buyer_lamports, 9_950);
    assert_eq!(driver_lamports, 51);
    assert_eq!(dtok.balance, 5_000_000_000 - 100);
    assert_eq!(dtok.delegated_amount, 100);
    assert_eq!(dtok.delegate, Some(platform_authority_key()));
    assert_eq!(btok.balance, 100);
}

#[test]
fn buy_points_respects_delegated_allowance() {
    let driver = key(3);
    let buyer = key(4);
    let (p, mut dtok) = ready_to_sell(driver);
    let mut btok = fresh_token(buyer);
    let mut buyer_lamports: u64 = 10_000;
    let mut driver_lamports: u64 = 0;
    // 201 exceeds the 200 delegated even though the balance is ample.
    let r = p.buy_points(
        &buyer,
        &mut buyer_lamports,
        &driver,
        &mut driver_lamports,
        201,
        50,
        &platform_authority_key(),
        &PROGRAM_ID,
        &mut dtok,
        &mut btok,
    );
    assert_eq!(r, Err(ErrorCode::ExternalLedgerError));
    assert_eq!(buyer_lamports, 10_000);
    assert_eq!(driver_lamports, 0);
    assert_eq!(dtok.balance, 5_000_000_000);
    assert_eq!(btok.balance, 0);
}

#[test]
fn buy_points_rejects_substituted_authority() {
    // A delegation to something other than the derived platform authority is
    // caught: the supplied account matches the delegation but not the
    // re-derived authority.
    let driver = key(3);
    let buyer = key(4);
    let p = registered(key(1), driver, 10);
    let wrong = key(42);
    let mut dtok =
        TokenAccount { owner: driver, balance: 1_000, delegate: Some(wrong), delegated_amount: 500 };
    let mut btok = fresh_token(buyer);
    let mut buyer_lamports: u64 = 10_000;
    let mut driver_lamports: u64 = 0;
    let r = p.buy_points(
        &buyer,
        &mut buyer_lamports,
        &driver,
        &mut driver_lamports,
        10,
        10,
        &wrong,
        &PROGRAM_ID,
        &mut dtok,
        &mut btok,
    );
    assert_eq!(r, Err(ErrorCode::InvalidPlatformAuthority));
    assert_eq!(buyer_lamports, 10_000);
    assert_eq!(dtok.balance, 1_000);
}

#[test]
fn buy_points_requires_buyer_owned_account() {
    let driver = key(3);
    let buyer = key(4);
    let (p, mut dtok) = ready_to_sell(driver);
    let mut btok = fresh_token(key(5));
    let mut buyer_lamports: u64 = 10_000;
    let mut driver_lamports: u64 = 0;
    let r = p.buy_points(
        &buyer,
        &mut buyer_lamports,
        &driver,
        &mut driver_lamports,
        10,
        10,
        &platform_authority_key(),
        &PROGRAM_ID,
        &mut dtok,
        &mut btok,
    );
    assert_eq!(r, Err(ErrorCode::OwnerMismatch));
    assert_eq!(buyer_lamports, 10_000);
}

#[test]
fn buy_points_requires_funded_buyer() {
    let driver = key(3);
    let buyer = key(4);
    let (p, mut dtok) = ready_to_sell(driver);
    let mut btok = fresh_token(buyer);
    let mut buyer_lamports: u64 = 49;
    let mut driver_lamports: u64 = 0;
    let r = p.buy_points(
        &buyer,
        &mut buyer_lamports,
        &driver,
        &mut driver_lamports,
        10,
        50,
        &platform_authority_key(),
        &PROGRAM_ID,
        &mut dtok,
        &mut btok,
    );
    assert_eq!(r, Err(ErrorCode::ExternalLedgerError));
    assert_eq!(buyer_lamports, 49);
    assert_eq!(driver_lamports, 0);
    assert_eq!(dtok.balance, 5_000_000_000);
    assert_eq!(dtok.delegated_amount, 200);
    assert_eq!(btok.balance, 0);
}

#[test]
fn total_sessions_counts_successful_recordings() {
    let driver = key(3);
    let other = key(6);
    let mut p = registered(key(1), driver, 10);
    p.register_driver(&key(1), other, 1).unwrap();
    let ma = mint_authority_key();
    let mut tok_a = fresh_token(driver);
    let mut tok_b = fresh_token(other);
    p.record_session(&driver, "X".to_string(), 1, 0, &ma, &PROGRAM_ID, &mut tok_a).unwrap();
    p.record_session(&other, "Y".to_string(), 2, 0, &ma, &PROGRAM_ID, &mut tok_b).unwrap();
    // A failed recording does not count.
    let _ = p.record_session(&driver, "Z".to_string(), u64::MAX, 0, &ma, &PROGRAM_ID, &mut tok_a);
    assert_eq!(p.registry.as_ref().unwrap().total_sessions, 2);
    assert_eq!(p.sessions.len(), 2);
}

#[test]
fn minting_preserves_delegation() {
    let driver = key(3);
    let mut p = registered(key(1), driver, 10);
    let mut tok = fresh_token(driver);
    p.approve_platform_access(&driver, &driver, true, 200, &PROGRAM_ID, &mut tok).unwrap();
    p.record_session(&driver, "C-9".to_string(), 1000, 0, &mint_authority_key(), &PROGRAM_ID, &mut tok)
        .unwrap();
    assert_eq!(tok.balance, 1_000_000_000);
    assert_eq!(tok.delegate, Some(platform_authority_key()));
    assert_eq!(tok.delegated_amount, 200);
}

#[test]
fn buy_points_respects_balance() {
    let driver = key(3);
    let buyer = key(4);
    let p = registered(key(1), driver, 10);
    let mut dtok = TokenAccount {
        owner: driver,
        balance: 50,
        delegate: Some(platform_authority_key()),
        delegated_amount: 100,
    };
    let mut btok = fresh_token(buyer);
    let mut buyer_lamports: u64 = 1_000;
    let mut driver_lamports: u64 = 0;
    let r = p.buy_points(
        &buyer,
        &mut buyer_lamports,
        &driver,
        &mut driver_lamports,
        60,
        10,
        &platform_authority_key(),
        &PROGRAM_ID,
        &mut dtok,
        &mut btok,
    );
    assert_eq!(r, Err(ErrorCode::ExternalLedgerError));
    assert_eq!(dtok.balance, 50);
    assert_eq!(buyer_lamports, 1_000);
}
