use solcraft::accounts::NativeAccount;
use solcraft::engine::Engine;
use solcraft::errors::{EngineError, FactoryError, LedgerError};

const PROGRAM_ID: [u8; 32] = [7u8; 32];
const ADMIN: [u8; 32] = [1u8; 32];
const STRANGER: [u8; 32] = [9u8; 32];
const RENT_MINIMUM: u64 = 1_000;

fn initialized_factory() -> (Engine, NativeAccount) {
    let mut engine = Engine::new(&PROGRAM_ID);
    let mut admin = NativeAccount { addr: ADMIN, lamports: 1_000_000 };
    engine
        .initialize_factory(&mut admin, 500, RENT_MINIMUM)
        .unwrap();
    (engine, admin)
}

#[test]
fn initialize_factory_sets_the_record_up() {
    let (engine, admin) = initialized_factory();
    let f = engine.factory.as_ref().unwrap();
    assert_eq!(f.config.admin, ADMIN);
    assert!(!f.config.paused);
    assert_eq!(f.config.creation_fee_lamports, 500);
    assert_eq!(f.config.treasury_account, f.treasury.addr);
    assert_ne!(f.config_addr, f.treasury.addr);
    assert_eq!(f.treasury.lamports, RENT_MINIMUM);
    assert_eq!(admin.lamports, 1_000_000 - RENT_MINIMUM);
}

#[test]
fn initialize_factory_fails_once_the_record_exists() {
    let (mut engine, mut admin) = initialized_factory();
    let r = engine.initialize_factory(&mut admin, 700, RENT_MINIMUM);
    assert_eq!(
        r,
        Err(EngineError::Ledger(LedgerError::AlreadyInitialized))
    );
    assert_eq!(engine.factory.as_ref().unwrap().config.creation_fee_lamports, 500);
}

#[test]
fn initialize_factory_fails_where_the_caller_cannot_fund_the_treasury() {
    let mut engine = Engine::new(&PROGRAM_ID);
    let mut admin = NativeAccount { addr: ADMIN, lamports: RENT_MINIMUM - 1 };
    let r = engine.initialize_factory(&mut admin, 500, RENT_MINIMUM);
    assert_eq!(
        r,
        Err(EngineError::Ledger(LedgerError::InsufficientLamports))
    );
    assert!(engine.factory.is_none());
    assert_eq!(admin.lamports, RENT_MINIMUM - 1);
}

#[test]
fn pause_and_unpause_are_idempotent() {
    let (mut engine, _) = initialized_factory();
    assert!(engine.pause_factory(&ADMIN).is_ok());
    assert!(engine.factory.as_ref().unwrap().config.paused);
    assert!(engine.pause_factory(&ADMIN).is_ok());
    assert!(engine.factory.as_ref().unwrap().config.paused);
    assert!(engine.unpause_factory(&ADMIN).is_ok());
    assert!(!engine.factory.as_ref().unwrap().config.paused);
    assert!(engine.unpause_factory(&ADMIN).is_ok());
    assert!(!engine.factory.as_ref().unwrap().config.paused);
}

#[test]
fn pause_is_admin_only() {
    let (mut engine, _) = initialized_factory();
    let r = engine.pause_factory(&STRANGER);
    assert_eq!(r, Err(EngineError::Factory(FactoryError::Unauthorized)));
    assert!(!engine.factory.as_ref().unwrap().config.paused);
}

#[test]
fn update_creation_fee_replaces_the_fee_unconditionally() {
    let (mut engine, _) = initialized_factory();
    assert!(engine.update_creation_fee(&ADMIN, 0).is_ok());
    assert_eq!(engine.factory.as_ref().unwrap().config.creation_fee_lamports, 0);
    assert!(engine.update_creation_fee(&ADMIN, u64::MAX).is_ok());
    assert_eq!(
        engine.factory.as_ref().unwrap().config.creation_fee_lamports,
        u64::MAX
    );
}

#[test]
fn update_creation_fee_is_admin_only() {
    let (mut engine, _) = initialized_factory();
    let r = engine.update_creation_fee(&STRANGER, 1);
    assert_eq!(r, Err(EngineError::Factory(FactoryError::Unauthorized)));
    assert_eq!(engine.factory.as_ref().unwrap().config.creation_fee_lamports, 500);
}

#[test]
fn operations_fail_before_the_factory_exists() {
    let mut engine = Engine::new(&PROGRAM_ID);
    assert_eq!(
        engine.pause_factory(&ADMIN),
        Err(EngineError::Ledger(LedgerError::NotInitialized))
    );
    let mut admin = NativeAccount { addr: ADMIN, lamports: 0 };
    assert_eq!(
        engine.withdraw_fees(&mut admin, RENT_MINIMUM),
        Err(EngineError::Ledger(LedgerError::NotInitialized))
    );
}

#[test]
fn withdraw_fees_leaves_exactly_the_required_minimum() {
    let (mut engine, mut admin) = initialized_factory();
    engine.factory.as_mut().unwrap().treasury.lamports = 5_000;
    let before = admin.lamports;
    assert!(engine.withdraw_fees(&mut admin, RENT_MINIMUM).is_ok());
    assert_eq!(engine.factory.as_ref().unwrap().treasury.lamports, RENT_MINIMUM);
    assert_eq!(admin.lamports, before + 4_000);
}

#[test]
fn a_second_withdrawal_moves_nothing() {
    let (mut engine, mut admin) = initialized_factory();
    engine.factory.as_mut().unwrap().treasury.lamports = 5_000;
    engine.withdraw_fees(&mut admin, RENT_MINIMUM).unwrap();
    let between = admin.lamports;
    assert!(engine.withdraw_fees(&mut admin, RENT_MINIMUM).is_ok());
    assert_eq!(admin.lamports, between);
    assert_eq!(engine.factory.as_ref().unwrap().treasury.lamports, RENT_MINIMUM);
}

#[test]
fn withdraw_fees_is_a_no_op_below_the_minimum() {
    let (mut engine, mut admin) = initialized_factory();
    engine.factory.as_mut().unwrap().treasury.lamports = RENT_MINIMUM - 1;
    let before = admin.lamports;
    assert!(engine.withdraw_fees(&mut admin, RENT_MINIMUM).is_ok());
    assert_eq!(admin.lamports, before);
    assert_eq!(
        engine.factory.as_ref().unwrap().treasury.lamports,
        RENT_MINIMUM - 1
    );
}

#[test]
fn withdraw_fees_is_admin_only() {
    let (mut engine, _) = initialized_factory();
    engine.factory.as_mut().unwrap().treasury.lamports = 5_000;
    let mut stranger = NativeAccount { addr: STRANGER, lamports: 0 };
    let r = engine.withdraw_fees(&mut stranger, RENT_MINIMUM);
    assert_eq!(r, Err(EngineError::Factory(FactoryError::Unauthorized)));
    assert_eq!(engine.factory.as_ref().unwrap().treasury.lamports, 5_000);
    assert_eq!(stranger.lamports, 0);
}

#[test]
fn a_forged_config_address_is_refused_by_the_operation_logic() {
    let (engine, _) = initialized_factory();
    let f = engine.factory.as_ref().unwrap();
    let mut config = f.config;
    let mut forged = f.config_addr;
    forged[0] = forged[0].wrapping_add(1);
    let r = solcraft::factory::update_creation_fee(
        &mut config,
        &forged,
        &ADMIN,
        &PROGRAM_ID,
        9,
    );
    assert_eq!(r, Err(EngineError::Ledger(LedgerError::AccountMismatch)));
    assert_eq!(config.creation_fee_lamports, 500);
}

#[test]
fn a_stale_bump_proof_is_refused_by_the_operation_logic() {
    let (engine, _) = initialized_factory();
    let f = engine.factory.as_ref().unwrap();
    let mut config = f.config;
    config.bump = config.bump.wrapping_sub(1);
    let addr = f.config_addr;
    let r = solcraft::factory::update_creation_fee(
        &mut config,
        &addr,
        &ADMIN,
        &PROGRAM_ID,
        9,
    );
    assert_eq!(r, Err(EngineError::Ledger(LedgerError::AccountMismatch)));
}
