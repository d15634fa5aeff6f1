use solcraft::accounts::{MintAccount, TokenAccount};
use solcraft::engine::Engine;
use solcraft::errors::{EngineError, FaucetError, LedgerError};

const PROGRAM_ID: [u8; 32] = [7u8; 32];
const OWNER: [u8; 32] = [1u8; 32];
const MINT_ADDR: [u8; 32] = [3u8; 32];
const TREASURY_ATA: [u8; 32] = [6u8; 32];
const DEPOSITOR: [u8; 32] = [2u8; 32];
const CALLER: [u8; 32] = [4u8; 32];
const MILLION: u64 = 1_000_000;

fn mint(decimals: u8) -> MintAccount {
    MintAccount {
        addr: MINT_ADDR,
        decimals,
        supply: 0,
        mint_authority: Some(OWNER),
        freeze_authority: Some(OWNER),
    }
}

fn initialized_faucet() -> Engine {
    let mut engine = Engine::new(&PROGRAM_ID);
    engine.initialize_faucet(&OWNER, &mint(6), &TREASURY_ATA).unwrap();
    engine
}

fn funded_faucet(amount: u64) -> Engine {
    let mut engine = initialized_faucet();
    let mut depositor_ata = TokenAccount {
        addr: [10u8; 32],
        mint: MINT_ADDR,
        owner: DEPOSITOR,
        amount,
    };
    engine.deposit_to_faucet(&mut depositor_ata, &DEPOSITOR, amount).unwrap();
    engine
}

fn caller_ata() -> TokenAccount {
    TokenAccount { addr: [11u8; 32], mint: MINT_ADDR, owner: CALLER, amount: 0 }
}

#[test]
fn initialize_faucet_sets_the_defaults_for_a_6_decimal_asset() {
    let engine = initialized_faucet();
    let f = engine.faucet.as_ref().unwrap();
    assert_eq!(f.config.owner, OWNER);
    assert_eq!(f.config.mint, MINT_ADDR);
    assert_eq!(f.config.allowed_claim_amount, 1_000 * MILLION);
    assert_eq!(f.config.cooldown_seconds, 3_600);
    assert_eq!(f.config.treasury_ata, TREASURY_ATA);
    assert_eq!(f.treasury.amount, 0);
    assert!(f.recipients.is_empty());
}

#[test]
fn initialize_faucet_rejects_10_decimals_and_accepts_9() {
    let mut engine = Engine::new(&PROGRAM_ID);
    let r = engine.initialize_faucet(&OWNER, &mint(10), &TREASURY_ATA);
    assert_eq!(r, Err(EngineError::Faucet(FaucetError::ExceedsMaxDecimals)));
    assert!(engine.faucet.is_none());
    let r = engine.initialize_faucet(&OWNER, &mint(9), &TREASURY_ATA);
    assert_eq!(r, Ok(()));
    assert_eq!(
        engine.faucet.as_ref().unwrap().config.allowed_claim_amount,
        1_000 * 1_000_000_000
    );
}

#[test]
fn initialize_faucet_fails_once_the_record_exists() {
    let mut engine = initialized_faucet();
    let r = engine.initialize_faucet(&OWNER, &mint(6), &TREASURY_ATA);
    assert_eq!(r, Err(EngineError::Ledger(LedgerError::AlreadyInitialized)));
}

#[test]
fn deposit_moves_the_amount_into_the_reserve() {
    let mut engine = initialized_faucet();
    let mut depositor_ata = TokenAccount {
        addr: [10u8; 32],
        mint: MINT_ADDR,
        owner: DEPOSITOR,
        amount: 700,
    };
    assert_eq!(engine.deposit_to_faucet(&mut depositor_ata, &DEPOSITOR, 300), Ok(()));
    assert_eq!(engine.faucet.as_ref().unwrap().treasury.amount, 300);
    assert_eq!(depositor_ata.amount, 400);
}

#[test]
fn deposit_requires_the_depositor_balance_to_cover_it() {
    let mut engine = initialized_faucet();
    let mut depositor_ata = TokenAccount {
        addr: [10u8; 32],
        mint: MINT_ADDR,
        owner: DEPOSITOR,
        amount: 299,
    };
    let r = engine.deposit_to_faucet(&mut depositor_ata, &DEPOSITOR, 300);
    assert_eq!(r, Err(EngineError::Faucet(FaucetError::InsufficientFunds)));
    assert_eq!(engine.faucet.as_ref().unwrap().treasury.amount, 0);
    assert_eq!(depositor_ata.amount, 299);
}

#[test]
fn deposit_refuses_a_reserve_that_would_overflow() {
    let mut engine = initialized_faucet();
    engine.faucet.as_mut().unwrap().treasury.amount = u64::MAX;
    let mut depositor_ata = TokenAccount {
        addr: [10u8; 32],
        mint: MINT_ADDR,
        owner: DEPOSITOR,
        amount: 10,
    };
    let r = engine.deposit_to_faucet(&mut depositor_ata, &DEPOSITOR, 1);
    assert_eq!(r, Err(EngineError::Ledger(LedgerError::ArithmeticOverflow)));
    assert_eq!(depositor_ata.amount, 10);
}

#[test]
fn withdraw_is_owner_only() {
    let mut engine = funded_faucet(1_000);
    let mut stranger_ata = TokenAccount {
        addr: [12u8; 32],
        mint: MINT_ADDR,
        owner: DEPOSITOR,
        amount: 0,
    };
    let r = engine.withdraw_from_faucet(&mut stranger_ata, &DEPOSITOR, 100);
    assert_eq!(r, Err(EngineError::Faucet(FaucetError::Unauthorized)));
    assert_eq!(engine.faucet.as_ref().unwrap().treasury.amount, 1_000);
}

#[test]
fn withdraw_moves_the_amount_to_the_owner() {
    let mut engine = funded_faucet(1_000);
    let mut owner_ata = TokenAccount {
        addr: [12u8; 32],
        mint: MINT_ADDR,
        owner: OWNER,
        amount: 5,
    };
    assert_eq!(engine.withdraw_from_faucet(&mut owner_ata, &OWNER, 400), Ok(()));
    assert_eq!(engine.faucet.as_ref().unwrap().treasury.amount, 600);
    assert_eq!(owner_ata.amount, 405);
}

#[test]
fn withdraw_requires_the_reserve_to_cover_it() {
    let mut engine = funded_faucet(100);
    let mut owner_ata = TokenAccount {
        addr: [12u8; 32],
        mint: MINT_ADDR,
        owner: OWNER,
        amount: 0,
    };
    let r = engine.withdraw_from_faucet(&mut owner_ata, &OWNER, 101);
    assert_eq!(r, Err(EngineError::Faucet(FaucetError::InsufficientFunds)));
    assert_eq!(engine.faucet.as_ref().unwrap().treasury.amount, 100);
}

#[test]
fn faucet_scenario_with_a_6_decimal_asset() {
    // Initialize with a 6-decimal asset: the default allowance is 1000
    // whole tokens; deposit 2000 whole tokens; a first claim pays the
    // allowance and records the time; an immediate second claim hits the
    // cooldown; one exactly at the cooldown boundary goes through.
    let mut engine = initialized_faucet();
    assert_eq!(
        engine.faucet.as_ref().unwrap().config.allowed_claim_amount,
        1_000 * MILLION
    );
    let mut depositor_ata = TokenAccount {
        addr: [10u8; 32],
        mint: MINT_ADDR,
        owner: DEPOSITOR,
        amount: 2_000 * MILLION,
    };
    engine
        .deposit_to_faucet(&mut depositor_ata, &DEPOSITOR, 2_000 * MILLION)
        .unwrap();

    let now: i64 = 1_700_000_000;
    let mut ata = caller_ata();
    assert_eq!(engine.claim_from_faucet(&mut ata, &CALLER, now), Ok(()));
    assert_eq!(ata.amount, 1_000 * MILLION);
    assert_eq!(engine.faucet.as_ref().unwrap().treasury.amount, 1_000 * MILLION);
    let f = engine.faucet.as_ref().unwrap();
    assert_eq!(f.recipients.len(), 1);
    assert_eq!(f.recipients[0].caller, CALLER);
    assert_eq!(f.recipients[0].data.last_claimed_at, now);

    let r = engine.claim_from_faucet(&mut ata, &CALLER, now + 1);
    assert_eq!(r, Err(EngineError::Faucet(FaucetError::CooldownNotElapsed)));
    assert_eq!(ata.amount, 1_000 * MILLION);
    assert_eq!(engine.faucet.as_ref().unwrap().recipients[0].data.last_claimed_at, now);

    assert_eq!(engine.claim_from_faucet(&mut ata, &CALLER, now + 3_600), Ok(()));
    assert_eq!(ata.amount, 2_000 * MILLION);
    assert_eq!(engine.faucet.as_ref().unwrap().treasury.amount, 0);
    assert_eq!(
        engine.faucet.as_ref().unwrap().recipients[0].data.last_claimed_at,
        now + 3_600
    );
}

#[test]
fn a_fresh_caller_claims_whatever_the_clock_reads() {
    let mut engine = funded_faucet(2_000 * MILLION);
    let mut ata = caller_ata();
    // The clock stands at zero seconds past the epoch: no time has passed
    // at all, yet the sentinel lets the fresh caller through.
    assert_eq!(engine.claim_from_faucet(&mut ata, &CALLER, 0), Ok(()));
    assert_eq!(ata.amount, 1_000 * MILLION);
}

#[test]
fn a_claim_one_second_before_the_boundary_fails() {
    let mut engine = funded_faucet(3_000 * MILLION);
    let mut ata = caller_ata();
    let now: i64 = 10_000;
    engine.claim_from_faucet(&mut ata, &CALLER, now).unwrap();
    let r = engine.claim_from_faucet(&mut ata, &CALLER, now + 3_599);
    assert_eq!(r, Err(EngineError::Faucet(FaucetError::CooldownNotElapsed)));
    assert_eq!(engine.claim_from_faucet(&mut ata, &CALLER, now + 3_600), Ok(()));
}

#[test]
fn a_claim_against_a_short_reserve_fails_and_leaves_the_record_unchanged() {
    let mut engine = funded_faucet(999 * MILLION);
    let mut ata = caller_ata();
    let r = engine.claim_from_faucet(&mut ata, &CALLER, 5);
    assert_eq!(r, Err(EngineError::Faucet(FaucetError::InsufficientFunds)));
    assert_eq!(ata.amount, 0);
    assert_eq!(engine.faucet.as_ref().unwrap().treasury.amount, 999 * MILLION);
    // A failed first claim creates no record at all.
    assert!(engine.faucet.as_ref().unwrap().recipients.is_empty());
}

#[test]
fn a_failed_claim_after_a_successful_one_keeps_the_old_claim_time() {
    let mut engine = funded_faucet(1_500 * MILLION);
    let mut ata = caller_ata();
    let now: i64 = 10_000;
    engine.claim_from_faucet(&mut ata, &CALLER, now).unwrap();
    // The reserve now holds half an allowance: even after the cooldown the
    // claim fails, and the record still shows the first claim's time.
    let r = engine.claim_from_faucet(&mut ata, &CALLER, now + 7_200);
    assert_eq!(r, Err(EngineError::Faucet(FaucetError::InsufficientFunds)));
    assert_eq!(engine.faucet.as_ref().unwrap().recipients[0].data.last_claimed_at, now);
    assert_eq!(ata.amount, 1_000 * MILLION);
}

#[test]
fn two_callers_keep_separate_records() {
    let mut engine = funded_faucet(3_000 * MILLION);
    let other: [u8; 32] = [5u8; 32];
    let mut ata_one = caller_ata();
    let mut ata_two = TokenAccount { addr: [13u8; 32], mint: MINT_ADDR, owner: other, amount: 0 };
    engine.claim_from_faucet(&mut ata_one, &CALLER, 100).unwrap();
    // The first caller's cooldown does not block the second caller.
    assert_eq!(engine.claim_from_faucet(&mut ata_two, &other, 101), Ok(()));
    let f = engine.faucet.as_ref().unwrap();
    assert_eq!(f.recipients.len(), 2);
    assert_eq!(f.recipients[0].data.last_claimed_at, 100);
    assert_eq!(f.recipients[1].data.last_claimed_at, 101);
    assert_ne!(f.recipients[0].addr, f.recipients[1].addr);
}

#[test]
fn a_claim_with_a_foreign_holding_account_is_refused() {
    let mut engine = funded_faucet(2_000 * MILLION);
    let mut wrong_mint_ata = TokenAccount {
        addr: [11u8; 32],
        mint: [42u8; 32],
        owner: CALLER,
        amount: 0,
    };
    let r = engine.claim_from_faucet(&mut wrong_mint_ata, &CALLER, 5);
    assert_eq!(r, Err(EngineError::Ledger(LedgerError::AccountMismatch)));
    assert!(engine.faucet.as_ref().unwrap().recipients.is_empty());
}

#[test]
fn a_mismatched_treasury_account_is_refused_by_the_operation_logic() {
    let engine = funded_faucet(1_000);
    let f = engine.faucet.as_ref().unwrap();
    let mut treasury = f.treasury;
    treasury.addr = [42u8; 32];
    let mut depositor_ata = TokenAccount {
        addr: [10u8; 32],
        mint: MINT_ADDR,
        owner: DEPOSITOR,
        amount: 100,
    };
    let r = solcraft::faucet::deposit(
        &f.config,
        &f.config_addr,
        &mut treasury,
        &mut depositor_ata,
        &DEPOSITOR,
        &PROGRAM_ID,
        50,
    );
    assert_eq!(r, Err(EngineError::Faucet(FaucetError::InvalidTreasuryAta)));
    assert_eq!(depositor_ata.amount, 100);
}

#[test]
fn faucet_operations_fail_before_the_record_exists() {
    let mut engine = Engine::new(&PROGRAM_ID);
    let mut ata = caller_ata();
    assert_eq!(
        engine.claim_from_faucet(&mut ata, &CALLER, 5),
        Err(EngineError::Ledger(LedgerError::NotInitialized))
    );
    assert_eq!(
        engine.deposit_to_faucet(&mut ata, &CALLER, 5),
        Err(EngineError::Ledger(LedgerError::NotInitialized))
    );
    assert_eq!(
        engine.withdraw_from_faucet(&mut ata, &CALLER, 5),
        Err(EngineError::Ledger(LedgerError::NotInitialized))
    );
}
