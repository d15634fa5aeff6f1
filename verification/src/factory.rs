//! The factory's administrative operations: creating the control record,
//! replacing the creation fee, pausing and unpausing asset creation, and
//! withdrawing the collected fees from the treasury custody account.
//!
//! Every operation re-derives the expected address of each supplied record
//! from its label and stored bump proof, and rejects the request on any
//! mismatch; the administrative operations additionally demand that the
//! signer is the recorded administrator.

use vstd::prelude::*;

verus! {

use crate::accounts::{Address, NativeAccount, address_eq};
use crate::constants::{
    factory_config_label,
    factory_config_seed,
    factory_treasury_label,
    factory_treasury_seed,
};
use crate::derivation::{raw_pda_of, verify_labeled_address};
use crate::errors::{EngineError, FactoryError, LedgerError};
use crate::states::FactoryConfig;

/// Whether `addr` re-derives from the factory config label and the record's
/// stored bump proof under `program_id`.
pub open spec fn factory_config_addr_ok(
    c: FactoryConfig,
    addr: Address,
    program_id: Address,
) -> bool {
    raw_pda_of(seq![factory_config_label(), seq![c.bump]], program_id@) == Some(addr@)
}

/// Whether `addr` re-derives from the treasury label and the stored treasury
/// bump proof, and is exactly the treasury the record names.
pub open spec fn factory_treasury_addr_ok(
    c: FactoryConfig,
    addr: Address,
    program_id: Address,
) -> bool {
    raw_pda_of(seq![factory_treasury_label(), seq![c.treasury_bump]], program_id@) == Some(addr@)
        && addr == c.treasury_account
}

/// Creates the factory's control record exactly as initialization writes
/// it: the given fee, the caller as administrator, unpaused, bound to the
/// treasury account and to the two bump proofs of the fresh derivations.
pub fn initialize_factory(
    admin: &Address,
    treasury_account: &Address,
    bump: u8,
    treasury_bump: u8,
    creation_fee_lamports: u64,
) -> (c: FactoryConfig)
    ensures
        c == (FactoryConfig {
            admin: *admin,
            paused: false,
            treasury_account: *treasury_account,
            bump,
            treasury_bump,
            creation_fee_lamports,
        }),
{
    FactoryConfig {
        admin: *admin,
        paused: false,
        treasury_account: *treasury_account,
        bump,
        treasury_bump,
        creation_fee_lamports,
    }
}

/// Replaces the creation fee unconditionally (zero is accepted). Admin-only:
/// the supplied record address must re-derive from the label and stored
/// proof, and the signer must be the recorded administrator.
pub fn update_creation_fee(
    config: &mut FactoryConfig,
    config_addr: &Address,
    admin: &Address,
    program_id: &Address,
    creation_fee_lamports: u64,
) -> (r: Result<(), EngineError>)
    ensures
        r is Ok <==> factory_config_addr_ok(*old(config), *config_addr, *program_id) && old(
            config,
        ).admin == *admin,
        r is Ok ==> *final(config) == (FactoryConfig { creation_fee_lamports, ..*old(config) }),
        r is Err ==> *final(config) == *old(config),
        !factory_config_addr_ok(*old(config), *config_addr, *program_id) ==> r == Err::<
            (),
            EngineError,
        >(EngineError::Ledger(LedgerError::AccountMismatch)),
        factory_config_addr_ok(*old(config), *config_addr, *program_id) && old(config).admin
            != *admin ==> r == Err::<(), EngineError>(EngineError::Factory(
            FactoryError::Unauthorized,
        )),
{
    if !verify_labeled_address(config_addr, factory_config_seed(), config.bump, program_id) {
        return Err(EngineError::Ledger(LedgerError::AccountMismatch));
    }
    if !address_eq(&config.admin, admin) {
        return Err(EngineError::Factory(FactoryError::Unauthorized));
    }
    config.creation_fee_lamports = creation_fee_lamports;
    Ok(())
}

/// Pauses asset creation. Admin-only; idempotent: pausing an already-paused
/// factory succeeds and leaves the record as it is. Administrative
/// operations themselves are never blocked by the paused flag.
pub fn pause_factory(
    config: &mut FactoryConfig,
    config_addr: &Address,
    admin: &Address,
    program_id: &Address,
) -> (r: Result<(), EngineError>)
    ensures
        r is Ok <==> factory_config_addr_ok(*old(config), *config_addr, *program_id) && old(
            config,
        ).admin == *admin,
        r is Ok ==> *final(config) == (FactoryConfig { paused: true, ..*old(config) }),
        r is Err ==> *final(config) == *old(config),
        !factory_config_addr_ok(*old(config), *config_addr, *program_id) ==> r == Err::<
            (),
            EngineError,
        >(EngineError::Ledger(LedgerError::AccountMismatch)),
        factory_config_addr_ok(*old(config), *config_addr, *program_id) && old(config).admin
            != *admin ==> r == Err::<(), EngineError>(EngineError::Factory(
            FactoryError::Unauthorized,
        )),
{
    if !verify_labeled_address(config_addr, factory_config_seed(), config.bump, program_id) {
        return Err(EngineError::Ledger(LedgerError::AccountMismatch));
    }
    if !address_eq(&config.admin, admin) {
        return Err(EngineError::Factory(FactoryError::Unauthorized));
    }
    config.paused = true;
    Ok(())
}

/// Unpauses asset creation. Admin-only; idempotent like `pause_factory`.
pub fn unpause_factory(
    config: &mut FactoryConfig,
    config_addr: &Address,
    admin: &Address,
    program_id: &Address,
) -> (r: Result<(), EngineError>)
    ensures
        r is Ok <==> factory_config_addr_ok(*old(config), *config_addr, *program_id) && old(
            config,
        ).admin == *admin,
        r is Ok ==> *final(config) == (FactoryConfig { paused: false, ..*old(config) }),
        r is Err ==> *final(config) == *old(config),
        !factory_config_addr_ok(*old(config), *config_addr, *program_id) ==> r == Err::<
            (),
            EngineError,
        >(EngineError::Ledger(LedgerError::AccountMismatch)),
        factory_config_addr_ok(*old(config), *config_addr, *program_id) && old(config).admin
            != *admin ==> r == Err::<(), EngineError>(EngineError::Factory(
            FactoryError::Unauthorized,
        )),
{
    if !verify_labeled_address(config_addr, factory_config_seed(), config.bump, program_id) {
        return Err(EngineError::Ledger(LedgerError::AccountMismatch));
    }
    if !address_eq(&config.admin, admin) {
        return Err(EngineError::Factory(FactoryError::Unauthorized));
    }
    config.paused = false;
    Ok(())
}

/// The surplus a fee withdrawal moves: everything above the minimum balance
/// the ledger requires the treasury to retain; clamped to zero where the
/// balance is already at or below that minimum, never an error.
pub open spec fn withdrawable(balance: u64, rent_exempt_minimum: u64) -> u64 {
    if balance >= rent_exempt_minimum {
        (balance - rent_exempt_minimum) as u64
    } else {
        0u64
    }
}

/// Success condition of `withdraw_fees` over the supplied accounts.
pub open spec fn withdraw_fees_ok(
    c: FactoryConfig,
    config_addr: Address,
    treasury: NativeAccount,
    admin: NativeAccount,
    program_id: Address,
    rent_exempt_minimum: u64,
) -> bool {
    &&& factory_config_addr_ok(c, config_addr, program_id)
    &&& c.admin == admin.addr
    &&& factory_treasury_addr_ok(c, treasury.addr, program_id)
    &&& admin.lamports + withdrawable(treasury.lamports, rent_exempt_minimum) <= u64::MAX
}

/// Moves the treasury's surplus above the ledger's minimum-balance
/// requirement to the administrator; a zero surplus succeeds as a no-op.
/// Admin-only. The transfer out of custody is authorized by re-deriving the
/// treasury's address from its label and the stored treasury bump proof:
/// that derivation, not a private key, is the signing credential.
pub fn withdraw_fees(
    config: &FactoryConfig,
    config_addr: &Address,
    treasury: &mut NativeAccount,
    admin: &mut NativeAccount,
    program_id: &Address,
    rent_exempt_minimum: u64,
) -> (r: Result<(), EngineError>)
    ensures
        r is Ok <==> withdraw_fees_ok(
            *config,
            *config_addr,
            *old(treasury),
            *old(admin),
            *program_id,
            rent_exempt_minimum,
        ),
        r is Ok ==> *final(treasury) == (NativeAccount {
            lamports: (old(treasury).lamports - withdrawable(
                old(treasury).lamports,
                rent_exempt_minimum,
            )) as u64,
            ..*old(treasury)
        }),
        r is Ok ==> *final(admin) == (NativeAccount {
            lamports: (old(admin).lamports + withdrawable(
                old(treasury).lamports,
                rent_exempt_minimum,
            )) as u64,
            ..*old(admin)
        }),
        r is Err ==> *final(treasury) == *old(treasury) && *final(admin) == *old(admin),
        !factory_config_addr_ok(*config, *config_addr, *program_id) ==> r == Err::<
            (),
            EngineError,
        >(EngineError::Ledger(LedgerError::AccountMismatch)),
        factory_config_addr_ok(*config, *config_addr, *program_id) && config.admin != old(
            admin,
        ).addr ==> r == Err::<(), EngineError>(EngineError::Factory(FactoryError::Unauthorized)),
        factory_config_addr_ok(*config, *config_addr, *program_id) && config.admin == old(
            admin,
        ).addr && !factory_treasury_addr_ok(*config, old(treasury).addr, *program_id) ==> r
            == Err::<(), EngineError>(EngineError::Ledger(LedgerError::AccountMismatch)),
{
    if !verify_labeled_address(config_addr, factory_config_seed(), config.bump, program_id) {
        return Err(EngineError::Ledger(LedgerError::AccountMismatch));
    }
    if !address_eq(&config.admin, &admin.addr) {
        return Err(EngineError::Factory(FactoryError::Unauthorized));
    }
    if !verify_labeled_address(
        &treasury.addr,
        factory_treasury_seed(),
        config.treasury_bump,
        program_id,
    ) {
        return Err(EngineError::Ledger(LedgerError::AccountMismatch));
    }
    if !address_eq(&treasury.addr, &config.treasury_account) {
        return Err(EngineError::Ledger(LedgerError::AccountMismatch));
    }
    let surplus = if treasury.lamports >= rent_exempt_minimum {
        treasury.lamports - rent_exempt_minimum
    } else {
        0
    };
    if surplus == 0 {
        return Ok(());
    }
    if admin.lamports > u64::MAX - surplus {
        return Err(EngineError::Ledger(LedgerError::ArithmeticOverflow));
    }
    treasury.lamports = treasury.lamports - surplus;
    admin.lamports = admin.lamports + surplus;
    Ok(())
}

/// Law: the paused toggles are idempotent. Pausing an already-paused record
/// yields the very same record, and likewise unpausing an unpaused one.
pub proof fn lemma_pause_idempotent(c: FactoryConfig)
    ensures
        (FactoryConfig { paused: true, ..(FactoryConfig { paused: true, ..c }) })
            == (FactoryConfig { paused: true, ..c }),
        (FactoryConfig { paused: false, ..(FactoryConfig { paused: false, ..c }) })
            == (FactoryConfig { paused: false, ..c }),
{
}

/// Law: a fee withdrawal never takes the treasury below the ledger's
/// minimum-balance requirement; a treasury already below it is left
/// untouched.
pub proof fn lemma_withdraw_keeps_minimum(balance: u64, rent_exempt_minimum: u64)
    ensures
        balance >= rent_exempt_minimum ==> balance - withdrawable(balance, rent_exempt_minimum)
            >= rent_exempt_minimum,
        balance < rent_exempt_minimum ==> withdrawable(balance, rent_exempt_minimum) == 0,
{
}

/// Law: withdrawing twice in succession with no deposit in between moves
/// nothing the second time — the first withdrawal leaves exactly the
/// required minimum, of which nothing is withdrawable.
pub proof fn lemma_second_withdraw_moves_nothing(balance: u64, rent_exempt_minimum: u64)
    ensures
        withdrawable(
            (balance - withdrawable(balance, rent_exempt_minimum)) as u64,
            rent_exempt_minimum,
        ) == 0,
{
}

} // verus!
