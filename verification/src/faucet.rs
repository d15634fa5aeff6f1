//! The faucet's operations: creating its control record and reserve,
//! topping the reserve up, the owner-only withdrawal, and the cooldown-gated
//! claim that pays a fixed allowance out of the reserve.
//!
//! The reserve is an asset holding account whose spending authority is the
//! faucet's control record itself: a claim or a withdrawal moves funds only
//! because the operation re-derives the control record's address from its
//! label and stored bump proof and presents that derivation as the signing
//! credential.

use vstd::prelude::*;

verus! {

use crate::accounts::{Address, MintAccount, TokenAccount, address_eq, ata_ok, check_ata};
use crate::constants::{
    DEFAULT_COOLDOWN_SECONDS,
    MAX_DECIMALS,
    faucet_config_label,
    faucet_config_seed,
    faucet_recipient_label,
    faucet_recipient_seed,
};
use crate::derivation::{
    canonical_address_matches,
    raw_pda_of,
    verify_caller_address,
    verify_labeled_address,
};
use crate::errors::{EngineError, FaucetError, LedgerError};
use crate::states::{FaucetConfig, FaucetRecipientData};

/// 10 to the power `e`.
pub open spec fn pow10(e: nat) -> nat
    decreases e,
{
    if e == 0 {
        1
    } else {
        10 * pow10((e - 1) as nat)
    }
}

/// 10 to the power `e` never vanishes.
pub proof fn lemma_pow10_pos(e: nat)
    ensures
        pow10(e) >= 1,
    decreases e,
{
    if e > 0 {
        lemma_pow10_pos((e - 1) as nat);
    }
}

/// 10 to the power `e` grows with `e`.
pub proof fn lemma_pow10_le(a: nat, b: nat)
    requires
        a <= b,
    ensures
        pow10(a) <= pow10(b),
    decreases b,
{
    if a < b {
        lemma_pow10_le(a, (b - 1) as nat);
        lemma_pow10_pos((b - 1) as nat);
    }
}

/// 10 to the power `e`, for exponents up to the decimal ceiling.
pub fn ten_pow(e: u8) -> (r: u64)
    requires
        e <= MAX_DECIMALS,
    ensures
        r == pow10(e as nat),
{
    proof {
        reveal_with_fuel(pow10, 11);
    }
    let mut r: u64 = 1;
    let mut i: u8 = 0;
    while i < e
        invariant
            i <= e,
            e <= MAX_DECIMALS,
            r == pow10(i as nat),
            r <= 1_000_000_000,
        decreases e - i,
    {
        proof {
            lemma_pow10_le((i + 1) as nat, 9nat);
            reveal_with_fuel(pow10, 11);
        }
        r = r * 10;
        i = i + 1;
    }
    r
}

/// The default allowance a freshly initialized faucet dispenses per claim:
/// 1000 whole tokens, in base units of an asset with this precision.
pub open spec fn default_claim_amount(decimals: u8) -> nat {
    1000 * pow10(decimals as nat)
}

/// Whether `addr` re-derives from the faucet config label and the record's
/// stored bump proof under `program_id`.
pub open spec fn faucet_config_addr_ok(c: FaucetConfig, addr: Address, program_id: Address) -> bool {
    raw_pda_of(seq![faucet_config_label(), seq![c.bump]], program_id@) == Some(addr@)
}

/// Whether `addr` is the canonical derived address of `caller`'s per-caller
/// record under `program_id`.
pub open spec fn recipient_addr_ok(addr: Address, caller: Address, program_id: Address) -> bool {
    canonical_address_matches(seq![faucet_recipient_label(), caller@], program_id@, addr@)
}

/// Creates the faucet's control record: owner = the caller, the chosen
/// asset, the fresh reserve account, the default cooldown of one hour, the
/// default allowance of 1000 whole tokens, and the bump proof of the fresh
/// derivation. Rejected where the asset's precision exceeds the ceiling.
pub fn initialize(owner: &Address, mint: &MintAccount, treasury_ata: &Address, bump: u8) -> (r:
    Result<FaucetConfig, EngineError>)
    ensures
        mint.decimals > MAX_DECIMALS ==> r == Err::<FaucetConfig, EngineError>(
            EngineError::Faucet(FaucetError::ExceedsMaxDecimals),
        ),
        mint.decimals <= MAX_DECIMALS ==> r == Ok::<FaucetConfig, EngineError>(
            (FaucetConfig {
                owner: *owner,
                mint: mint.addr,
                allowed_claim_amount: default_claim_amount(mint.decimals) as u64,
                treasury_ata: *treasury_ata,
                cooldown_seconds: DEFAULT_COOLDOWN_SECONDS,
                bump,
            }),
        ),
        r is Ok <==> mint.decimals <= MAX_DECIMALS,
{
    let decimals = mint.decimals;
    if decimals > MAX_DECIMALS {
        return Err(EngineError::Faucet(FaucetError::ExceedsMaxDecimals));
    }
    proof {
        lemma_pow10_le(decimals as nat, 9nat);
        reveal_with_fuel(pow10, 11);
    }
    let allowed_claim_amount: u64 = 1000u64 * ten_pow(decimals);
    Ok(
        FaucetConfig {
            owner: *owner,
            mint: mint.addr,
            allowed_claim_amount,
            treasury_ata: *treasury_ata,
            cooldown_seconds: DEFAULT_COOLDOWN_SECONDS,
            bump,
        },
    )
}

/// Success condition of `deposit` over the supplied accounts.
pub open spec fn deposit_ok(
    c: FaucetConfig,
    config_addr: Address,
    treasury_ata: TokenAccount,
    depositor_ata: TokenAccount,
    depositor: Address,
    program_id: Address,
    amount: u64,
) -> bool {
    &&& faucet_config_addr_ok(c, config_addr, program_id)
    &&& ata_ok(treasury_ata, c.mint, config_addr)
    &&& treasury_ata.addr == c.treasury_ata
    &&& ata_ok(depositor_ata, c.mint, depositor)
    &&& depositor_ata.amount >= amount
    &&& treasury_ata.amount + amount <= u64::MAX
}

/// Tops the reserve up: anyone may move `amount` of the faucet's asset from
/// their own holding account into the reserve, provided their balance
/// covers it.
pub fn deposit(
    config: &FaucetConfig,
    config_addr: &Address,
    treasury_ata: &mut TokenAccount,
    depositor_ata: &mut TokenAccount,
    depositor: &Address,
    program_id: &Address,
    amount: u64,
) -> (r: Result<(), EngineError>)
    ensures
        r is Ok <==> deposit_ok(
            *config,
            *config_addr,
            *old(treasury_ata),
            *old(depositor_ata),
            *depositor,
            *program_id,
            amount,
        ),
        r is Ok ==> *final(treasury_ata) == (TokenAccount {
            amount: (old(treasury_ata).amount + amount) as u64,
            ..*old(treasury_ata)
        }),
        r is Ok ==> *final(depositor_ata) == (TokenAccount {
            amount: (old(depositor_ata).amount - amount) as u64,
            ..*old(depositor_ata)
        }),
        r is Err ==> *final(treasury_ata) == *old(treasury_ata) && *final(depositor_ata) == *old(
            depositor_ata,
        ),
        !faucet_config_addr_ok(*config, *config_addr, *program_id) ==> r == Err::<
            (),
            EngineError,
        >(EngineError::Ledger(LedgerError::AccountMismatch)),
        faucet_config_addr_ok(*config, *config_addr, *program_id) && !ata_ok(
            *old(treasury_ata),
            config.mint,
            *config_addr,
        ) ==> r == Err::<(), EngineError>(EngineError::Ledger(LedgerError::AccountMismatch)),
        faucet_config_addr_ok(*config, *config_addr, *program_id) && ata_ok(
            *old(treasury_ata),
            config.mint,
            *config_addr,
        ) && old(treasury_ata).addr != config.treasury_ata ==> r == Err::<(), EngineError>(
            EngineError::Faucet(FaucetError::InvalidTreasuryAta),
        ),
        faucet_config_addr_ok(*config, *config_addr, *program_id) && ata_ok(
            *old(treasury_ata),
            config.mint,
            *config_addr,
        ) && old(treasury_ata).addr == config.treasury_ata && !ata_ok(
            *old(depositor_ata),
            config.mint,
            *depositor,
        ) ==> r == Err::<(), EngineError>(EngineError::Ledger(LedgerError::AccountMismatch)),
        faucet_config_addr_ok(*config, *config_addr, *program_id) && ata_ok(
            *old(treasury_ata),
            config.mint,
            *config_addr,
        ) && old(treasury_ata).addr == config.treasury_ata && ata_ok(
            *old(depositor_ata),
            config.mint,
            *depositor,
        ) && old(depositor_ata).amount < amount ==> r == Err::<(), EngineError>(
            EngineError::Faucet(FaucetError::InsufficientFunds),
        ),
{
    if !verify_labeled_address(config_addr, faucet_config_seed(), config.bump, program_id) {
        return Err(EngineError::Ledger(LedgerError::AccountMismatch));
    }
    if !check_ata(treasury_ata, &config.mint, config_addr) {
        return Err(EngineError::Ledger(LedgerError::AccountMismatch));
    }
    if !address_eq(&treasury_ata.addr, &config.treasury_ata) {
        return Err(EngineError::Faucet(FaucetError::InvalidTreasuryAta));
    }
    if !check_ata(depositor_ata, &config.mint, depositor) {
        return Err(EngineError::Ledger(LedgerError::AccountMismatch));
    }
    if depositor_ata.amount < amount {
        return Err(EngineError::Faucet(FaucetError::InsufficientFunds));
    }
    if treasury_ata.amount > u64::MAX - amount {
        return Err(EngineError::Ledger(LedgerError::ArithmeticOverflow));
    }
    depositor_ata.amount = depositor_ata.amount - amount;
    treasury_ata.amount = treasury_ata.amount + amount;
    Ok(())
}

/// Success condition of `withdraw` over the supplied accounts.
pub open spec fn withdraw_ok(
    c: FaucetConfig,
    config_addr: Address,
    treasury_ata: TokenAccount,
    recipient_ata: TokenAccount,
    recipient: Address,
    program_id: Address,
    amount: u64,
) -> bool {
    &&& faucet_config_addr_ok(c, config_addr, program_id)
    &&& recipient == c.owner
    &&& ata_ok(treasury_ata, c.mint, config_addr)
    &&& treasury_ata.addr == c.treasury_ata
    &&& ata_ok(recipient_ata, c.mint, recipient)
    &&& treasury_ata.amount >= amount
    &&& recipient_ata.amount + amount <= u64::MAX
}

/// Moves `amount` out of the reserve to the owner. Owner-only; the control
/// record's re-derived address signs for the reserve.
pub fn withdraw(
    config: &FaucetConfig,
    config_addr: &Address,
    treasury_ata: &mut TokenAccount,
    recipient_ata: &mut TokenAccount,
    recipient: &Address,
    program_id: &Address,
    amount: u64,
) -> (r: Result<(), EngineError>)
    ensures
        r is Ok <==> withdraw_ok(
            *config,
            *config_addr,
            *old(treasury_ata),
            *old(recipient_ata),
            *recipient,
            *program_id,
            amount,
        ),
        r is Ok ==> *final(treasury_ata) == (TokenAccount {
            amount: (old(treasury_ata).amount - amount) as u64,
            ..*old(treasury_ata)
        }),
        r is Ok ==> *final(recipient_ata) == (TokenAccount {
            amount: (old(recipient_ata).amount + amount) as u64,
            ..*old(recipient_ata)
        }),
        r is Err ==> *final(treasury_ata) == *old(treasury_ata) && *final(recipient_ata) == *old(
            recipient_ata,
        ),
        !faucet_config_addr_ok(*config, *config_addr, *program_id) ==> r == Err::<
            (),
            EngineError,
        >(EngineError::Ledger(LedgerError::AccountMismatch)),
        faucet_config_addr_ok(*config, *config_addr, *program_id) && *recipient != config.owner
            ==> r == Err::<(), EngineError>(EngineError::Faucet(FaucetError::Unauthorized)),
        faucet_config_addr_ok(*config, *config_addr, *program_id) && *recipient == config.owner
            && ata_ok(*old(treasury_ata), config.mint, *config_addr) && old(treasury_ata).addr
            == config.treasury_ata && ata_ok(*old(recipient_ata), config.mint, *recipient) && old(
            treasury_ata,
        ).amount < amount ==> r == Err::<(), EngineError>(EngineError::Faucet(
            FaucetError::InsufficientFunds,
        )),
{
    if !verify_labeled_address(config_addr, faucet_config_seed(), config.bump, program_id) {
        return Err(EngineError::Ledger(LedgerError::AccountMismatch));
    }
    if !address_eq(recipient, &config.owner) {
        return Err(EngineError::Faucet(FaucetError::Unauthorized));
    }
    if !check_ata(treasury_ata, &config.mint, config_addr) {
        return Err(EngineError::Ledger(LedgerError::AccountMismatch));
    }
    if !address_eq(&treasury_ata.addr, &config.treasury_ata) {
        return Err(EngineError::Faucet(FaucetError::InvalidTreasuryAta));
    }
    if !check_ata(recipient_ata, &config.mint, recipient) {
        return Err(EngineError::Ledger(LedgerError::AccountMismatch));
    }
    if treasury_ata.amount < amount {
        return Err(EngineError::Faucet(FaucetError::InsufficientFunds));
    }
    if recipient_ata.amount > u64::MAX - amount {
        return Err(EngineError::Ledger(LedgerError::ArithmeticOverflow));
    }
    treasury_ata.amount = treasury_ata.amount - amount;
    recipient_ata.amount = recipient_ata.amount + amount;
    Ok(())
}

/// Whether the cooldown rule lets a claim through at time `now`: a caller
/// that has never claimed (sentinel 0) passes whatever the clock reads;
/// any other caller must have waited out the full cooldown.
pub open spec fn cooldown_ok(last_claimed_at: i64, cooldown_seconds: u64, now: i64) -> bool {
    last_claimed_at == 0 || now - last_claimed_at >= cooldown_seconds as i64
}

/// Success condition of `claim` over the supplied accounts.
pub open spec fn claim_ok(
    c: FaucetConfig,
    config_addr: Address,
    recipient_data: FaucetRecipientData,
    recipient_data_addr: Address,
    treasury_ata: TokenAccount,
    recipient_ata: TokenAccount,
    recipient: Address,
    program_id: Address,
    now: i64,
) -> bool {
    &&& faucet_config_addr_ok(c, config_addr, program_id)
    &&& recipient_addr_ok(recipient_data_addr, recipient, program_id)
    &&& ata_ok(treasury_ata, c.mint, config_addr)
    &&& treasury_ata.addr == c.treasury_ata
    &&& ata_ok(recipient_ata, c.mint, recipient)
    &&& treasury_ata.amount >= c.allowed_claim_amount
    &&& cooldown_ok(recipient_data.last_claimed_at, c.cooldown_seconds, now)
    &&& recipient_ata.amount + c.allowed_claim_amount <= u64::MAX
}

/// Pays the fixed allowance out of the reserve to the caller, gated by the
/// per-caller cooldown. A caller whose record holds the never-claimed
/// sentinel is admitted however the clock stands. The control
/// record's re-derived address signs for the reserve, and the claim time is
/// recorded only once the transfer has gone through: a failed claim leaves
/// the per-caller record untouched.
pub fn claim(
    config: &FaucetConfig,
    config_addr: &Address,
    recipient_data: &mut FaucetRecipientData,
    recipient_data_addr: &Address,
    treasury_ata: &mut TokenAccount,
    recipient_ata: &mut TokenAccount,
    recipient: &Address,
    program_id: &Address,
    now: i64,
) -> (r: Result<(), EngineError>)
    requires
        old(recipient_data).wf(),
        now >= 0,
    ensures
        r is Ok <==> claim_ok(
            *config,
            *config_addr,
            *old(recipient_data),
            *recipient_data_addr,
            *old(treasury_ata),
            *old(recipient_ata),
            *recipient,
            *program_id,
            now,
        ),
        r is Ok ==> *final(treasury_ata) == (TokenAccount {
            amount: (old(treasury_ata).amount - config.allowed_claim_amount) as u64,
            ..*old(treasury_ata)
        }),
        r is Ok ==> *final(recipient_ata) == (TokenAccount {
            amount: (old(recipient_ata).amount + config.allowed_claim_amount) as u64,
            ..*old(recipient_ata)
        }),
        r is Ok ==> *final(recipient_data) == (FaucetRecipientData { last_claimed_at: now }),
        r is Err ==> *final(treasury_ata) == *old(treasury_ata) && *final(recipient_ata) == *old(
            recipient_ata,
        ) && *final(recipient_data) == *old(recipient_data),
        final(recipient_data).wf(),
        !faucet_config_addr_ok(*config, *config_addr, *program_id) ==> r == Err::<
            (),
            EngineError,
        >(EngineError::Ledger(LedgerError::AccountMismatch)),
        faucet_config_addr_ok(*config, *config_addr, *program_id) && !recipient_addr_ok(
            *recipient_data_addr,
            *recipient,
            *program_id,
        ) ==> r == Err::<(), EngineError>(EngineError::Ledger(LedgerError::AccountMismatch)),
        faucet_config_addr_ok(*config, *config_addr, *program_id) && recipient_addr_ok(
            *recipient_data_addr,
            *recipient,
            *program_id,
        ) && ata_ok(*old(treasury_ata), config.mint, *config_addr) && old(treasury_ata).addr
            == config.treasury_ata && ata_ok(*old(recipient_ata), config.mint, *recipient) && old(
            treasury_ata,
        ).amount < config.allowed_claim_amount ==> r == Err::<(), EngineError>(
            EngineError::Faucet(FaucetError::InsufficientFunds),
        ),
        faucet_config_addr_ok(*config, *config_addr, *program_id) && recipient_addr_ok(
            *recipient_data_addr,
            *recipient,
            *program_id,
        ) && ata_ok(*old(treasury_ata), config.mint, *config_addr) && old(treasury_ata).addr
            == config.treasury_ata && ata_ok(*old(recipient_ata), config.mint, *recipient) && old(
            treasury_ata,
        ).amount >= config.allowed_claim_amount && !cooldown_ok(
            old(recipient_data).last_claimed_at,
            config.cooldown_seconds,
            now,
        ) ==> r == Err::<(), EngineError>(EngineError::Faucet(FaucetError::CooldownNotElapsed)),
{
    if !verify_labeled_address(config_addr, faucet_config_seed(), config.bump, program_id) {
        return Err(EngineError::Ledger(LedgerError::AccountMismatch));
    }
    if !verify_caller_address(recipient_data_addr, faucet_recipient_seed(), recipient, program_id) {
        return Err(EngineError::Ledger(LedgerError::AccountMismatch));
    }
    if !check_ata(treasury_ata, &config.mint, config_addr) {
        return Err(EngineError::Ledger(LedgerError::AccountMismatch));
    }
    if !address_eq(&treasury_ata.addr, &config.treasury_ata) {
        return Err(EngineError::Faucet(FaucetError::InvalidTreasuryAta));
    }
    if !check_ata(recipient_ata, &config.mint, recipient) {
        return Err(EngineError::Ledger(LedgerError::AccountMismatch));
    }
    let claim_amount = config.allowed_claim_amount;
    if treasury_ata.amount < claim_amount {
        return Err(EngineError::Faucet(FaucetError::InsufficientFunds));
    }
    let last_claimed_at = recipient_data.last_claimed_at;
    if last_claimed_at != 0 {
        if now - last_claimed_at < config.cooldown_seconds as i64 {
            return Err(EngineError::Faucet(FaucetError::CooldownNotElapsed));
        }
    }
    if recipient_ata.amount > u64::MAX - claim_amount {
        return Err(EngineError::Ledger(LedgerError::ArithmeticOverflow));
    }
    treasury_ata.amount = treasury_ata.amount - claim_amount;
    recipient_ata.amount = recipient_ata.amount + claim_amount;
    recipient_data.last_claimed_at = now;
    Ok(())
}

/// Law: a fresh caller is admitted by the cooldown rule on the first claim no
/// matter what the clock reads: the sentinel skips the waiting test.
pub proof fn lemma_first_claim_ignores_clock(cooldown_seconds: u64, now: i64)
    ensures
        cooldown_ok(0, cooldown_seconds, now),
{
}

/// Law: once a claim stands recorded at time `t`, the cooldown rule
/// refuses another attempt earlier than `t` plus the cooldown, and
/// admits one at exactly that moment.
pub proof fn lemma_cooldown_boundary(t: i64, cooldown_seconds: u64, now: i64)
    requires
        t > 0,
        0 <= cooldown_seconds as i64,
    ensures
        now - t < cooldown_seconds as i64 ==> !cooldown_ok(t, cooldown_seconds, now),
        now - t == cooldown_seconds as i64 ==> cooldown_ok(t, cooldown_seconds, now),
{
}

} // verus!
