//! Asset issuance, gated by the factory: creating a new asset (mint the
//! initial supply, register its descriptive metadata, collect the creation
//! fee into the factory's treasury), minting further units, and handing the
//! mint or freeze authority on.

use vstd::prelude::*;

verus! {

use vstd::utf8::encode_utf8;

use crate::accounts::{
    Address,
    MintAccount,
    NativeAccount,
    TokenAccount,
    TokenMetadata,
    address_eq,
    ata_ok,
    check_ata,
    is_authority,
};
use crate::constants::{MAX_DECIMALS, factory_config_seed, factory_treasury_label,
    factory_treasury_seed, metadata_seed};
use crate::derivation::{
    canonical_address_matches,
    verify_canonical_labeled_address,
    verify_labeled_address,
    verify_two_component_address,
};
use crate::errors::{EngineError, FactoryError, LedgerError, TokenError};
use crate::factory::factory_config_addr_ok;
use crate::states::FactoryConfig;

/// Whether the asset inputs respect the fixed ceilings: at most 32 bytes of
/// name, 10 of symbol, 200 of uri, and at most the global maximum of
/// decimals.
pub open spec fn asset_inputs_ok(
    name: Seq<char>,
    symbol: Seq<char>,
    uri: Seq<char>,
    decimals: u8,
) -> bool {
    &&& encode_utf8(name).len() <= 32
    &&& decimals <= MAX_DECIMALS
    &&& encode_utf8(symbol).len() <= 10
    &&& encode_utf8(uri).len() <= 200
}

/// Whether `mint` is the freshly created issuance record the host hands the
/// operation: the requested precision, nothing issued yet, and both
/// authorities with the paying caller.
pub open spec fn fresh_mint_ok(mint: MintAccount, payer: Address, decimals: u8) -> bool {
    &&& mint.decimals == decimals
    &&& mint.supply == 0
    &&& mint.mint_authority == Some(payer)
    &&& mint.freeze_authority == Some(payer)
}

/// Whether `metadata_addr` is the canonical address the metadata registry
/// derives for this asset from its label, its own identity and the asset's
/// identity.
pub open spec fn metadata_addr_ok(
    metadata_addr: Address,
    mint_addr: Address,
    metadata_program: Address,
) -> bool {
    canonical_address_matches(
        seq![crate::constants::metadata_label(), metadata_program@, mint_addr@],
        metadata_program@,
        metadata_addr@,
    )
}

/// Whether every account supplied to `create_token` matches its re-derived
/// or recorded expectation.
pub open spec fn create_token_accounts_ok(
    c: FactoryConfig,
    config_addr: Address,
    treasury: NativeAccount,
    mint: MintAccount,
    payer_ata: TokenAccount,
    payer: NativeAccount,
    metadata_addr: Address,
    metadata_program: Address,
    program_id: Address,
    decimals: u8,
) -> bool {
    &&& factory_config_addr_ok(c, config_addr, program_id)
    &&& canonical_address_matches(seq![factory_treasury_label()], program_id@, treasury.addr@)
    &&& treasury.addr == c.treasury_account
    &&& fresh_mint_ok(mint, payer.addr, decimals)
    &&& ata_ok(payer_ata, mint.addr, payer.addr)
    &&& metadata_addr_ok(metadata_addr, mint.addr, metadata_program)
}

/// The conditions of `create_token` that the paused flag does not touch:
/// account expectations, input ceilings, the fee being covered, a metadata
/// record not yet registered, and balances that stay representable.
pub open spec fn create_token_unpaused_ok(
    c: FactoryConfig,
    config_addr: Address,
    treasury: NativeAccount,
    mint: MintAccount,
    payer_ata: TokenAccount,
    payer: NativeAccount,
    metadata: Option<TokenMetadata>,
    metadata_addr: Address,
    metadata_program: Address,
    program_id: Address,
    name: Seq<char>,
    symbol: Seq<char>,
    uri: Seq<char>,
    decimals: u8,
    supply: u64,
) -> bool {
    &&& create_token_accounts_ok(
        c,
        config_addr,
        treasury,
        mint,
        payer_ata,
        payer,
        metadata_addr,
        metadata_program,
        program_id,
        decimals,
    )
    &&& asset_inputs_ok(name, symbol, uri, decimals)
    &&& payer.lamports >= c.creation_fee_lamports
    &&& metadata is None
    &&& payer_ata.amount + supply <= u64::MAX
    &&& treasury.lamports + c.creation_fee_lamports <= u64::MAX
}

/// Success condition of `create_token`: the factory is not paused and
/// everything else holds.
pub open spec fn create_token_ok(
    c: FactoryConfig,
    config_addr: Address,
    treasury: NativeAccount,
    mint: MintAccount,
    payer_ata: TokenAccount,
    payer: NativeAccount,
    metadata: Option<TokenMetadata>,
    metadata_addr: Address,
    metadata_program: Address,
    program_id: Address,
    name: Seq<char>,
    symbol: Seq<char>,
    uri: Seq<char>,
    decimals: u8,
    supply: u64,
) -> bool {
    &&& !c.paused
    &&& create_token_unpaused_ok(
        c,
        config_addr,
        treasury,
        mint,
        payer_ata,
        payer,
        metadata,
        metadata_addr,
        metadata_program,
        program_id,
        name,
        symbol,
        uri,
        decimals,
        supply,
    )
}

/// Creates a new asset under the factory's rules: rejected while the
/// factory is paused or where an input exceeds its ceiling; requires the
/// paying caller's balance to cover the creation fee; then mints the whole
/// initial supply to the caller, registers the descriptive metadata, and
/// moves the fee into the factory's treasury. All checks precede the first
/// effect, so a refused request changes nothing.
pub fn create_token(
    config: &FactoryConfig,
    config_addr: &Address,
    treasury: &mut NativeAccount,
    mint: &mut MintAccount,
    payer_ata: &mut TokenAccount,
    payer: &mut NativeAccount,
    metadata: &mut Option<TokenMetadata>,
    metadata_addr: &Address,
    metadata_program: &Address,
    program_id: &Address,
    name: String,
    symbol: String,
    uri: String,
    decimals: u8,
    supply: u64,
) -> (r: Result<(), EngineError>)
    ensures
        r is Ok <==> create_token_ok(
            *config,
            *config_addr,
            *old(treasury),
            *old(mint),
            *old(payer_ata),
            *old(payer),
            *old(metadata),
            *metadata_addr,
            *metadata_program,
            *program_id,
            name@,
            symbol@,
            uri@,
            decimals,
            supply,
        ),
        r is Ok ==> *final(mint) == (MintAccount { supply, ..*old(mint) }),
        r is Ok ==> *final(payer_ata) == (TokenAccount {
            amount: (old(payer_ata).amount + supply) as u64,
            ..*old(payer_ata)
        }),
        r is Ok ==> *final(metadata) == Some(
            (TokenMetadata { name, symbol, uri, creator: old(payer).addr }),
        ),
        r is Ok ==> *final(payer) == (NativeAccount {
            lamports: (old(payer).lamports - config.creation_fee_lamports) as u64,
            ..*old(payer)
        }),
        r is Ok ==> *final(treasury) == (NativeAccount {
            lamports: (old(treasury).lamports + config.creation_fee_lamports) as u64,
            ..*old(treasury)
        }),
        r is Err ==> *final(treasury) == *old(treasury) && *final(mint) == *old(mint)
            && *final(payer_ata) == *old(payer_ata) && *final(payer) == *old(payer)
            && *final(metadata) == *old(metadata),
        !factory_config_addr_ok(*config, *config_addr, *program_id) ==> r == Err::<
            (),
            EngineError,
        >(EngineError::Ledger(LedgerError::AccountMismatch)),
        factory_config_addr_ok(*config, *config_addr, *program_id) && config.paused ==> r == Err::<
            (),
            EngineError,
        >(EngineError::Factory(FactoryError::FactoryPaused)),
        create_token_accounts_ok(
            *config,
            *config_addr,
            *old(treasury),
            *old(mint),
            *old(payer_ata),
            *old(payer),
            *metadata_addr,
            *metadata_program,
            *program_id,
            decimals,
        ) && !config.paused && encode_utf8(name@).len() > 32 ==> r == Err::<(), EngineError>(
            EngineError::Token(TokenError::InvalidInputStringLength),
        ),
        create_token_accounts_ok(
            *config,
            *config_addr,
            *old(treasury),
            *old(mint),
            *old(payer_ata),
            *old(payer),
            *metadata_addr,
            *metadata_program,
            *program_id,
            decimals,
        ) && !config.paused && encode_utf8(name@).len() <= 32 && decimals > MAX_DECIMALS ==> r
            == Err::<(), EngineError>(EngineError::Token(TokenError::ExceedsMaxDecimals)),
        create_token_accounts_ok(
            *config,
            *config_addr,
            *old(treasury),
            *old(mint),
            *old(payer_ata),
            *old(payer),
            *metadata_addr,
            *metadata_program,
            *program_id,
            decimals,
        ) && !config.paused && encode_utf8(name@).len() <= 32 && decimals <= MAX_DECIMALS && (
        encode_utf8(symbol@).len() > 10 || encode_utf8(uri@).len() > 200) ==> r == Err::<
            (),
            EngineError,
        >(EngineError::Token(TokenError::InvalidInputStringLength)),
        create_token_accounts_ok(
            *config,
            *config_addr,
            *old(treasury),
            *old(mint),
            *old(payer_ata),
            *old(payer),
            *metadata_addr,
            *metadata_program,
            *program_id,
            decimals,
        ) && !config.paused && asset_inputs_ok(name@, symbol@, uri@, decimals) && old(
            payer,
        ).lamports < config.creation_fee_lamports ==> r == Err::<(), EngineError>(
            EngineError::Factory(FactoryError::InsufficientCreationFee),
        ),
{
    if !verify_labeled_address(config_addr, factory_config_seed(), config.bump, program_id) {
        return Err(EngineError::Ledger(LedgerError::AccountMismatch));
    }
    if config.paused {
        return Err(EngineError::Factory(FactoryError::FactoryPaused));
    }
    if !verify_canonical_labeled_address(&treasury.addr, factory_treasury_seed(), program_id) {
        return Err(EngineError::Ledger(LedgerError::AccountMismatch));
    }
    if !address_eq(&treasury.addr, &config.treasury_account) {
        return Err(EngineError::Ledger(LedgerError::AccountMismatch));
    }
    if mint.decimals != decimals || mint.supply != 0 {
        return Err(EngineError::Ledger(LedgerError::AccountMismatch));
    }
    if !is_authority(&mint.mint_authority, &payer.addr) {
        return Err(EngineError::Ledger(LedgerError::AccountMismatch));
    }
    if !is_authority(&mint.freeze_authority, &payer.addr) {
        return Err(EngineError::Ledger(LedgerError::AccountMismatch));
    }
    if !check_ata(payer_ata, &mint.addr, &payer.addr) {
        return Err(EngineError::Ledger(LedgerError::AccountMismatch));
    }
    if !verify_two_component_address(
        metadata_addr,
        metadata_seed(),
        metadata_program,
        &mint.addr,
        metadata_program,
    ) {
        return Err(EngineError::Ledger(LedgerError::AccountMismatch));
    }
    if name.as_str().as_bytes().len() > 32 {
        return Err(EngineError::Token(TokenError::InvalidInputStringLength));
    }
    if decimals > MAX_DECIMALS {
        return Err(EngineError::Token(TokenError::ExceedsMaxDecimals));
    }
    if symbol.as_str().as_bytes().len() > 10 {
        return Err(EngineError::Token(TokenError::InvalidInputStringLength));
    }
    if uri.as_str().as_bytes().len() > 200 {
        return Err(EngineError::Token(TokenError::InvalidInputStringLength));
    }
    if payer.lamports < config.creation_fee_lamports {
        return Err(EngineError::Factory(FactoryError::InsufficientCreationFee));
    }
    if metadata.is_some() {
        return Err(EngineError::Ledger(LedgerError::AlreadyInitialized));
    }
    if payer_ata.amount > u64::MAX - supply {
        return Err(EngineError::Ledger(LedgerError::ArithmeticOverflow));
    }
    if treasury.lamports > u64::MAX - config.creation_fee_lamports {
        return Err(EngineError::Ledger(LedgerError::ArithmeticOverflow));
    }
    mint.supply = supply;
    payer_ata.amount = payer_ata.amount + supply;
    *metadata = Some(TokenMetadata { name, symbol, uri, creator: payer.addr });
    treasury.lamports = treasury.lamports + config.creation_fee_lamports;
    payer.lamports = payer.lamports - config.creation_fee_lamports;
    Ok(())
}

/// Success condition of `mint_tokens` over the supplied accounts.
pub open spec fn mint_tokens_ok(
    mint: MintAccount,
    recipient_ata: TokenAccount,
    recipient: Address,
    amount: u64,
) -> bool {
    &&& ata_ok(recipient_ata, mint.addr, recipient)
    &&& mint.mint_authority == Some(recipient)
    &&& mint.supply + amount <= u64::MAX
    &&& recipient_ata.amount + amount <= u64::MAX
}

/// Mints further units of an existing asset to the caller's holding
/// account; the asset program admits it only where the caller holds the
/// mint authority.
pub fn mint_tokens(
    mint: &mut MintAccount,
    recipient_ata: &mut TokenAccount,
    recipient: &Address,
    amount: u64,
) -> (r: Result<(), EngineError>)
    ensures
        r is Ok <==> mint_tokens_ok(*old(mint), *old(recipient_ata), *recipient, amount),
        r is Ok ==> *final(mint) == (MintAccount {
            supply: (old(mint).supply + amount) as u64,
            ..*old(mint)
        }),
        r is Ok ==> *final(recipient_ata) == (TokenAccount {
            amount: (old(recipient_ata).amount + amount) as u64,
            ..*old(recipient_ata)
        }),
        r is Err ==> *final(mint) == *old(mint) && *final(recipient_ata) == *old(recipient_ata),
        !ata_ok(*old(recipient_ata), old(mint).addr, *recipient) ==> r == Err::<(), EngineError>(
            EngineError::Ledger(LedgerError::AccountMismatch),
        ),
        ata_ok(*old(recipient_ata), old(mint).addr, *recipient) && old(mint).mint_authority
            != Some(*recipient) ==> r == Err::<(), EngineError>(EngineError::Ledger(
            LedgerError::InvalidAuthority,
        )),
{
    if !check_ata(recipient_ata, &mint.addr, recipient) {
        return Err(EngineError::Ledger(LedgerError::AccountMismatch));
    }
    if !is_authority(&mint.mint_authority, recipient) {
        return Err(EngineError::Ledger(LedgerError::InvalidAuthority));
    }
    if mint.supply > u64::MAX - amount {
        return Err(EngineError::Ledger(LedgerError::ArithmeticOverflow));
    }
    if recipient_ata.amount > u64::MAX - amount {
        return Err(EngineError::Ledger(LedgerError::ArithmeticOverflow));
    }
    mint.supply = mint.supply + amount;
    recipient_ata.amount = recipient_ata.amount + amount;
    Ok(())
}

/// Hands the mint authority of an asset on (or removes it, with `None`);
/// the asset program admits it only for the present mint authority.
pub fn transfer_mint_authority(
    mint: &mut MintAccount,
    current_authority: &Address,
    new_authority: Option<Address>,
) -> (r: Result<(), EngineError>)
    ensures
        r is Ok <==> old(mint).mint_authority == Some(*current_authority),
        r is Ok ==> *final(mint) == (MintAccount { mint_authority: new_authority, ..*old(mint) }),
        r is Err ==> *final(mint) == *old(mint) && r == Err::<(), EngineError>(
            EngineError::Ledger(LedgerError::InvalidAuthority),
        ),
{
    if !is_authority(&mint.mint_authority, current_authority) {
        return Err(EngineError::Ledger(LedgerError::InvalidAuthority));
    }
    mint.mint_authority = new_authority;
    Ok(())
}

/// Hands the freeze authority of an asset on (or removes it, with `None`);
/// the asset program admits it only for the present freeze authority.
pub fn transfer_freeze_authority(
    mint: &mut MintAccount,
    current_authority: &Address,
    new_authority: Option<Address>,
) -> (r: Result<(), EngineError>)
    ensures
        r is Ok <==> old(mint).freeze_authority == Some(*current_authority),
        r is Ok ==> *final(mint) == (MintAccount {
            freeze_authority: new_authority,
            ..*old(mint)
        }),
        r is Err ==> *final(mint) == *old(mint) && r == Err::<(), EngineError>(
            EngineError::Ledger(LedgerError::InvalidAuthority),
        ),
{
    if !is_authority(&mint.freeze_authority, current_authority) {
        return Err(EngineError::Ledger(LedgerError::InvalidAuthority));
    }
    mint.freeze_authority = new_authority;
    Ok(())
}

/// Law: the paused flag is the only switch the toggles move. While the
/// factory is paused, `create_token` succeeds on no input at all; with the
/// flag cleared again, the very same request is decided exactly by the
/// pause-free conditions, which never read the flag.
pub proof fn lemma_pause_gates_create(
    c: FactoryConfig,
    config_addr: Address,
    treasury: NativeAccount,
    mint: MintAccount,
    payer_ata: TokenAccount,
    payer: NativeAccount,
    metadata: Option<TokenMetadata>,
    metadata_addr: Address,
    metadata_program: Address,
    program_id: Address,
    name: Seq<char>,
    symbol: Seq<char>,
    uri: Seq<char>,
    decimals: u8,
    supply: u64,
)
    ensures
        !create_token_ok(
            (FactoryConfig { paused: true, ..c }),
            config_addr,
            treasury,
            mint,
            payer_ata,
            payer,
            metadata,
            metadata_addr,
            metadata_program,
            program_id,
            name,
            symbol,
            uri,
            decimals,
            supply,
        ),
        create_token_ok(
            (FactoryConfig { paused: false, ..c }),
            config_addr,
            treasury,
            mint,
            payer_ata,
            payer,
            metadata,
            metadata_addr,
            metadata_program,
            program_id,
            name,
            symbol,
            uri,
            decimals,
            supply,
        ) <==> create_token_unpaused_ok(
            c,
            config_addr,
            treasury,
            mint,
            payer_ata,
            payer,
            metadata,
            metadata_addr,
            metadata_program,
            program_id,
            name,
            symbol,
            uri,
            decimals,
            supply,
        ),
{
}

} // verus!
