//! The named conditions under which an operation refuses a request.
//!
//! Three enums carry the facility rules (asset inputs, factory
//! administration, faucet claims); `LedgerError` carries the conditions that
//! the host ledger and its collaborator programs enforce (account address
//! mismatches, missing records, arithmetic that the transfer primitives
//! refuse). `EngineError` is the union that every operation returns.

use vstd::prelude::*;

verus! {

/// Refusals of the inputs offered for a new asset.
#[derive(Clone, Copy, Debug, PartialEq, Eq)]
pub enum TokenError {
    /// The provided decimals exceed the maximum allowed.
    ExceedsMaxDecimals,
    /// The provided string length is invalid.
    InvalidInputStringLength,
}

/// Refusals of factory operations.
#[derive(Clone, Copy, Debug, PartialEq, Eq)]
pub enum FactoryError {
    /// The factory is currently paused.
    FactoryPaused,
    /// Insufficient funds to cover the creation fee.
    InsufficientCreationFee,
    /// Unauthorized action attempted.
    Unauthorized,
    /// No funds available to withdraw.
    InsufficientFundsToWithdraw,
}

/// Refusals of faucet operations.
#[derive(Clone, Copy, Debug, PartialEq, Eq)]
pub enum FaucetError {
    /// Insufficient funds in the paying account.
    InsufficientFunds,
    /// Cooldown period has not yet elapsed.
    CooldownNotElapsed,
    /// Unauthorized action attempted.
    Unauthorized,
    /// The provided treasury holding account does not match the faucet
    /// configuration.
    InvalidTreasuryAta,
    /// The provided decimals exceed the maximum allowed.
    ExceedsMaxDecimals,
}

/// Conditions enforced by the host ledger and the asset program rather than
/// by a facility's own rules.
#[derive(Clone, Copy, Debug, PartialEq, Eq)]
pub enum LedgerError {
    /// A record addressed by this label already exists.
    AlreadyInitialized,
    /// The facility's control record has not been created yet.
    NotInitialized,
    /// A supplied account does not match its re-derived expected address, or
    /// does not carry the expected mint or owner.
    AccountMismatch,
    /// No viable derived address exists for the requested seeds.
    DerivationFailed,
    /// The presented authority does not control the asset.
    InvalidAuthority,
    /// A balance would overflow its 64-bit representation.
    ArithmeticOverflow,
    /// A native balance is too small to fund the requested movement.
    InsufficientLamports,
}

/// Everything an operation of this engine can refuse a request with.
#[derive(Clone, Copy, Debug, PartialEq, Eq)]
pub enum EngineError {
    Token(TokenError),
    Factory(FactoryError),
    Faucet(FaucetError),
    Ledger(LedgerError),
}

} // verus!
