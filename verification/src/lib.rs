//! An on-ledger authority-and-custody engine for two cooperating facilities:
//! a token factory that charges a fee to mint new fungible assets and keeps
//! the collected fees in a treasury it alone controls, and a faucet that
//! dispenses a fixed allowance of one asset to callers subject to a cooldown,
//! backed by a deposit/withdraw-controlled reserve.
//!
//! Control accounts are addressed deterministically: every address is derived
//! from a fixed label (plus, for per-caller records, the caller's identity),
//! and each operation re-derives the expected address from the label and the
//! stored bump proof before it touches an account. Funds leave a custody
//! account only when the controlling record's derivation is presented as the
//! signing credential for that one transfer.

pub mod accounts;
pub mod constants;
pub mod derivation;
pub mod engine;
pub mod factory;
pub mod faucet;
pub mod states;
pub mod token;
pub mod errors;
