//! The persistent records of the two facilities: the factory's and the
//! faucet's control records and the faucet's per-caller record, with the
//! exact size of each record's fixed encoding.

use vstd::prelude::*;

verus! {

use crate::accounts::Address;
use crate::constants::DISCRIMINATOR;

/// The factory's control record: administrator, paused flag, creation fee,
/// the treasury custody account it controls, and the two bump proofs that
/// re-derive its own address and the treasury's address.
#[derive(Clone, Copy, Debug, PartialEq, Eq)]
pub struct FactoryConfig {
    pub admin: Address,
    pub paused: bool,
    pub treasury_account: Address,
    pub bump: u8,
    pub treasury_bump: u8,
    pub creation_fee_lamports: u64,
}

impl FactoryConfig {
    /// Exact size of this record's fixed encoding: the tag, two addresses,
    /// the paused flag, the two bump proofs, and the fee.
    pub fn required_space() -> (n: usize)
        ensures
            n == DISCRIMINATOR + 32 + 1 + 32 + 1 + 1 + 8,
    {
        DISCRIMINATOR + 32 + 1 + 32 + 1 + 1 + 8
    }
}

/// The faucet's control record: owner, the asset it dispenses, the
/// asset-holding custody account, the allowance per claim, the cooldown, and
/// the bump proof that re-derives its own address.
#[derive(Clone, Copy, Debug, PartialEq, Eq)]
pub struct FaucetConfig {
    pub owner: Address,
    pub mint: Address,
    pub allowed_claim_amount: u64,
    pub treasury_ata: Address,
    pub cooldown_seconds: u64,
    pub bump: u8,
}

impl FaucetConfig {
    /// Exact size of this record's fixed encoding: the tag, three addresses,
    /// the allowance, the cooldown, and the bump proof.
    pub fn required_space() -> (n: usize)
        ensures
            n == DISCRIMINATOR + 32 + 32 + 8 + 32 + 8 + 1,
    {
        DISCRIMINATOR + 32 + 32 + 8 + 32 + 8 + 1
    }
}

/// A caller's claim history: the time of the last successful claim, with 0
/// as the sentinel for a caller that has never claimed.
#[derive(Clone, Copy, Debug, PartialEq, Eq)]
pub struct FaucetRecipientData {
    pub last_claimed_at: i64,
}

impl FaucetRecipientData {
    /// A well-formed record never holds a time before the epoch: it is
    /// either the never-claimed sentinel 0 or the clock reading of a past
    /// successful claim.
    pub open spec fn wf(self) -> bool {
        self.last_claimed_at >= 0
    }

    /// Exact size of this record's fixed encoding: the tag and the
    /// timestamp.
    pub fn required_space() -> (n: usize)
        ensures
            n == DISCRIMINATOR + 8,
    {
        DISCRIMINATOR + 8
    }
}

} // verus!
