//! The engine's model of the ledger accounts an operation touches: plain
//! values for a native-balance account, an asset holding account, an asset's
//! issuance record, and a registered metadata record.

use vstd::prelude::*;

verus! {

/// A 32-byte account address.
pub type Address = [u8; 32];

/// A system-owned account: an address holding a native-value balance.
#[derive(Clone, Copy, Debug, PartialEq, Eq)]
pub struct NativeAccount {
    pub addr: Address,
    pub lamports: u64,
}

/// An asset holding account: its own address, the asset it holds, the
/// authority that may spend from it, and its balance in asset units.
#[derive(Clone, Copy, Debug, PartialEq, Eq)]
pub struct TokenAccount {
    pub addr: Address,
    pub mint: Address,
    pub owner: Address,
    pub amount: u64,
}

/// An asset's issuance record: decimal precision, total supply, and the
/// authorities allowed to mint further units or freeze holdings.
#[derive(Clone, Copy, Debug, PartialEq, Eq)]
pub struct MintAccount {
    pub addr: Address,
    pub decimals: u8,
    pub supply: u64,
    pub mint_authority: Option<Address>,
    pub freeze_authority: Option<Address>,
}

/// The descriptive record the metadata registry keeps for an asset.
#[derive(Clone, Debug, PartialEq, Eq)]
pub struct TokenMetadata {
    pub name: String,
    pub symbol: String,
    pub uri: String,
    pub creator: Address,
}

/// Whether two 32-byte addresses are the same.
pub fn address_eq(a: &Address, b: &Address) -> (r: bool)
    ensures
        r == (a@ == b@),
        r == (*a == *b),
{
    let mut i: usize = 0;
    while i < 32
        invariant
            0 <= i <= 32,
            forall|k: int| 0 <= k < i ==> a@[k] == b@[k],
        decreases 32 - i,
    {
        if a[i] != b[i] {
            return false;
        }
        i = i + 1;
    }
    proof {
        assert(a@ =~= b@);
        assert(*a =~= *b);
    }
    true
}

/// Whether `ata` is recorded as a holding account of asset `mint` whose
/// spending authority is `owner`.
pub open spec fn ata_ok(ata: TokenAccount, mint: Address, owner: Address) -> bool {
    ata.mint == mint && ata.owner == owner
}

/// Checks the recorded asset and owner of a holding account.
pub fn check_ata(ata: &TokenAccount, mint: &Address, owner: &Address) -> (r: bool)
    ensures
        r == ata_ok(*ata, *mint, *owner),
{
    address_eq(&ata.mint, mint) && address_eq(&ata.owner, owner)
}

/// Whether `auth` names exactly `who`.
pub fn is_authority(auth: &Option<Address>, who: &Address) -> (r: bool)
    ensures
        r == (*auth == Some(*who)),
{
    match auth {
        Some(a) => address_eq(a, who),
        None => false,
    }
}

} // verus!
