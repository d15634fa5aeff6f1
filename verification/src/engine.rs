//! The engine: one registry holding the two facilities, their custody
//! accounts and the faucet's per-caller arena, with one method per exposed
//! operation.
//!
//! The registry enforces what the host ledger would: a control record is
//! created at most once per label ("create if absent, else fail"), a
//! per-caller record is created lazily on a caller's first claim and never
//! evicted, and every operation hands its facility's records to the
//! operation logic together with the accounts the caller supplied.

use vstd::prelude::*;

verus! {

use crate::accounts::{Address, MintAccount, NativeAccount, TokenAccount, TokenMetadata,
    address_eq, ata_ok};
use crate::constants::{
    factory_config_label,
    factory_config_seed,
    factory_treasury_label,
    factory_treasury_seed,
    faucet_config_label,
    faucet_config_seed,
    faucet_recipient_label,
    faucet_recipient_seed,
};
use crate::derivation::{canonical_address_matches, find_caller_address, find_labeled_address,
    pda_of};
use crate::errors::{EngineError, LedgerError};
use crate::factory;
use crate::factory::{factory_config_addr_ok, factory_treasury_addr_ok, withdraw_fees_ok,
    withdrawable};
use crate::faucet;
use crate::faucet::{cooldown_ok, deposit_ok, faucet_config_addr_ok, recipient_addr_ok,
    withdraw_ok};
use crate::states::{FactoryConfig, FaucetConfig, FaucetRecipientData};
use crate::token;
use crate::token::create_token_ok;

/// One caller's entry in the faucet's per-caller arena: the caller, the
/// derived address of the caller's record, and the record itself.
#[derive(Clone, Copy, Debug, PartialEq, Eq)]
pub struct RecipientSlot {
    pub caller: Address,
    pub addr: Address,
    pub data: FaucetRecipientData,
}

/// The factory facility: its control record at its derived address, and
/// the treasury custody account the record controls.
#[derive(Clone, Copy, Debug, PartialEq, Eq)]
pub struct FactoryFacility {
    pub config: FactoryConfig,
    pub config_addr: Address,
    pub treasury: NativeAccount,
}

impl FactoryFacility {
    /// The facility's records agree with their derivations: the control
    /// record and the treasury re-derive from their labels and stored bump
    /// proofs, the treasury sits at its canonical address, and the record
    /// names exactly that treasury.
    pub open spec fn wf(self, program_id: Address) -> bool {
        &&& factory_config_addr_ok(self.config, self.config_addr, program_id)
        &&& canonical_address_matches(
            seq![factory_treasury_label()],
            program_id@,
            self.treasury.addr@,
        )
        &&& factory_treasury_addr_ok(self.config, self.treasury.addr, program_id)
    }
}

/// The faucet facility: its control record at its derived address, the
/// asset reserve it controls, and the per-caller arena.
#[derive(Clone, Debug, PartialEq, Eq)]
pub struct FaucetFacility {
    pub config: FaucetConfig,
    pub config_addr: Address,
    pub treasury: TokenAccount,
    pub recipients: Vec<RecipientSlot>,
}

/// The first entry of `slots` recorded for `caller`, if any.
pub open spec fn find_recipient(slots: Seq<RecipientSlot>, caller: Address) -> Option<int>
    decreases slots.len(),
{
    if slots.len() == 0 {
        None
    } else if slots[0].caller == caller {
        Some(0int)
    } else {
        match find_recipient(slots.drop_first(), caller) {
            Some(i) => Some(i + 1),
            None => None,
        }
    }
}

/// What `find_recipient` returns: the first index recorded for `caller`,
/// or `None` where no entry is.
pub proof fn lemma_find_recipient_spec(slots: Seq<RecipientSlot>, caller: Address)
    ensures
        match find_recipient(slots, caller) {
            Some(i) => 0 <= i < slots.len() && slots[i].caller == caller && forall|j: int|
                0 <= j < i ==> (#[trigger] slots[j]).caller != caller,
            None => forall|j: int|
                0 <= j < slots.len() ==> (#[trigger] slots[j]).caller != caller,
        },
    decreases slots.len(),
{
    if slots.len() > 0 && slots[0].caller != caller {
        let rest = slots.drop_first();
        lemma_find_recipient_spec(rest, caller);
        if find_recipient(rest, caller) is Some {
            let i = find_recipient(rest, caller).unwrap();
            assert(rest[i] == slots[i + 1]);
            assert forall|j: int| 0 <= j < i + 1 implies (#[trigger] slots[j]).caller != caller by {
                if j > 0 {
                    assert(rest[j - 1] == slots[j]);
                }
            }
        } else {
            assert forall|j: int| 0 <= j < slots.len() implies (#[trigger] slots[j]).caller
                != caller by {
                if j > 0 {
                    assert(rest[j - 1] == slots[j]);
                }
            }
        }
    }
}

/// Finds the caller's entry in the arena, as `find_recipient` describes it.
fn find_recipient_index(slots: &Vec<RecipientSlot>, caller: &Address) -> (r: Option<usize>)
    ensures
        match r {
            Some(k) => k < slots@.len() && find_recipient(slots@, *caller) == Some(k as int),
            None => find_recipient(slots@, *caller) is None,
        },
{
    let n = slots.len();
    let mut k: usize = 0;
    while k < n
        invariant
            n == slots@.len(),
            k <= n,
            forall|j: int| 0 <= j < k ==> (#[trigger] slots@[j]).caller != *caller,
        decreases n - k,
    {
        if address_eq(&slots[k].caller, caller) {
            proof {
                lemma_find_recipient_spec(slots@, *caller);
            }
            return Some(k);
        }
        k = k + 1;
    }
    proof {
        lemma_find_recipient_spec(slots@, *caller);
    }
    None
}

/// The claim time the arena records for `caller`: the entry's time where
/// one exists, else the never-claimed sentinel.
pub open spec fn recipient_last(slots: Seq<RecipientSlot>, caller: Address) -> i64 {
    match find_recipient(slots, caller) {
        Some(i) => slots[i].data.last_claimed_at,
        None => 0,
    }
}

/// Whether a claim by `caller` can reach or lazily create the caller's
/// record: an existing entry serves as is; a fresh caller needs a viable
/// derivation for the new record's address.
pub open spec fn recipient_record_available(
    slots: Seq<RecipientSlot>,
    caller: Address,
    program_id: Address,
) -> bool {
    match find_recipient(slots, caller) {
        Some(_) => true,
        None => pda_of(seq![faucet_recipient_label(), caller@], program_id@) is Some,
    }
}

impl FaucetFacility {
    /// The facility's records agree with their derivations and with each
    /// other: the control record re-derives from its label and stored bump
    /// proof, the reserve is a holding account of the configured asset
    /// owned by the control record and named by it, and every arena entry
    /// is well-formed, sits at its caller's derived address, and no caller
    /// is recorded twice.
    pub open spec fn wf(self, program_id: Address) -> bool {
        &&& faucet_config_addr_ok(self.config, self.config_addr, program_id)
        &&& ata_ok(self.treasury, self.config.mint, self.config_addr)
        &&& self.treasury.addr == self.config.treasury_ata
        &&& forall|i: int|
            0 <= i < self.recipients@.len() ==> (#[trigger] self.recipients@[i]).data.wf()
        &&& forall|i: int|
            0 <= i < self.recipients@.len() ==> recipient_addr_ok(
                (#[trigger] self.recipients@[i]).addr,
                self.recipients@[i].caller,
                program_id,
            )
        &&& forall|i: int, j: int|
            0 <= i < j < self.recipients@.len() ==> (#[trigger] self.recipients@[i]).caller != (
            #[trigger] self.recipients@[j]).caller
    }
}

/// The engine: the program's identity and the two facilities, each absent
/// until its initialization creates it.
#[derive(Clone, Debug, PartialEq, Eq)]
pub struct Engine {
    pub program_id: Address,
    pub factory: Option<FactoryFacility>,
    pub faucet: Option<FaucetFacility>,
}

impl Engine {
    /// Every facility that exists is well-formed.
    pub open spec fn wf(self) -> bool {
        &&& match self.factory {
            Some(f) => f.wf(self.program_id),
            None => true,
        }
        &&& match self.faucet {
            Some(f) => f.wf(self.program_id),
            None => true,
        }
    }

    /// A fresh engine: no facility exists yet.
    pub fn new(program_id: &Address) -> (e: Engine)
        ensures
            e == (Engine { program_id: *program_id, factory: None, faucet: None }),
            e.wf(),
    {
        Engine { program_id: *program_id, factory: None, faucet: None }
    }

    /// Creates the factory exactly once: fails if its control record
    /// already exists; derives the record's and the treasury's canonical
    /// addresses from their labels; funds the fresh treasury with the
    /// minimum balance the ledger demands of it, paid by the caller; and
    /// records the caller as administrator, unpaused, with the given fee.
    pub fn initialize_factory(
        &mut self,
        admin: &mut NativeAccount,
        creation_fee_lamports: u64,
        treasury_rent_minimum: u64,
    ) -> (r: Result<(), EngineError>)
        requires
            old(self).wf(),
        ensures
            final(self).wf(),
            r is Ok <==> old(self).factory is None && pda_of(
                seq![factory_config_label()],
                old(self).program_id@,
            ) is Some && pda_of(seq![factory_treasury_label()], old(self).program_id@) is Some
                && old(admin).lamports >= treasury_rent_minimum,
            r is Ok ==> final(self).factory is Some && {
                let f = final(self).factory.unwrap();
                &&& f.config.admin == old(admin).addr
                &&& f.config.paused == false
                &&& f.config.creation_fee_lamports == creation_fee_lamports
                &&& f.config.treasury_account == f.treasury.addr
                &&& pda_of(seq![factory_config_label()], old(self).program_id@) == Some(
                    (f.config_addr@, f.config.bump),
                )
                &&& pda_of(seq![factory_treasury_label()], old(self).program_id@) == Some(
                    (f.treasury.addr@, f.config.treasury_bump),
                )
                &&& f.treasury.lamports == treasury_rent_minimum
            },
            r is Ok ==> *final(admin) == (NativeAccount {
                lamports: (old(admin).lamports - treasury_rent_minimum) as u64,
                ..*old(admin)
            }),
            final(self).program_id == old(self).program_id,
            final(self).faucet == old(self).faucet,
            r is Err ==> *final(self) == *old(self) && *final(admin) == *old(admin),
            old(self).factory is Some ==> r == Err::<(), EngineError>(
                EngineError::Ledger(LedgerError::AlreadyInitialized),
            ),
    {
        if self.factory.is_some() {
            return Err(EngineError::Ledger(LedgerError::AlreadyInitialized));
        }
        let pid = self.program_id;
        let config_derivation = find_labeled_address(factory_config_seed(), &pid);
        let (config_addr, bump) = match config_derivation {
            Some(p) => p,
            None => {
                return Err(EngineError::Ledger(LedgerError::DerivationFailed));
            },
        };
        let treasury_derivation = find_labeled_address(factory_treasury_seed(), &pid);
        let (treasury_addr, treasury_bump) = match treasury_derivation {
            Some(p) => p,
            None => {
                return Err(EngineError::Ledger(LedgerError::DerivationFailed));
            },
        };
        if admin.lamports < treasury_rent_minimum {
            return Err(EngineError::Ledger(LedgerError::InsufficientLamports));
        }
        admin.lamports = admin.lamports - treasury_rent_minimum;
        let config = factory::initialize_factory(
            &admin.addr,
            &treasury_addr,
            bump,
            treasury_bump,
            creation_fee_lamports,
        );
        self.factory = Some(
            FactoryFacility {
                config,
                config_addr,
                treasury: NativeAccount { addr: treasury_addr, lamports: treasury_rent_minimum },
            },
        );
        Ok(())
    }

    /// Replaces the creation fee; admin-only, unconditional otherwise.
    pub fn update_creation_fee(&mut self, admin: &Address, creation_fee_lamports: u64) -> (r:
        Result<(), EngineError>)
        requires
            old(self).wf(),
        ensures
            final(self).wf(),
            r is Ok <==> old(self).factory is Some && old(self).factory.unwrap().config.admin
                == *admin,
            r is Ok ==> final(self).factory is Some && final(self).factory.unwrap()
                == (FactoryFacility {
                config: FactoryConfig {
                    creation_fee_lamports,
                    ..old(self).factory.unwrap().config
                },
                ..old(self).factory.unwrap()
            }),
            r is Err ==> *final(self) == *old(self),
            final(self).program_id == old(self).program_id,
            final(self).faucet == old(self).faucet,
            old(self).factory is None ==> r == Err::<(), EngineError>(
                EngineError::Ledger(LedgerError::NotInitialized),
            ),
            old(self).factory is Some && old(self).factory.unwrap().config.admin != *admin ==> r
                == Err::<(), EngineError>(EngineError::Factory(
                crate::errors::FactoryError::Unauthorized,
            )),
    {
        let pid = self.program_id;
        match &mut self.factory {
            None => Err(EngineError::Ledger(LedgerError::NotInitialized)),
            Some(fac) => {
                let config_addr = fac.config_addr;
                factory::update_creation_fee(
                    &mut fac.config,
                    &config_addr,
                    admin,
                    &pid,
                    creation_fee_lamports,
                )
            },
        }
    }

    /// Pauses asset creation; admin-only, idempotent.
    pub fn pause_factory(&mut self, admin: &Address) -> (r: Result<(), EngineError>)
        requires
            old(self).wf(),
        ensures
            final(self).wf(),
            r is Ok <==> old(self).factory is Some && old(self).factory.unwrap().config.admin
                == *admin,
            r is Ok ==> final(self).factory is Some && final(self).factory.unwrap()
                == (FactoryFacility {
                config: FactoryConfig { paused: true, ..old(self).factory.unwrap().config },
                ..old(self).factory.unwrap()
            }),
            r is Err ==> *final(self) == *old(self),
            final(self).program_id == old(self).program_id,
            final(self).faucet == old(self).faucet,
            old(self).factory is None ==> r == Err::<(), EngineError>(
                EngineError::Ledger(LedgerError::NotInitialized),
            ),
    {
        let pid = self.program_id;
        match &mut self.factory {
            None => Err(EngineError::Ledger(LedgerError::NotInitialized)),
            Some(fac) => {
                let config_addr = fac.config_addr;
                factory::pause_factory(&mut fac.config, &config_addr, admin, &pid)
            },
        }
    }

    /// Unpauses asset creation; admin-only, idempotent.
    pub fn unpause_factory(&mut self, admin: &Address) -> (r: Result<(), EngineError>)
        requires
            old(self).wf(),
        ensures
            final(self).wf(),
            r is Ok <==> old(self).factory is Some && old(self).factory.unwrap().config.admin
                == *admin,
            r is Ok ==> final(self).factory is Some && final(self).factory.unwrap()
                == (FactoryFacility {
                config: FactoryConfig { paused: false, ..old(self).factory.unwrap().config },
                ..old(self).factory.unwrap()
            }),
            r is Err ==> *final(self) == *old(self),
            final(self).program_id == old(self).program_id,
            final(self).faucet == old(self).faucet,
            old(self).factory is None ==> r == Err::<(), EngineError>(
                EngineError::Ledger(LedgerError::NotInitialized),
            ),
    {
        let pid = self.program_id;
        match &mut self.factory {
            None => Err(EngineError::Ledger(LedgerError::NotInitialized)),
            Some(fac) => {
                let config_addr = fac.config_addr;
                factory::unpause_factory(&mut fac.config, &config_addr, admin, &pid)
            },
        }
    }

    /// Moves the treasury's surplus above the ledger's minimum-balance
    /// requirement to the administrator; zero surplus is a successful
    /// no-op. Admin-only.
    pub fn withdraw_fees(&mut self, admin: &mut NativeAccount, rent_exempt_minimum: u64) -> (r:
        Result<(), EngineError>)
        requires
            old(self).wf(),
        ensures
            final(self).wf(),
            r is Ok <==> old(self).factory is Some && withdraw_fees_ok(
                old(self).factory.unwrap().config,
                old(self).factory.unwrap().config_addr,
                old(self).factory.unwrap().treasury,
                *old(admin),
                old(self).program_id,
                rent_exempt_minimum,
            ),
            r is Ok ==> final(self).factory is Some && final(self).factory.unwrap()
                == (FactoryFacility {
                treasury: NativeAccount {
                    lamports: (old(self).factory.unwrap().treasury.lamports - withdrawable(
                        old(self).factory.unwrap().treasury.lamports,
                        rent_exempt_minimum,
                    )) as u64,
                    ..old(self).factory.unwrap().treasury
                },
                ..old(self).factory.unwrap()
            }),
            r is Ok ==> *final(admin) == (NativeAccount {
                lamports: (old(admin).lamports + withdrawable(
                    old(self).factory.unwrap().treasury.lamports,
                    rent_exempt_minimum,
                )) as u64,
                ..*old(admin)
            }),
            r is Err ==> *final(self) == *old(self) && *final(admin) == *old(admin),
            final(self).program_id == old(self).program_id,
            final(self).faucet == old(self).faucet,
            old(self).factory is None ==> r == Err::<(), EngineError>(
                EngineError::Ledger(LedgerError::NotInitialized),
            ),
    {
        let pid = self.program_id;
        match &mut self.factory {
            None => Err(EngineError::Ledger(LedgerError::NotInitialized)),
            Some(fac) => {
                let config = fac.config;
                let config_addr = fac.config_addr;
                factory::withdraw_fees(
                    &config,
                    &config_addr,
                    &mut fac.treasury,
                    admin,
                    &pid,
                    rent_exempt_minimum,
                )
            },
        }
    }

    /// Creates a new asset under the factory's rules: refused while the
    /// factory is paused or where an input exceeds its ceiling; mints the
    /// initial supply to the caller, registers the metadata, and collects
    /// the creation fee into the factory's treasury.
    pub fn create_token(
        &mut self,
        mint: &mut MintAccount,
        payer_ata: &mut TokenAccount,
        payer: &mut NativeAccount,
        metadata: &mut Option<TokenMetadata>,
        metadata_addr: &Address,
        metadata_program: &Address,
        name: String,
        symbol: String,
        uri: String,
        decimals: u8,
        supply: u64,
    ) -> (r: Result<(), EngineError>)
        requires
            old(self).wf(),
        ensures
            final(self).wf(),
            r is Ok <==> old(self).factory is Some && create_token_ok(
                old(self).factory.unwrap().config,
                old(self).factory.unwrap().config_addr,
                old(self).factory.unwrap().treasury,
                *old(mint),
                *old(payer_ata),
                *old(payer),
                *old(metadata),
                *metadata_addr,
                *metadata_program,
                old(self).program_id,
                name@,
                symbol@,
                uri@,
                decimals,
                supply,
            ),
            r is Ok ==> final(self).factory is Some && final(self).factory.unwrap()
                == (FactoryFacility {
                treasury: NativeAccount {
                    lamports: (old(self).factory.unwrap().treasury.lamports + old(
                        self,
                    ).factory.unwrap().config.creation_fee_lamports) as u64,
                    ..old(self).factory.unwrap().treasury
                },
                ..old(self).factory.unwrap()
            }),
            r is Ok ==> *final(mint) == (MintAccount { supply, ..*old(mint) }),
            r is Ok ==> *final(payer_ata) == (TokenAccount {
                amount: (old(payer_ata).amount + supply) as u64,
                ..*old(payer_ata)
            }),
            r is Ok ==> *final(metadata) == Some(
                (TokenMetadata { name, symbol, uri, creator: old(payer).addr }),
            ),
            r is Ok ==> *final(payer) == (NativeAccount {
                lamports: (old(payer).lamports - old(
                    self,
                ).factory.unwrap().config.creation_fee_lamports) as u64,
                ..*old(payer)
            }),
            r is Err ==> *final(self) == *old(self) && *final(mint) == *old(mint)
                && *final(payer_ata) == *old(payer_ata) && *final(payer) == *old(payer)
                && *final(metadata) == *old(metadata),
            final(self).program_id == old(self).program_id,
            final(self).faucet == old(self).faucet,
            old(self).factory is None ==> r == Err::<(), EngineError>(
                EngineError::Ledger(LedgerError::NotInitialized),
            ),
            old(self).factory is Some && old(self).factory.unwrap().config.paused ==> r == Err::<
                (),
                EngineError,
            >(EngineError::Factory(crate::errors::FactoryError::FactoryPaused)),
    {
        let pid = self.program_id;
        match &mut self.factory {
            None => Err(EngineError::Ledger(LedgerError::NotInitialized)),
            Some(fac) => {
                let config = fac.config;
                let config_addr = fac.config_addr;
                token::create_token(
                    &config,
                    &config_addr,
                    &mut fac.treasury,
                    mint,
                    payer_ata,
                    payer,
                    metadata,
                    metadata_addr,
                    metadata_program,
                    &pid,
                    name,
                    symbol,
                    uri,
                    decimals,
                    supply,
                )
            },
        }
    }

    /// Creates the faucet exactly once: fails if its control record
    /// already exists; derives the record's canonical address from its
    /// label; refuses an asset whose precision exceeds the ceiling; and
    /// opens an empty reserve for the chosen asset, owned by the record.
    pub fn initialize_faucet(
        &mut self,
        owner: &Address,
        mint: &MintAccount,
        treasury_ata_addr: &Address,
    ) -> (r: Result<(), EngineError>)
        requires
            old(self).wf(),
        ensures
            final(self).wf(),
            r is Ok <==> old(self).faucet is None && pda_of(
                seq![faucet_config_label()],
                old(self).program_id@,
            ) is Some && mint.decimals <= crate::constants::MAX_DECIMALS,
            r is Ok ==> final(self).faucet is Some && {
                let f = final(self).faucet.unwrap();
                &&& f.config.owner == *owner
                &&& f.config.mint == mint.addr
                &&& f.config.allowed_claim_amount == crate::faucet::default_claim_amount(
                    mint.decimals,
                )
                &&& f.config.treasury_ata == *treasury_ata_addr
                &&& f.config.cooldown_seconds == crate::constants::DEFAULT_COOLDOWN_SECONDS
                &&& pda_of(seq![faucet_config_label()], old(self).program_id@) == Some(
                    (f.config_addr@, f.config.bump),
                )
                &&& f.treasury == (TokenAccount {
                    addr: *treasury_ata_addr,
                    mint: mint.addr,
                    owner: f.config_addr,
                    amount: 0,
                })
                &&& f.recipients@ =~= Seq::<RecipientSlot>::empty()
            },
            final(self).program_id == old(self).program_id,
            final(self).factory == old(self).factory,
            r is Err ==> *final(self) == *old(self),
            old(self).faucet is Some ==> r == Err::<(), EngineError>(
                EngineError::Ledger(LedgerError::AlreadyInitialized),
            ),
    {
        if self.faucet.is_some() {
            return Err(EngineError::Ledger(LedgerError::AlreadyInitialized));
        }
        let pid = self.program_id;
        let config_derivation = find_labeled_address(faucet_config_seed(), &pid);
        let (config_addr, bump) = match config_derivation {
            Some(p) => p,
            None => {
                return Err(EngineError::Ledger(LedgerError::DerivationFailed));
            },
        };
        let config = match faucet::initialize(owner, mint, treasury_ata_addr, bump) {
            Ok(c) => c,
            Err(e) => {
                return Err(e);
            },
        };
        proof {
            crate::faucet::lemma_pow10_le(mint.decimals as nat, 9nat);
            reveal_with_fuel(crate::faucet::pow10, 11);
        }
        let treasury = TokenAccount {
            addr: *treasury_ata_addr,
            mint: mint.addr,
            owner: config_addr,
            amount: 0,
        };
        self.faucet = Some(
            FaucetFacility { config, config_addr, treasury, recipients: Vec::new() },
        );
        Ok(())
    }

    /// Tops the reserve up from the caller's holding account; anyone may
    /// deposit.
    pub fn deposit_to_faucet(
        &mut self,
        depositor_ata: &mut TokenAccount,
        depositor: &Address,
        amount: u64,
    ) -> (r: Result<(), EngineError>)
        requires
            old(self).wf(),
        ensures
            final(self).wf(),
            r is Ok <==> old(self).faucet is Some && deposit_ok(
                old(self).faucet.unwrap().config,
                old(self).faucet.unwrap().config_addr,
                old(self).faucet.unwrap().treasury,
                *old(depositor_ata),
                *depositor,
                old(self).program_id,
                amount,
            ),
            r is Ok ==> final(self).faucet is Some && final(self).faucet.unwrap()
                == (FaucetFacility {
                treasury: TokenAccount {
                    amount: (old(self).faucet.unwrap().treasury.amount + amount) as u64,
                    ..old(self).faucet.unwrap().treasury
                },
                ..old(self).faucet.unwrap()
            }),
            r is Ok ==> *final(depositor_ata) == (TokenAccount {
                amount: (old(depositor_ata).amount - amount) as u64,
                ..*old(depositor_ata)
            }),
            r is Err ==> *final(self) == *old(self) && *final(depositor_ata) == *old(
                depositor_ata,
            ),
            final(self).program_id == old(self).program_id,
            final(self).factory == old(self).factory,
            old(self).faucet is None ==> r == Err::<(), EngineError>(
                EngineError::Ledger(LedgerError::NotInitialized),
            ),
    {
        let pid = self.program_id;
        match &mut self.faucet {
            None => Err(EngineError::Ledger(LedgerError::NotInitialized)),
            Some(fac) => {
                let config = fac.config;
                let config_addr = fac.config_addr;
                faucet::deposit(
                    &config,
                    &config_addr,
                    &mut fac.treasury,
                    depositor_ata,
                    depositor,
                    &pid,
                    amount,
                )
            },
        }
    }

    /// Moves `amount` out of the reserve to the owner; owner-only.
    pub fn withdraw_from_faucet(
        &mut self,
        recipient_ata: &mut TokenAccount,
        recipient: &Address,
        amount: u64,
    ) -> (r: Result<(), EngineError>)
        requires
            old(self).wf(),
        ensures
            final(self).wf(),
            r is Ok <==> old(self).faucet is Some && withdraw_ok(
                old(self).faucet.unwrap().config,
                old(self).faucet.unwrap().config_addr,
                old(self).faucet.unwrap().treasury,
                *old(recipient_ata),
                *recipient,
                old(self).program_id,
                amount,
            ),
            r is Ok ==> final(self).faucet is Some && final(self).faucet.unwrap()
                == (FaucetFacility {
                treasury: TokenAccount {
                    amount: (old(self).faucet.unwrap().treasury.amount - amount) as u64,
                    ..old(self).faucet.unwrap().treasury
                },
                ..old(self).faucet.unwrap()
            }),
            r is Ok ==> *final(recipient_ata) == (TokenAccount {
                amount: (old(recipient_ata).amount + amount) as u64,
                ..*old(recipient_ata)
            }),
            r is Err ==> *final(self) == *old(self) && *final(recipient_ata) == *old(
                recipient_ata,
            ),
            final(self).program_id == old(self).program_id,
            final(self).factory == old(self).factory,
            old(self).faucet is None ==> r == Err::<(), EngineError>(
                EngineError::Ledger(LedgerError::NotInitialized),
            ),
            old(self).faucet is Some && *recipient != old(self).faucet.unwrap().config.owner ==> r
                == Err::<(), EngineError>(EngineError::Faucet(
                crate::errors::FaucetError::Unauthorized,
            )),
    {
        let pid = self.program_id;
        match &mut self.faucet {
            None => Err(EngineError::Ledger(LedgerError::NotInitialized)),
            Some(fac) => {
                let config = fac.config;
                let config_addr = fac.config_addr;
                faucet::withdraw(
                    &config,
                    &config_addr,
                    &mut fac.treasury,
                    recipient_ata,
                    recipient,
                    &pid,
                    amount,
                )
            },
        }
    }

    /// Pays the fixed allowance from the reserve to the caller, gated by
    /// the per-caller cooldown; the caller's record is looked up in the
    /// arena, or lazily created at its derived address on a fresh caller's
    /// first claim. A failed claim leaves the arena exactly as it was: a
    /// record is neither created nor updated unless the transfer went
    /// through.
    pub fn claim_from_faucet(
        &mut self,
        recipient_ata: &mut TokenAccount,
        recipient: &Address,
        now: i64,
    ) -> (r: Result<(), EngineError>)
        requires
            old(self).wf(),
            now >= 0,
        ensures
            final(self).wf(),
            r is Ok <==> old(self).faucet is Some && {
                let f = old(self).faucet.unwrap();
                &&& recipient_record_available(f.recipients@, *recipient, old(self).program_id)
                &&& ata_ok(*old(recipient_ata), f.config.mint, *recipient)
                &&& f.treasury.amount >= f.config.allowed_claim_amount
                &&& cooldown_ok(
                    recipient_last(f.recipients@, *recipient),
                    f.config.cooldown_seconds,
                    now,
                )
                &&& old(recipient_ata).amount + f.config.allowed_claim_amount <= u64::MAX
            },
            r is Ok ==> final(self).faucet is Some && {
                let f = old(self).faucet.unwrap();
                let g = final(self).faucet.unwrap();
                &&& g.config == f.config
                &&& g.config_addr == f.config_addr
                &&& g.treasury == (TokenAccount {
                    amount: (f.treasury.amount - f.config.allowed_claim_amount) as u64,
                    ..f.treasury
                })
                &&& match find_recipient(f.recipients@, *recipient) {
                    Some(i) => g.recipients@ =~= f.recipients@.update(
                        i,
                        RecipientSlot {
                            data: FaucetRecipientData { last_claimed_at: now },
                            ..f.recipients@[i]
                        },
                    ),
                    None => {
                        &&& g.recipients@.len() == f.recipients@.len() + 1
                        &&& g.recipients@.subrange(0, f.recipients@.len() as int)
                            =~= f.recipients@
                        &&& g.recipients@.last().caller == *recipient
                        &&& g.recipients@.last().data == (FaucetRecipientData {
                            last_claimed_at: now,
                        })
                        &&& recipient_addr_ok(
                            g.recipients@.last().addr,
                            *recipient,
                            old(self).program_id,
                        )
                    },
                }
            },
            r is Ok ==> *final(recipient_ata) == (TokenAccount {
                amount: (old(recipient_ata).amount + old(
                    self,
                ).faucet.unwrap().config.allowed_claim_amount) as u64,
                ..*old(recipient_ata)
            }),
            r is Err ==> *final(self) == *old(self) && *final(recipient_ata) == *old(
                recipient_ata,
            ),
            final(self).program_id == old(self).program_id,
            final(self).factory == old(self).factory,
            old(self).faucet is None ==> r == Err::<(), EngineError>(
                EngineError::Ledger(LedgerError::NotInitialized),
            ),
            old(self).faucet is Some && {
                let f = old(self).faucet.unwrap();
                &&& recipient_record_available(f.recipients@, *recipient, old(self).program_id)
                &&& ata_ok(*old(recipient_ata), f.config.mint, *recipient)
                &&& f.treasury.amount < f.config.allowed_claim_amount
            } ==> r == Err::<(), EngineError>(EngineError::Faucet(
                crate::errors::FaucetError::InsufficientFunds,
            )),
            old(self).faucet is Some && {
                let f = old(self).faucet.unwrap();
                &&& recipient_record_available(f.recipients@, *recipient, old(self).program_id)
                &&& ata_ok(*old(recipient_ata), f.config.mint, *recipient)
                &&& f.treasury.amount >= f.config.allowed_claim_amount
                &&& !cooldown_ok(
                    recipient_last(f.recipients@, *recipient),
                    f.config.cooldown_seconds,
                    now,
                )
            } ==> r == Err::<(), EngineError>(EngineError::Faucet(
                crate::errors::FaucetError::CooldownNotElapsed,
            )),
    {
        let pid = self.program_id;
        match &mut self.faucet {
            None => Err(EngineError::Ledger(LedgerError::NotInitialized)),
            Some(fac) => {
                let config = fac.config;
                let config_addr = fac.config_addr;
                match find_recipient_index(&fac.recipients, recipient) {
                    Some(idx) => {
                        proof {
                            lemma_find_recipient_spec(fac.recipients@, *recipient);
                        }
                        let rec_addr = fac.recipients[idx].addr;
                        let mut rec = fac.recipients[idx].data;
                        let r = faucet::claim(
                            &config,
                            &config_addr,
                            &mut rec,
                            &rec_addr,
                            &mut fac.treasury,
                            recipient_ata,
                            recipient,
                            &pid,
                            now,
                        );
                        match r {
                            Ok(u) => {
                                let slot = &mut fac.recipients[idx];
                                slot.data = rec;
                                Ok(u)
                            },
                            Err(e) => Err(e),
                        }
                    },
                    None => {
                        let rec_addr = match find_caller_address(
                            faucet_recipient_seed(),
                            recipient,
                            &pid,
                        ) {
                            Some(p) => p.0,
                            None => {
                                return Err(EngineError::Ledger(LedgerError::DerivationFailed));
                            },
                        };
                        let mut rec = FaucetRecipientData { last_claimed_at: 0 };
                        let r = faucet::claim(
                            &config,
                            &config_addr,
                            &mut rec,
                            &rec_addr,
                            &mut fac.treasury,
                            recipient_ata,
                            recipient,
                            &pid,
                            now,
                        );
                        match r {
                            Ok(u) => {
                                proof {
                                    lemma_find_recipient_spec(fac.recipients@, *recipient);
                                }
                                fac.recipients.push(
                                    RecipientSlot { caller: *recipient, addr: rec_addr, data: rec },
                                );
                                Ok(u)
                            },
                            Err(e) => Err(e),
                        }
                    },
                }
            },
        }
    }
}

} // verus!
