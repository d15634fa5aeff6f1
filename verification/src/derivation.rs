//! The deterministic derivation and authority primitive.
//!
//! Every control record, custody account and per-caller record of this
//! engine is addressed by deriving a program address from a fixed label
//! (plus, for per-caller records, the caller's identity). The derivation
//! itself is the ledger's hash construction, reached here through two
//! trusted wrappers; everything the engine states about it goes through the
//! two named results `pda_of` (canonical search: address and bump proof) and
//! `raw_pda_of` (re-derivation from seeds that already carry their bump).
//!
//! Whoever can re-derive an account's address from its label and stored
//! bump proof is that account's controlling authority; the verification
//! functions below are the one door the operations go through.

use vstd::prelude::*;

use anchor_lang::prelude::Pubkey;

verus! {

use vstd::slice::slice_to_vec;

use crate::accounts::{Address, address_eq};

/// The view of a list of seed byte strings.
pub open spec fn seeds_view(seeds: Seq<Vec<u8>>) -> Seq<Seq<u8>> {
    seeds.map_values(|s: Vec<u8>| s@)
}

/// The canonical derived address and bump proof for these seeds under this
/// program, or `None` where no viable bump exists.
pub uninterp spec fn pda_of(seeds: Seq<Seq<u8>>, program_id: Seq<u8>) -> Option<(Seq<u8>, u8)>;

/// The derived address for seeds that already carry their bump proof, or
/// `None` where the seeds are refused or the derivation lands on the curve.
pub uninterp spec fn raw_pda_of(seeds: Seq<Seq<u8>>, program_id: Seq<u8>) -> Option<Seq<u8>>;

/// Relies on `Pubkey::try_find_program_address`: the canonical derived
/// address and bump proof for these seeds under this program, a pure
/// function of its arguments; and, as its source shows, an address that
/// `Pubkey::create_program_address` reproduces once the returned bump is
/// appended to the seeds.
#[verifier::external_body]
fn try_find_program_address(seeds: &Vec<Vec<u8>>, program_id: &Address) -> (r: Option<(
    Address,
    u8,
)>)
    ensures
        match r {
            Some(p) => pda_of(seeds_view(seeds@), program_id@) == Some((p.0@, p.1))
                && raw_pda_of(seeds_view(seeds@).push(seq![p.1]), program_id@) == Some(p.0@),
            None => pda_of(seeds_view(seeds@), program_id@) is None,
        },
{
    let refs: Vec<&[u8]> = seeds.iter().map(|s| s.as_slice()).collect();
    Pubkey::try_find_program_address(&refs, &Pubkey::from(*program_id))
        .map(|(pk, bump)| (pk.to_bytes(), bump))
}

/// Relies on `Pubkey::create_program_address`: the derived address for seeds
/// that already carry their bump proof, a pure function of its arguments;
/// its refusals (a seed too long, too many seeds, or a derivation that lands
/// on the curve) come back as `None`.
#[verifier::external_body]
fn create_program_address(seeds: &Vec<Vec<u8>>, program_id: &Address) -> (r: Option<Address>)
    ensures
        match r {
            Some(a) => raw_pda_of(seeds_view(seeds@), program_id@) == Some(a@),
            None => raw_pda_of(seeds_view(seeds@), program_id@) is None,
        },
{
    let refs: Vec<&[u8]> = seeds.iter().map(|s| s.as_slice()).collect();
    Pubkey::create_program_address(&refs, &Pubkey::from(*program_id))
        .ok()
        .map(|pk| pk.to_bytes())
}

/// Canonical derivation of a control or custody address from its fixed
/// label: the address and the bump proof that re-derives it.
pub fn find_labeled_address(label: Vec<u8>, program_id: &Address) -> (r: Option<(Address, u8)>)
    ensures
        match r {
            Some(p) => pda_of(seq![label@], program_id@) == Some((p.0@, p.1)) && raw_pda_of(
                seq![label@, seq![p.1]],
                program_id@,
            ) == Some(p.0@),
            None => pda_of(seq![label@], program_id@) is None,
        },
{
    let ghost l = label@;
    let mut seeds: Vec<Vec<u8>> = Vec::new();
    seeds.push(label);
    proof {
        assert(seeds_view(seeds@) =~= seq![l]);
    }
    let r = try_find_program_address(&seeds, program_id);
    proof {
        if let Some(p) = r {
            assert(seeds_view(seeds@).push(seq![p.1]) =~= seq![l, seq![p.1]]);
        }
    }
    r
}

/// Canonical derivation of a per-caller record address from the fixed label
/// and the caller's identity.
pub fn find_caller_address(label: Vec<u8>, caller: &Address, program_id: &Address) -> (r: Option<
    (Address, u8),
>)
    ensures
        match r {
            Some(p) => pda_of(seq![label@, caller@], program_id@) == Some((p.0@, p.1)),
            None => pda_of(seq![label@, caller@], program_id@) is None,
        },
{
    let ghost l = label@;
    let mut seeds: Vec<Vec<u8>> = Vec::new();
    seeds.push(label);
    seeds.push(slice_to_vec(caller.as_slice()));
    proof {
        assert(seeds_view(seeds@) =~= seq![l, caller@]);
    }
    try_find_program_address(&seeds, program_id)
}

/// Re-derivation of a labeled address from its stored bump proof.
pub fn rederive_labeled_address(label: Vec<u8>, bump: u8, program_id: &Address) -> (r: Option<
    Address,
>)
    ensures
        match r {
            Some(a) => raw_pda_of(seq![label@, seq![bump]], program_id@) == Some(a@),
            None => raw_pda_of(seq![label@, seq![bump]], program_id@) is None,
        },
{
    let ghost l = label@;
    let mut seeds: Vec<Vec<u8>> = Vec::new();
    seeds.push(label);
    let mut bump_seed: Vec<u8> = Vec::new();
    bump_seed.push(bump);
    proof {
        assert(bump_seed@ =~= seq![bump]);
    }
    seeds.push(bump_seed);
    proof {
        assert(seeds_view(seeds@) =~= seq![l, seq![bump]]);
    }
    create_program_address(&seeds, program_id)
}

/// Whether the supplied address is exactly the one that label and stored
/// bump proof re-derive. Every operation that reads or writes a labeled
/// record rejects the request where this is false.
pub fn verify_labeled_address(supplied: &Address, label: Vec<u8>, bump: u8, program_id: &Address)
    -> (r: bool)
    ensures
        r == (raw_pda_of(seq![label@, seq![bump]], program_id@) == Some(supplied@)),
{
    match rederive_labeled_address(label, bump, program_id) {
        Some(expected) => address_eq(supplied, &expected),
        None => false,
    }
}

/// Whether `addr` is the canonical derived address for these seeds.
pub open spec fn canonical_address_matches(
    seeds: Seq<Seq<u8>>,
    program_id: Seq<u8>,
    addr: Seq<u8>,
) -> bool {
    match pda_of(seeds, program_id) {
        Some(p) => p.0 == addr,
        None => false,
    }
}

/// Whether the supplied address is the canonical derived address for the
/// label alone.
pub fn verify_canonical_labeled_address(supplied: &Address, label: Vec<u8>, program_id: &Address)
    -> (r: bool)
    ensures
        r == canonical_address_matches(seq![label@], program_id@, supplied@),
{
    match find_labeled_address(label, program_id) {
        Some(p) => address_eq(supplied, &p.0),
        None => false,
    }
}

/// Whether the supplied address is the canonical derived address for the
/// label and the caller's identity.
pub fn verify_caller_address(
    supplied: &Address,
    label: Vec<u8>,
    caller: &Address,
    program_id: &Address,
) -> (r: bool)
    ensures
        r == canonical_address_matches(seq![label@, caller@], program_id@, supplied@),
{
    match find_caller_address(label, caller, program_id) {
        Some(p) => address_eq(supplied, &p.0),
        None => false,
    }
}

/// Canonical derivation of an address from a fixed label and two identity
/// components, as the metadata registry derives an asset's record from its
/// label, its own identity and the asset's identity.
pub fn find_two_component_address(
    label: Vec<u8>,
    first: &Address,
    second: &Address,
    program_id: &Address,
) -> (r: Option<(Address, u8)>)
    ensures
        match r {
            Some(p) => pda_of(seq![label@, first@, second@], program_id@) == Some((p.0@, p.1)),
            None => pda_of(seq![label@, first@, second@], program_id@) is None,
        },
{
    let ghost l = label@;
    let mut seeds: Vec<Vec<u8>> = Vec::new();
    seeds.push(label);
    seeds.push(slice_to_vec(first.as_slice()));
    seeds.push(slice_to_vec(second.as_slice()));
    proof {
        assert(seeds_view(seeds@) =~= seq![l, first@, second@]);
    }
    try_find_program_address(&seeds, program_id)
}

/// Whether the supplied address is the canonical derived address for the
/// label and two identity components.
pub fn verify_two_component_address(
    supplied: &Address,
    label: Vec<u8>,
    first: &Address,
    second: &Address,
    program_id: &Address,
) -> (r: bool)
    ensures
        r == canonical_address_matches(seq![label@, first@, second@], program_id@, supplied@),
{
    match find_two_component_address(label, first, second, program_id) {
        Some(p) => address_eq(supplied, &p.0),
        None => false,
    }
}

/// Law: re-derivation is deterministic. The label and the stored bump proof
/// fix the derived address: two re-derivations of the same (label, proof)
/// pair under the same program can never disagree.
pub proof fn lemma_rederivation_deterministic(
    label: Seq<u8>,
    bump: u8,
    program_id: Seq<u8>,
    a1: Seq<u8>,
    a2: Seq<u8>,
)
    requires
        raw_pda_of(seq![label, seq![bump]], program_id) == Some(a1),
        raw_pda_of(seq![label, seq![bump]], program_id) == Some(a2),
    ensures
        a1 == a2,
{
}

} // verus!
