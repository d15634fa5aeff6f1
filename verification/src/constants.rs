//! Fixed identifiers of the engine: the labels from which every control and
//! custody address is derived, and the global ceilings.

use vstd::prelude::*;

verus! {

use vstd::slice::slice_to_vec;
use vstd::utf8::encode_utf8;

/// Size in bytes of the tag that the ledger's record encoding puts in front
/// of a record's fields.
pub const DISCRIMINATOR: usize = 8;

/// Greatest decimal precision an asset may carry.
pub const MAX_DECIMALS: u8 = 9;

/// Default cooldown between two claims by the same caller, in seconds.
pub const DEFAULT_COOLDOWN_SECONDS: u64 = 3600;

/// The label from which the factory's control record address is derived.
pub open spec fn factory_config_label() -> Seq<u8> {
    encode_utf8("factory_config"@)
}

/// The label from which the factory's treasury custody address is derived.
pub open spec fn factory_treasury_label() -> Seq<u8> {
    encode_utf8("factory_treasury"@)
}

/// The label from which the faucet's control record address is derived.
pub open spec fn faucet_config_label() -> Seq<u8> {
    encode_utf8("faucet_config"@)
}

/// The label from which a caller's per-caller record address is derived,
/// together with the caller's identity.
pub open spec fn faucet_recipient_label() -> Seq<u8> {
    encode_utf8("faucet_recipient"@)
}

/// The label under which the metadata registry derives an asset's record.
pub open spec fn metadata_label() -> Seq<u8> {
    encode_utf8("metadata"@)
}

/// The factory control record's label, as bytes.
pub fn factory_config_seed() -> (v: Vec<u8>)
    ensures
        v@ == factory_config_label(),
{
    slice_to_vec("factory_config".as_bytes())
}

/// The factory treasury's label, as bytes.
pub fn factory_treasury_seed() -> (v: Vec<u8>)
    ensures
        v@ == factory_treasury_label(),
{
    slice_to_vec("factory_treasury".as_bytes())
}

/// The faucet control record's label, as bytes.
pub fn faucet_config_seed() -> (v: Vec<u8>)
    ensures
        v@ == faucet_config_label(),
{
    slice_to_vec("faucet_config".as_bytes())
}

/// The per-caller record label, as bytes.
pub fn faucet_recipient_seed() -> (v: Vec<u8>)
    ensures
        v@ == faucet_recipient_label(),
{
    slice_to_vec("faucet_recipient".as_bytes())
}

/// The metadata registry's label, as bytes.
pub fn metadata_seed() -> (v: Vec<u8>)
    ensures
        v@ == metadata_label(),
{
    slice_to_vec("metadata".as_bytes())
}

/// Law: the fixed labels are pairwise distinct. Derivation is a function of
/// its seeds, so the four kinds of record of this engine — factory control,
/// factory treasury, faucet control, per-caller — can never be addressed by
/// one another's derivations.
pub proof fn lemma_labels_distinct()
    ensures
        factory_config_label() != factory_treasury_label(),
        factory_config_label() != faucet_config_label(),
        factory_config_label() != faucet_recipient_label(),
        factory_treasury_label() != faucet_config_label(),
        factory_treasury_label() != faucet_recipient_label(),
        faucet_config_label() != faucet_recipient_label(),
{
    reveal_strlit("factory_config");
    reveal_strlit("factory_treasury");
    reveal_strlit("faucet_config");
    reveal_strlit("faucet_recipient");
    vstd::utf8::encode_utf8_decode_utf8("factory_config"@);
    vstd::utf8::encode_utf8_decode_utf8("factory_treasury"@);
    vstd::utf8::encode_utf8_decode_utf8("faucet_config"@);
    vstd::utf8::encode_utf8_decode_utf8("faucet_recipient"@);
    assert("factory_config"@.len() == 14);
    assert("factory_treasury"@.len() == 16);
    assert("faucet_config"@.len() == 13);
    assert("faucet_recipient"@.len() == 16);
    if "factory_treasury"@ == "faucet_recipient"@ {
        assert("factory_treasury"@[2] == "faucet_recipient"@[2]);
        assert(false);
    }
}

} // verus!
