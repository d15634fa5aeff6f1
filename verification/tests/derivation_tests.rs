use solcraft::constants::{
    factory_config_seed, factory_treasury_seed, faucet_config_seed, faucet_recipient_seed,
};
use solcraft::derivation::{
    find_caller_address, find_labeled_address, rederive_labeled_address, verify_labeled_address,
};
use solcraft::states::{FactoryConfig, FaucetConfig, FaucetRecipientData};

const PROGRAM_ID: [u8; 32] = [7u8; 32];

#[test]
fn derivation_is_deterministic() {
    let a = find_labeled_address(factory_config_seed(), &PROGRAM_ID).unwrap();
    let b = find_labeled_address(factory_config_seed(), &PROGRAM_ID).unwrap();
    assert_eq!(a, b);
}

#[test]
fn rederivation_reproduces_the_canonical_address() {
    let (addr, bump) = find_labeled_address(factory_config_seed(), &PROGRAM_ID).unwrap();
    let again = rederive_labeled_address(factory_config_seed(), bump, &PROGRAM_ID);
    assert_eq!(again, Some(addr));
    assert!(verify_labeled_address(&addr, factory_config_seed(), bump, &PROGRAM_ID));
}

#[test]
fn a_wrong_address_is_refused() {
    let (addr, bump) = find_labeled_address(factory_config_seed(), &PROGRAM_ID).unwrap();
    let mut wrong = addr;
    wrong[0] = wrong[0].wrapping_add(1);
    assert!(!verify_labeled_address(&wrong, factory_config_seed(), bump, &PROGRAM_ID));
}

#[test]
fn distinct_labels_derive_distinct_addresses() {
    let (config, _) = find_labeled_address(factory_config_seed(), &PROGRAM_ID).unwrap();
    let (treasury, _) = find_labeled_address(factory_treasury_seed(), &PROGRAM_ID).unwrap();
    let (faucet, _) = find_labeled_address(faucet_config_seed(), &PROGRAM_ID).unwrap();
    assert_ne!(config, treasury);
    assert_ne!(config, faucet);
    assert_ne!(treasury, faucet);
}

#[test]
fn distinct_programs_derive_distinct_addresses() {
    let other_program: [u8; 32] = [8u8; 32];
    let (a, _) = find_labeled_address(factory_config_seed(), &PROGRAM_ID).unwrap();
    let (b, _) = find_labeled_address(factory_config_seed(), &other_program).unwrap();
    assert_ne!(a, b);
}

#[test]
fn distinct_callers_derive_distinct_records() {
    let caller_one: [u8; 32] = [1u8; 32];
    let caller_two: [u8; 32] = [2u8; 32];
    let (a, _) = find_caller_address(faucet_recipient_seed(), &caller_one, &PROGRAM_ID).unwrap();
    let (b, _) = find_caller_address(faucet_recipient_seed(), &caller_two, &PROGRAM_ID).unwrap();
    assert_ne!(a, b);
}

#[test]
fn record_encodings_have_exact_sizes() {
    assert_eq!(FactoryConfig::required_space(), 8 + 32 + 1 + 32 + 1 + 1 + 8);
    assert_eq!(FaucetConfig::required_space(), 8 + 32 + 32 + 8 + 32 + 8 + 1);
    assert_eq!(FaucetRecipientData::required_space(), 8 + 8);
}
