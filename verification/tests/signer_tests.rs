use bundle_relay::config::{load_config, ConfigError, CHAIN_ID};
use bundle_relay::signer::assemble_client;
use std::str::FromStr;

const TEST_KEY: &str = "0000000000000000000000000000000000000000000000000000000000000001";

fn client_for(key: &str) -> Result<bundle_relay::signer::Client, ConfigError> {
    let config =
        load_config(Some(key.to_string()), Some("http://localhost:8545".to_string())).unwrap();
    assemble_client(config)
}

#[test]
fn assembly_succeeds_for_a_valid_key() {
    let client = client_for(TEST_KEY).unwrap();
    assert_eq!(client.private_key, TEST_KEY);
    assert_eq!(client.rpc_url, "http://localhost:8545");
}

#[test]
fn assembled_address_is_derived_from_the_key() {
    let client = client_for(TEST_KEY).unwrap();
    // Independently derive the address with the signing library itself.
    let wallet = ethers_signers::LocalWallet::from_str(TEST_KEY).unwrap();
    let expected = ethers_signers::Signer::address(&wallet).as_bytes().to_vec();
    assert_eq!(client.wallet.address, expected);
    assert_eq!(client.wallet.address.len(), 20);
    // Known derivation for the scalar 1.
    let known: ethers_core::types::Address =
        "0x7E5F4552091A69125d5DfCb7b8C2659029395Bdf".parse().unwrap();
    assert_eq!(client.wallet.address, known.as_bytes().to_vec());
}

#[test]
fn both_identities_share_address_and_chain_id() {
    let client = client_for(TEST_KEY).unwrap();
    assert_eq!(client.wallet.address, client.bundle_signer.address);
    assert_eq!(client.wallet.chain_id, CHAIN_ID);
    assert_eq!(client.bundle_signer.chain_id, CHAIN_ID);
}

#[test]
fn malformed_key_is_refused() {
    assert_eq!(client_for("not hex at all").err(), Some(ConfigError::InvalidPrivateKey));
    // Too short to be a 32-byte scalar.
    assert_eq!(client_for("abcd").err(), Some(ConfigError::InvalidPrivateKey));
    // The zero scalar is not a usable key.
    let zero = "0".repeat(64);
    assert_eq!(client_for(&zero).err(), Some(ConfigError::InvalidPrivateKey));
}
