use bundle_relay::config::{
    load_config, recipient_address, relay_url, Config, ConfigError, BUNDLE_SIZE, CHAIN_ID,
    MAX_ATTEMPTS, SIMULATION_TIMESTAMP, TRANSFER_VALUE,
};

#[test]
fn missing_private_key_aborts_before_anything_else() {
    let r = load_config(None, Some("http://localhost:8545".to_string()));
    assert_eq!(r.err(), Some(ConfigError::MissingPrivateKey));
    // The key is checked first even when both values are absent.
    let r = load_config(None, None);
    assert_eq!(r.err(), Some(ConfigError::MissingPrivateKey));
}

#[test]
fn missing_rpc_url_is_reported() {
    let r = load_config(Some("ab".repeat(32)), None);
    assert_eq!(r.err(), Some(ConfigError::MissingRpcUrl));
}

#[test]
fn present_values_are_kept() {
    let key = "11".repeat(32);
    let url = "http://localhost:8545".to_string();
    let c: Config = load_config(Some(key.clone()), Some(url.clone())).unwrap();
    assert_eq!(c.private_key, key);
    assert_eq!(c.rpc_url, url);
}

#[test]
fn fixed_network_parameters() {
    assert_eq!(CHAIN_ID, 11155111u64);
    assert_eq!(MAX_ATTEMPTS, 100u64);
    assert_eq!(SIMULATION_TIMESTAMP, 1731851886u64);
    assert_eq!(TRANSFER_VALUE, 100u64);
    assert_eq!(BUNDLE_SIZE, 2usize);
    assert_eq!(relay_url(), "https://relay-sepolia.flashbots.net");
}

#[test]
fn recipient_matches_the_fixed_address() {
    let expected: ethers_core::types::Address =
        "0x510CB00000074c9f5063e81bd4647d00905Abd11".parse().unwrap();
    assert_eq!(recipient_address(), expected.as_bytes().to_vec());
}
