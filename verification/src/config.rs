//! Fixed network parameters and loading of the two required environment
//! values (signing key and RPC endpoint). The caller reads the process
//! environment and hands the raw values in; this module decides whether the
//! run may start.
use vstd::prelude::*;

verus! {

/// Chain identifier of the target test network; attached to every signed
/// transaction and to the relay signer.
pub const CHAIN_ID: u64 = 11155111;

/// Number of submission attempts before the retry loop gives up.
pub const MAX_ATTEMPTS: u64 = 100;

/// Fixed timestamp handed to the relay when a bundle is simulated.
pub const SIMULATION_TIMESTAMP: u64 = 1731851886;

/// Amount transferred by each payment transaction in a bundle.
pub const TRANSFER_VALUE: u64 = 100;

/// Number of transactions in every bundle this crate builds.
pub const BUNDLE_SIZE: usize = 2;

/// The relay endpoint bundles are submitted to.
pub fn relay_url() -> (r: &'static str)
    ensures
        r@ == "https://relay-sepolia.flashbots.net"@,
{
    "https://relay-sepolia.flashbots.net"
}

/// The fixed recipient of both payment transactions, as 20 address bytes.
pub open spec fn recipient_spec() -> Seq<u8> {
    seq![
        0x51u8, 0x0Cu8, 0xB0u8, 0x00u8, 0x00u8, 0x07u8, 0x4Cu8, 0x9Fu8, 0x50u8, 0x63u8,
        0xE8u8, 0x1Bu8, 0xD4u8, 0x64u8, 0x7Du8, 0x00u8, 0x90u8, 0x5Au8, 0xBDu8, 0x11u8,
    ]
}

/// The fixed recipient of both payment transactions, as 20 address bytes.
pub fn recipient_address() -> (r: Vec<u8>)
    ensures
        r@ == recipient_spec(),
        r@.len() == 20,
{
    let r: Vec<u8> = vec![
        0x51u8, 0x0Cu8, 0xB0u8, 0x00u8, 0x00u8, 0x07u8, 0x4Cu8, 0x9Fu8, 0x50u8, 0x63u8,
        0xE8u8, 0x1Bu8, 0xD4u8, 0x64u8, 0x7Du8, 0x00u8, 0x90u8, 0x5Au8, 0xBDu8, 0x11u8,
    ];
    proof {
        assert(r@ =~= recipient_spec());
    }
    r
}

/// Why startup was refused.
#[derive(Clone, Copy, Debug, PartialEq, Eq, Structural)]
pub enum ConfigError {
    /// The signing key was absent from the environment.
    MissingPrivateKey,
    /// The RPC endpoint was absent from the environment.
    MissingRpcUrl,
    /// The signing key was present but does not parse to a usable key.
    InvalidPrivateKey,
}

/// The two values a run needs from its environment.
pub struct Config {
    /// Hex-encoded signing key.
    pub private_key: String,
    /// HTTP(S) endpoint of a network node.
    pub rpc_url: String,
}

/// Accepts the run's configuration exactly when both required values are
/// present; the signing key is checked first, so a missing key is reported
/// even when the endpoint is also missing.
pub fn load_config(private_key: Option<String>, rpc_url: Option<String>) -> (r: Result<
    Config,
    ConfigError,
>)
    ensures
        private_key is None ==> r == Err::<Config, ConfigError>(ConfigError::MissingPrivateKey),
        private_key is Some && rpc_url is None ==> r == Err::<Config, ConfigError>(
            ConfigError::MissingRpcUrl,
        ),
        private_key is Some && rpc_url is Some ==> {
            &&& r is Ok
            &&& r->Ok_0.private_key == private_key->0
            &&& r->Ok_0.rpc_url == rpc_url->0
        },
{
    match private_key {
        None => Err(ConfigError::MissingPrivateKey),
        Some(key) => match rpc_url {
            None => Err(ConfigError::MissingRpcUrl),
            Some(url) => Ok(Config { private_key: key, rpc_url: url }),
        },
    }
}

} // verus!
