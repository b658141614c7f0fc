//! Signer identities and client assembly. The account address is derived
//! from the hex-encoded signing key by the signing library; everything this
//! module decides (which identities exist, that both carry the same key and
//! chain identifier) is verified against that derivation.
use vstd::prelude::*;
use std::str::FromStr;
use crate::config::CHAIN_ID;
use crate::config::Config;
use crate::config::ConfigError;

verus! {

/// The 20-byte account address that the signing library derives from a
/// hex-encoded signing key, or `None` when the key does not parse to a
/// usable key. The derivation depends on the key string alone.
pub uninterp spec fn key_address(key: Seq<char>) -> Option<Seq<u8>>;

/// Relies on `ethers_signers::Wallet::<SigningKey>::from_str`, which parses
/// a hex-encoded 32-byte scalar and stores the address derived from it, and
/// on `Signer::address`, which hands that address back.
#[verifier::external_body]
fn derive_address(key: &str) -> (r: Option<Vec<u8>>)
    ensures
        r is Some <==> key_address(key@) is Some,
        r is Some ==> r->0@ == key_address(key@)->0 && r->0@.len() == 20,
{
    match ethers_signers::LocalWallet::from_str(key) {
        Ok(w) => Some(ethers_signers::Signer::address(&w).as_bytes().to_vec()),
        Err(_) => None,
    }
}

/// One signing identity: the address derived from the run's key, pinned to
/// a chain identifier.
pub struct SignerIdentity {
    /// 20-byte account address.
    pub address: Vec<u8>,
    /// Chain identifier attached to everything this identity signs.
    pub chain_id: u64,
}

impl SignerIdentity {
    /// A well-formed identity carries a full-length address.
    pub open spec fn wf(self) -> bool {
        self.address@.len() == 20
    }
}

/// The assembled client: a transaction-signing identity, a separate
/// relay-authentication identity built from the same key, and the two
/// endpoints the run talks to.
pub struct Client {
    /// Identity that signs the payment transactions.
    pub wallet: SignerIdentity,
    /// Identity that signs the relay-authentication envelope.
    pub bundle_signer: SignerIdentity,
    /// The key both identities were derived from.
    pub private_key: String,
    /// RPC endpoint for nonce, gas and block-height queries.
    pub rpc_url: String,
}

impl Client {
    /// Both identities are well formed, agree on address and chain
    /// identifier, and match the stored key.
    pub open spec fn wf(self) -> bool {
        &&& self.wallet.wf()
        &&& self.bundle_signer.wf()
        &&& self.wallet.address@ == self.bundle_signer.address@
        &&& self.wallet.chain_id == CHAIN_ID
        &&& self.bundle_signer.chain_id == CHAIN_ID
        &&& key_address(self.private_key@) == Some(self.wallet.address@)
    }
}

/// Assembles the client from a loaded configuration. Succeeds exactly when
/// the signing key parses; both identities then carry the address derived
/// from the key and the fixed chain identifier.
pub fn assemble_client(config: Config) -> (r: Result<Client, ConfigError>)
    ensures
        r is Ok <==> key_address(config.private_key@) is Some,
        key_address(config.private_key@) is None ==> r == Err::<Client, ConfigError>(
            ConfigError::InvalidPrivateKey,
        ),
        r is Ok ==> {
            &&& r->Ok_0.wf()
            &&& r->Ok_0.wallet.address@ == key_address(config.private_key@)->0
            &&& r->Ok_0.private_key@ == config.private_key@
            &&& r->Ok_0.rpc_url@ == config.rpc_url@
        },
{
    match derive_address(config.private_key.as_str()) {
        Some(address) => {
            let relay_address = derive_address(config.private_key.as_str()).unwrap();
            Ok(
                Client {
                    wallet: SignerIdentity { address, chain_id: CHAIN_ID },
                    bundle_signer: SignerIdentity { address: relay_address, chain_id: CHAIN_ID },
                    private_key: config.private_key,
                    rpc_url: config.rpc_url,
                },
            )
        },
        None => Err(ConfigError::InvalidPrivateKey),
    }
}

} // verus!
