//! Bundles: an ordered sequence of signed transaction encodings plus the
//! block parameters a submission carries. A bundle is rebuilt from scratch
//! for every attempt; the builder proves that each bundle holds exactly two
//! payments with consecutive nonces starting at the fetched account nonce.
use vstd::prelude::*;
use crate::config::BUNDLE_SIZE;
use crate::config::CHAIN_ID;
use crate::config::SIMULATION_TIMESTAMP;
use crate::config::TRANSFER_VALUE;
use crate::config::recipient_address;
use crate::config::recipient_spec;
use crate::signer::Client;
use crate::tx::decoded_payment;
use crate::tx::recovered_signer;
use crate::tx::signed_payment;
use crate::tx::signed_payment_bytes;

verus! {

/// An ordered sequence of signed transactions plus bundle-level parameters.
/// Ordering is significant: the relay executes the transactions in insertion
/// order.
pub struct Bundle {
    /// Signed wire encodings, in execution order.
    pub txs: Vec<Vec<u8>>,
    /// Block number the bundle targets, once the caller sets it.
    pub target_block: Option<u64>,
    /// Block a simulation runs against, if any.
    pub simulation_block: Option<u64>,
    /// Timestamp a simulation runs at, if any.
    pub simulation_timestamp: Option<u64>,
}

impl Bundle {
    /// The raw signed transactions, in order.
    pub open spec fn raw(self) -> Seq<Seq<u8>> {
        Seq::new(self.txs@.len(), |i: int| self.txs@[i]@)
    }

    /// An empty bundle with no block parameters set.
    pub fn new() -> (r: Self)
        ensures
            r.raw() =~= Seq::<Seq<u8>>::empty(),
            r.target_block is None,
            r.simulation_block is None,
            r.simulation_timestamp is None,
    {
        Bundle {
            txs: Vec::new(),
            target_block: None,
            simulation_block: None,
            simulation_timestamp: None,
        }
    }

    /// Appends one signed transaction, preserving the order of those already
    /// present.
    pub fn push_transaction(self, raw_tx: Vec<u8>) -> (r: Self)
        ensures
            r.raw() =~= self.raw().push(raw_tx@),
            r.target_block == self.target_block,
            r.simulation_block == self.simulation_block,
            r.simulation_timestamp == self.simulation_timestamp,
    {
        let Bundle { mut txs, target_block, simulation_block, simulation_timestamp } = self;
        txs.push(raw_tx);
        Bundle { txs, target_block, simulation_block, simulation_timestamp }
    }

    /// Sets the block the bundle targets, leaving everything else unchanged.
    pub fn set_block(self, block: u64) -> (r: Self)
        ensures
            r.raw() == self.raw(),
            r.target_block == Some(block),
            r.simulation_block == self.simulation_block,
            r.simulation_timestamp == self.simulation_timestamp,
    {
        Bundle { target_block: Some(block), ..self }
    }

    /// Sets the block a simulation runs against.
    pub fn set_simulation_block(self, block: u64) -> (r: Self)
        ensures
            r.raw() == self.raw(),
            r.target_block == self.target_block,
            r.simulation_block == Some(block),
            r.simulation_timestamp == self.simulation_timestamp,
    {
        Bundle { simulation_block: Some(block), ..self }
    }

    /// Sets the timestamp a simulation runs at.
    pub fn set_simulation_timestamp(self, timestamp: u64) -> (r: Self)
        ensures
            r.raw() == self.raw(),
            r.target_block == self.target_block,
            r.simulation_block == self.simulation_block,
            r.simulation_timestamp == Some(timestamp),
    {
        Bundle { simulation_timestamp: Some(timestamp), ..self }
    }
}

/// Why bundle construction failed.
#[derive(Clone, Copy, Debug, PartialEq, Eq, Structural)]
pub enum BuildError {
    /// The signing step produced no signature for one of the payments.
    SigningFailed,
}

/// The signed encoding of payment number `i` of a bundle built for this
/// client from this base nonce: nonce `base_nonce + i`, the fixed recipient
/// and transfer value, and the given gas parameters.
pub open spec fn planned_payment(
    client: Client,
    base_nonce: u64,
    i: int,
    gas_price: u64,
    gas_limit: u64,
) -> Option<Seq<u8>> {
    signed_payment(
        client.private_key@,
        CHAIN_ID,
        (base_nonce + i) as u64,
        recipient_spec(),
        TRANSFER_VALUE,
        gas_price,
        gas_limit,
    )
}

/// Builds one fresh bundle: exactly two payment transactions to the fixed
/// recipient, with consecutive nonces starting at `base_nonce` (the account
/// nonce fetched at build time), each signed with the client's key. No block
/// parameter is set; the caller targets a block afterwards.
pub fn build_bundle(client: &Client, base_nonce: u64, gas_price: u64, gas_limit: u64) -> (r:
    Result<Bundle, BuildError>)
    requires
        client.wf(),
        base_nonce + BUNDLE_SIZE <= u64::MAX,
    ensures
        r is Ok <==> (forall|i: int|
            0 <= i < BUNDLE_SIZE ==> planned_payment(
                *client,
                base_nonce,
                i,
                gas_price,
                gas_limit,
            ) is Some),
        r is Ok ==> {
            &&& r->Ok_0.raw().len() == BUNDLE_SIZE
            &&& forall|i: int|
                0 <= i < BUNDLE_SIZE ==> r->Ok_0.raw()[i] == planned_payment(
                    *client,
                    base_nonce,
                    i,
                    gas_price,
                    gas_limit,
                )->0
            &&& forall|i: int|
                0 <= i < BUNDLE_SIZE ==> decoded_payment(r->Ok_0.raw()[i]) == Some(
                    ((base_nonce + i) as u64, recipient_spec(), TRANSFER_VALUE),
                )
            &&& forall|i: int|
                0 <= i < BUNDLE_SIZE ==> recovered_signer(r->Ok_0.raw()[i]) == Some(
                    client.wallet.address@,
                )
            &&& r->Ok_0.target_block is None
            &&& r->Ok_0.simulation_block is None
            &&& r->Ok_0.simulation_timestamp is None
        },
        r is Err ==> r == Err::<Bundle, BuildError>(BuildError::SigningFailed),
{
    let recipient = recipient_address();
    let mut bundle = Bundle::new();
    let mut i: usize = 0;
    while i < BUNDLE_SIZE
        invariant
            client.wf(),
            base_nonce + BUNDLE_SIZE <= u64::MAX,
            0 <= i <= BUNDLE_SIZE,
            recipient@ == recipient_spec(),
            recipient@.len() == 20,
            bundle.raw().len() == i,
            forall|j: int|
                0 <= j < i ==> planned_payment(*client, base_nonce, j, gas_price, gas_limit)
                    is Some,
            forall|j: int|
                0 <= j < i ==> bundle.raw()[j] == planned_payment(
                    *client,
                    base_nonce,
                    j,
                    gas_price,
                    gas_limit,
                )->0,
            forall|j: int|
                0 <= j < i ==> decoded_payment(bundle.raw()[j]) == Some(
                    ((base_nonce + j) as u64, recipient_spec(), TRANSFER_VALUE),
                ),
            forall|j: int|
                0 <= j < i ==> recovered_signer(bundle.raw()[j]) == Some(
                    client.wallet.address@,
                ),
            bundle.target_block is None,
            bundle.simulation_block is None,
            bundle.simulation_timestamp is None,
        decreases BUNDLE_SIZE - i,
    {
        let nonce = base_nonce + (i as u64);
        match signed_payment_bytes(
            client.private_key.as_str(),
            client.wallet.chain_id,
            nonce,
            &recipient,
            TRANSFER_VALUE,
            gas_price,
            gas_limit,
        ) {
            Some(raw_tx) => {
                bundle = bundle.push_transaction(raw_tx);
            },
            None => {
                proof {
                    let ii = i as int;
                    assert(planned_payment(*client, base_nonce, ii, gas_price, gas_limit)
                        is None);
                    assert(!(forall|j: int|
                        0 <= j < BUNDLE_SIZE ==> planned_payment(
                            *client,
                            base_nonce,
                            j,
                            gas_price,
                            gas_limit,
                        ) is Some)) by {
                        assert(0 <= ii < BUNDLE_SIZE && planned_payment(
                            *client,
                            base_nonce,
                            ii,
                            gas_price,
                            gas_limit,
                        ) is None);
                    };
                }
                return Err(BuildError::SigningFailed);
            },
        }
        i = i + 1;
    }
    Ok(bundle)
}

/// Attaches the diagnostic-simulation parameters to a freshly built bundle:
/// it targets the block after the observed height, simulates against the
/// observed height itself, and uses the fixed simulation timestamp.
pub fn prepare_simulation(bundle: Bundle, current_height: u64) -> (r: Bundle)
    requires
        current_height < u64::MAX,
    ensures
        r.raw() == bundle.raw(),
        r.simulation_block == Some(current_height),
        r.simulation_timestamp == Some(SIMULATION_TIMESTAMP),
        r.target_block == Some((current_height + 1) as u64),
{
    let b = bundle.set_simulation_block(current_height);
    let b = b.set_simulation_timestamp(SIMULATION_TIMESTAMP);
    b.set_block(current_height + 1)
}

} // verus!
