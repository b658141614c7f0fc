//! Signed payment transactions. Building, signing and RLP-encoding a payment
//! is the signing library's work; this module names its results and proves
//! the round trip from the fields a payment is built from to the fields read
//! back out of its signed encoding.
use vstd::prelude::*;
use std::str::FromStr;
use crate::signer::key_address;

verus! {

/// The signed RLP encoding of a legacy payment transaction with the given
/// fields, signed with the given hex-encoded key, or `None` when the key
/// does not yield a signature. Signing is deterministic, so the encoding
/// depends on these arguments alone.
pub uninterp spec fn signed_payment(
    key: Seq<char>,
    chain_id: u64,
    nonce: u64,
    recipient: Seq<u8>,
    value: u64,
    gas_price: u64,
    gas_limit: u64,
) -> Option<Seq<u8>>;

/// The payment fields `(nonce, recipient, value)` read back from a signed
/// transaction encoding, or `None` when the bytes do not decode to a payment
/// whose fields fit these types.
pub uninterp spec fn decoded_payment(raw: Seq<u8>) -> Option<(u64, Seq<u8>, u64)>;

/// The 20-byte sender address recovered from the signature carried by a
/// signed transaction encoding, or `None` when nothing recovers; a function
/// of the bytes alone.
pub uninterp spec fn recovered_signer(raw: Seq<u8>) -> Option<Seq<u8>>;

/// Relies on `ethers_signers::Wallet::{from_str, sign_transaction_sync}` and
/// `ethers_core::types::TransactionRequest::rlp_signed`: builds a legacy
/// payment transaction from the given fields, signs it deterministically
/// with the key, and returns the signed RLP encoding, whose payment fields
/// `TypedTransaction::decode_signed` reads back out unchanged, and whose
/// signature recovers the key's own address. The EIP-155 `v` value is the
/// recovery parity (0 or 1) plus `35 + 2 * chain_id` — at most
/// `2 * chain_id + 36` — computed in word arithmetic, so the chain
/// identifier must leave that in range.
#[verifier::external_body]
fn sign_payment(
    key: &str,
    chain_id: u64,
    nonce: u64,
    recipient: &Vec<u8>,
    value: u64,
    gas_price: u64,
    gas_limit: u64,
) -> (r: Option<Vec<u8>>)
    requires
        recipient@.len() == 20,
        2 * chain_id + 36 <= u64::MAX,
    ensures
        r is Some <==> signed_payment(
            key@,
            chain_id,
            nonce,
            recipient@,
            value,
            gas_price,
            gas_limit,
        ) is Some,
        r is Some ==> r->0@ == signed_payment(
            key@,
            chain_id,
            nonce,
            recipient@,
            value,
            gas_price,
            gas_limit,
        )->0,
        key_address(key@) is None ==> r is None,
        r is Some ==> decoded_payment(r->0@) == Some((nonce, recipient@, value)),
        r is Some ==> recovered_signer(r->0@) == key_address(key@),
{
    let wallet = ethers_signers::LocalWallet::from_str(key).ok()?;
    let wallet = ethers_signers::Signer::with_chain_id(wallet, chain_id);
    let tx = ethers_core::types::TransactionRequest::new()
        .to(ethers_core::types::Address::from_slice(recipient.as_slice()))
        .value(value)
        .nonce(nonce)
        .gas_price(gas_price)
        .gas(gas_limit)
        .chain_id(chain_id);
    let typed = ethers_core::types::transaction::eip2718::TypedTransaction::Legacy(tx);
    let sig = wallet.sign_transaction_sync(&typed).ok()?;
    Some(typed.rlp_signed(&sig).to_vec())
}

/// Relies on `ethers_core::types::transaction::eip2718::TypedTransaction::
/// decode_signed`: decodes a signed transaction encoding and hands back its
/// nonce, recipient address and value.
#[verifier::external_body]
fn decode_payment(raw: &Vec<u8>) -> (r: Option<(u64, Vec<u8>, u64)>)
    ensures
        r is Some <==> decoded_payment(raw@) is Some,
        r is Some ==> (r->0).0 == (decoded_payment(raw@)->0).0 && (r->0).1@ == (decoded_payment(
            raw@,
        )->0).1 && (r->0).2 == (decoded_payment(raw@)->0).2,
{
    let rlp = ethers_core::utils::rlp::Rlp::new(raw.as_slice());
    let decoded = ethers_core::types::transaction::eip2718::TypedTransaction::decode_signed(&rlp);
    let (tx, _sig) = decoded.ok()?;
    let to = tx.to_addr()?.as_bytes().to_vec();
    let nonce = u64::try_from(*tx.nonce()?).ok()?;
    let value = u64::try_from(*tx.value()?).ok()?;
    Some((nonce, to, value))
}

/// Signs one payment transaction with the client's key and returns its
/// signed wire encoding.
pub fn signed_payment_bytes(
    key: &str,
    chain_id: u64,
    nonce: u64,
    recipient: &Vec<u8>,
    value: u64,
    gas_price: u64,
    gas_limit: u64,
) -> (r: Option<Vec<u8>>)
    requires
        recipient@.len() == 20,
        2 * chain_id + 36 <= u64::MAX,
    ensures
        r is Some <==> signed_payment(
            key@,
            chain_id,
            nonce,
            recipient@,
            value,
            gas_price,
            gas_limit,
        ) is Some,
        r is Some ==> r->0@ == signed_payment(
            key@,
            chain_id,
            nonce,
            recipient@,
            value,
            gas_price,
            gas_limit,
        )->0,
        key_address(key@) is None ==> r is None,
        r is Some ==> decoded_payment(r->0@) == Some((nonce, recipient@, value)),
        r is Some ==> recovered_signer(r->0@) == key_address(key@),
{
    sign_payment(key, chain_id, nonce, recipient, value, gas_price, gas_limit)
}

/// Reads the payment fields `(nonce, recipient, value)` back out of a signed
/// transaction encoding.
pub fn read_payment(raw: &Vec<u8>) -> (r: Option<(u64, Vec<u8>, u64)>)
    ensures
        r is Some <==> decoded_payment(raw@) is Some,
        r is Some ==> (r->0).0 == (decoded_payment(raw@)->0).0 && (r->0).1@ == (decoded_payment(
            raw@,
        )->0).1 && (r->0).2 == (decoded_payment(raw@)->0).2,
{
    decode_payment(raw)
}

} // verus!
