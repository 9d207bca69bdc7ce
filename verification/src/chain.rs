//! What this library asks of the `bitcoin` crate: parsing of amounts,
//! addresses and partially signed transactions, and the checking of ECDSA
//! signatures. Each call is made by one function here, whose contract is
//! taken on trust; the rules built on them are verified elsewhere.

use core::str::FromStr;
use vstd::prelude::*;
use crate::vault::OutPoint;

verus! {

/// The networks an address can belong to.
#[derive(Clone, Copy, Debug, PartialEq, Eq, Structural)]
pub enum Network {
    Bitcoin,
    Testnet,
    Signet,
    Regtest,
}

/// The inputs and outputs of the transaction inside a partially signed
/// transaction: the outputs it spends, and the value of each output it
/// creates, in satoshis.
#[derive(Debug)]
pub struct TransactionOutline {
    pub inputs: Vec<OutPoint>,
    pub outputs: Vec<u64>,
}

/// The views of a list of outpoints, in order.
pub open spec fn outpoint_views(outpoints: Seq<OutPoint>) -> Seq<(Seq<char>, u32)> {
    Seq::new(outpoints.len(), |i: int| outpoints[i]@)
}

impl View for TransactionOutline {
    type V = (Seq<(Seq<char>, u32)>, Seq<u64>);

    open spec fn view(&self) -> (Seq<(Seq<char>, u32)>, Seq<u64>) {
        (outpoint_views(self.inputs@), self.outputs@)
    }
}

/// The satoshis that `bitcoin::Amount::from_str_in` reads from `text` as a
/// decimal number of bitcoins, or `None` where it returns an error.
pub uninterp spec fn btc_amount_in_satoshis(text: Seq<char>) -> Option<u64>;

/// The network of the address that `bitcoin::Address::from_str` reads from
/// `text`, or `None` where it returns an error.
pub uninterp spec fn address_network(text: Seq<char>) -> Option<Network>;

/// The outline of the transaction that `bitcoin::consensus::encode::deserialize`
/// reads from `bytes` as a partially signed transaction, or `None` where it
/// returns an error.
pub uninterp spec fn psbt_outline(bytes: Seq<u8>) -> Option<(Seq<(Seq<char>, u32)>, Seq<u64>)>;

/// Whether `secp256k1::Secp256k1::verify` accepts the DER-encoded `signature`
/// as one of the 32-byte `digest` under the serialized public `key`. False
/// where any of the three does not parse.
pub uninterp spec fn signature_verifies(digest: Seq<u8>, key: Seq<u8>, signature: Seq<u8>) -> bool;

/// The serialized partially signed transaction that comes of `bytes` once
/// `signature` is entered under `key` among the partial signatures of input
/// number `input`; `None` where `bytes` or `key` does not parse or there is
/// no such input.
pub uninterp spec fn psbt_with_signature(
    bytes: Seq<u8>,
    input: u32,
    key: Seq<u8>,
    signature: Seq<u8>,
) -> Option<Seq<u8>>;

/// Calls `bitcoin::Amount::from_str_in` with the denomination `Bitcoin` and
/// hands back the amount in satoshis. The contract only names the result.
#[verifier::external_body]
pub(crate) fn parse_btc_amount(text: &str) -> (r: Option<u64>)
    ensures
        r == btc_amount_in_satoshis(text@),
{
    match bitcoin::Amount::from_str_in(text, bitcoin::Denomination::Bitcoin) {
        Ok(amount) => Some(amount.as_sat()),
        Err(_) => None,
    }
}

/// Calls `bitcoin::Address::from_str` and hands back the network of the
/// address it read. The contract only names the result.
#[verifier::external_body]
pub(crate) fn parse_address_network(text: &str) -> (r: Option<Network>)
    ensures
        r == address_network(text@),
{
    match bitcoin::Address::from_str(text) {
        Ok(address) => Some(
            match address.network {
                bitcoin::Network::Bitcoin => Network::Bitcoin,
                bitcoin::Network::Testnet => Network::Testnet,
                bitcoin::Network::Signet => Network::Signet,
                bitcoin::Network::Regtest => Network::Regtest,
            },
        ),
        Err(_) => None,
    }
}

/// Calls `bitcoin::consensus::encode::deserialize` for a partially signed
/// transaction and copies out, for each input of its unsigned transaction,
/// the outpoint it spends (the transaction id as text), and for each output
/// its value. The contract only names the result.
#[verifier::external_body]
pub(crate) fn decode_psbt(bytes: &[u8]) -> (r: Option<TransactionOutline>)
    ensures
        match r {
            Some(outline) => psbt_outline(bytes@) == Some(outline@),
            None => psbt_outline(bytes@) is None,
        },
{
    let decoded: Result<bitcoin::util::psbt::PartiallySignedTransaction, _> =
        bitcoin::consensus::encode::deserialize(bytes);
    match decoded {
        Ok(psbt) => Some(TransactionOutline {
            inputs: psbt.global.unsigned_tx.input.iter().map(|i| OutPoint {
                txid: i.previous_output.txid.to_string(),
                vout: i.previous_output.vout,
            }).collect(),
            outputs: psbt.global.unsigned_tx.output.iter().map(|o| o.value).collect(),
        }),
        Err(_) => None,
    }
}

/// Parses the digest, the key and the signature with
/// `secp256k1::Message::from_slice`, `bitcoin::PublicKey::from_slice` and
/// `secp256k1::Signature::from_der`, and calls `secp256k1::Secp256k1::verify`
/// on them. The contract only names the result.
#[verifier::external_body]
pub(crate) fn check_signature(digest: &[u8], key: &[u8], signature: &[u8]) -> (r: bool)
    ensures
        r == signature_verifies(digest@, key@, signature@),
{
    let message = bitcoin::secp256k1::Message::from_slice(digest);
    let public = bitcoin::PublicKey::from_slice(key);
    let parsed = bitcoin::secp256k1::Signature::from_der(signature);
    match (message, public, parsed) {
        (Ok(m), Ok(k), Ok(s)) => {
            bitcoin::secp256k1::Secp256k1::verification_only().verify(&m, &s, &k.key).is_ok()
        },
        _ => false,
    }
}

/// Reads `bytes` with `bitcoin::consensus::encode::deserialize`, enters the
/// signature under the key in the `partial_sigs` map of the input, and
/// writes the result with `bitcoin::consensus::encode::serialize`. The
/// contract only names the result.
#[verifier::external_body]
pub(crate) fn attach_signature(bytes: &[u8], input: u32, key: &[u8], signature: &[u8]) -> (r:
    Option<Vec<u8>>)
    ensures
        match r {
            Some(signed) => psbt_with_signature(bytes@, input, key@, signature@) == Some(signed@),
            None => psbt_with_signature(bytes@, input, key@, signature@) is None,
        },
{
    let decoded: Result<bitcoin::util::psbt::PartiallySignedTransaction, _> =
        bitcoin::consensus::encode::deserialize(bytes);
    match (decoded, bitcoin::PublicKey::from_slice(key)) {
        (Ok(mut psbt), Ok(public)) => match psbt.inputs.get_mut(input as usize) {
            Some(slot) => {
                slot.partial_sigs.insert(public, signature.to_vec());
                Some(bitcoin::consensus::encode::serialize(&psbt))
            },
            None => None,
        },
        _ => None,
    }
}

} // verus!
