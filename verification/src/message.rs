//! The events that the states react to, and the requests they answer with.

use vstd::prelude::*;
use crate::error::DaemonError;
use crate::vault::{OutPoint, Vault};

verus! {

/// The transactions that move a vault's funds, as far as the daemon has
/// seen them on chain. Each is a serialized transaction.
#[derive(Debug)]
pub struct VaultTransactions {
    pub outpoint: OutPoint,
    pub deposit: Vec<u8>,
    pub unvault: Option<Vec<u8>>,
    pub spend: Option<Vec<u8>>,
    pub cancel: Option<Vec<u8>>,
    pub emergency: Option<Vec<u8>>,
}

/// The revocation transactions of a vault, each a serialized partially
/// signed transaction.
#[derive(Debug)]
pub struct RevocationTransactions {
    pub cancel_tx: Vec<u8>,
    pub emergency_tx: Vec<u8>,
    pub emergency_unvault_tx: Vec<u8>,
}

/// One mandatory signature: which input of the transaction it signs, the
/// public key that must sign, the 32-byte digest that the signature is
/// over, and the signature-hash flag that must end it.
#[derive(Debug)]
pub struct SignerSlot {
    pub input: u32,
    pub key: Vec<u8>,
    pub sighash: Vec<u8>,
    pub sighash_flag: u8,
}

/// A signature that a signer hands in for one input under one key: the
/// DER encoding followed by the signature-hash flag.
#[derive(Debug)]
pub struct SignerOutput {
    pub input: u32,
    pub key: Vec<u8>,
    pub signature: Vec<u8>,
}

/// One output that a spend transaction is to pay.
#[derive(Debug)]
pub struct Payment {
    pub address: String,
    pub amount: u64,
}

impl View for Payment {
    type V = (Seq<char>, u64);

    open spec fn view(&self) -> (Seq<char>, u64) {
        (self.address@, self.amount)
    }
}

/// What a spend transaction is generated from.
#[derive(Debug)]
pub struct SpendRequest {
    pub inputs: Vec<OutPoint>,
    pub outputs: Vec<Payment>,
    pub feerate: u32,
}

/// The views of a list of payments, in order.
pub open spec fn payment_views(payments: Seq<Payment>) -> Seq<(Seq<char>, u64)> {
    Seq::new(payments.len(), |i: int| payments[i]@)
}

/// What the contracts say of a spend request.
pub ghost struct SpendRequestView {
    pub inputs: Seq<(Seq<char>, u32)>,
    pub outputs: Seq<(Seq<char>, u64)>,
    pub feerate: u32,
}

impl View for SpendRequest {
    type V = SpendRequestView;

    open spec fn view(&self) -> SpendRequestView {
        SpendRequestView {
            inputs: crate::chain::outpoint_views(self.inputs@),
            outputs: payment_views(self.outputs@),
            feerate: self.feerate,
        }
    }
}

/// The daemon's answer to a spend request: the request it answers, the
/// serialized partially signed transaction, and the signatures that the
/// custody protocol demands before it may be broadcast.
#[derive(Debug)]
pub struct GeneratedSpend {
    pub request: SpendRequest,
    pub psbt: Vec<u8>,
    pub slots: Vec<SignerSlot>,
}

#[derive(Debug)]
pub enum Message {
    Clipboard(String),
    Vaults(Result<Vec<Vault>, DaemonError>),
    SelectVault(OutPoint),
    Vault(VaultMessage),
    BlockHeight(Result<u64, DaemonError>),
    Next,
    Previous,
    Deposit(usize, DepositMessage),
    Recipient(usize, RecipientMessage),
    Input(usize, InputMessage),
    AddRecipient,
    SpendTx(SpendTxMessage),
}

#[derive(Debug)]
pub enum VaultMessage {
    OnChainTransactions(Result<VaultTransactions, DaemonError>),
}

#[derive(Debug)]
pub enum SignMessage {
    ChangeMethod,
    Sign,
    Clipboard(String),
    PsbtEdited(String),
}

#[derive(Debug)]
pub enum DepositMessage {
    RevocationTransactions(Result<RevocationTransactions, DaemonError>),
    Sign(SignMessage),
    Signed(Result<(), DaemonError>),
    /// Asks the deposit state to try once more to reach the daemon.
    Retry,
}

#[derive(Debug)]
pub enum InputMessage {
    Selected(bool),
}

#[derive(Debug)]
pub enum RecipientMessage {
    Delete,
    AddressEdited(String),
    AmountEdited(String),
}

#[derive(Debug)]
pub enum SpendTxMessage {
    FeerateEdited(u32),
    Generate,
    Generated(Result<GeneratedSpend, DaemonError>),
    Sign(SignMessage),
    Signed(SignerOutput),
    Broadcast,
    Broadcasted(Result<(), DaemonError>),
    PsbtEdited(Vec<u8>),
    Import,
}

/// What a state asks of the world outside after it has taken in an event.
#[derive(Debug)]
pub enum Request {
    ListVaults,
    BlockHeight,
    OnchainTransactions(OutPoint),
    GenerateSpend(SpendRequest),
    Sign(Vec<u8>),
    Broadcast(Vec<u8>),
    Clipboard(String),
}

} // verus!
