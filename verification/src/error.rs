//! What can go wrong, as data that a state keeps beside what it shows.

use vstd::prelude::*;

verus! {

/// The custody daemon could not be reached or refused a request. The
/// request can be issued again; nothing held locally is lost.
#[derive(Debug)]
pub struct DaemonError {
    pub message: String,
}

/// Something the user entered is malformed. It blocks the step it belongs to.
#[derive(Clone, Copy, Debug, PartialEq, Eq, Structural)]
pub enum ValidationError {
    /// The text is no amount of bitcoins, or one beyond all that can exist.
    Amount,
    /// The recipient at this position has no acceptable address or amount.
    Recipient(usize),
    /// The bytes are no partially signed transaction.
    Psbt,
}

/// A rule of the custody protocol forbids the step that was asked for.
#[derive(Clone, Copy, Debug, PartialEq, Eq, Structural)]
pub enum ProtocolViolation {
    /// The selected vaults do not hold more than the recipients are to get.
    InsufficientInputs,
    /// No transaction was generated for the current inputs, outputs and feerate.
    TransactionNotGenerated,
    /// A signer slot that must sign has not signed yet.
    IncompleteSignatures,
}

/// A signature that a signer handed in was turned down.
#[derive(Clone, Copy, Debug, PartialEq, Eq, Structural)]
pub enum SignatureError {
    /// No mandatory slot has this input and key.
    UnknownSigner,
    /// The signature does not end with the slot's signature-hash flag, or
    /// is no signature of the slot's digest under the slot's key.
    SighashMismatch,
}

#[derive(Debug)]
pub enum Error {
    Daemon(DaemonError),
    Validation(ValidationError),
    Protocol(ProtocolViolation),
    Signature(SignatureError),
}

} // verus!
