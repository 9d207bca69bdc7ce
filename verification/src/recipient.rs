//! One recipient of a spend transaction, as the user types it.

use vstd::prelude::*;
use crate::chain::{
    address_network,
    btc_amount_in_satoshis,
    parse_address_network,
    parse_btc_amount,
    Network,
};
use crate::error::ValidationError;
use crate::message::{Payment, RecipientMessage};

verus! {

/// All the satoshis that can ever exist: 21 million bitcoins.
pub const MAX_SUPPLY: u64 = 2_100_000_000_000_000;

/// Whether an address that reads as one of `parsed` can be paid on
/// `network`: on its own network, and on signet where it reads as a
/// testnet address, since the two are written alike.
pub open spec fn network_accepts(network: Network, parsed: Network) -> bool {
    parsed == network || (network is Signet && parsed is Testnet)
}

/// Whether `text` is an address that can be paid on `network`.
pub open spec fn address_accepted(text: Seq<char>, network: Network) -> bool {
    match address_network(text) {
        Some(parsed) => network_accepts(network, parsed),
        None => false,
    }
}

/// What a parsed amount is worth: itself, unless nothing was parsed or it
/// is more than can exist.
pub open spec fn amount_within_supply(parsed: Option<u64>) -> Result<u64, ValidationError> {
    match parsed {
        Some(satoshis) => if satoshis <= MAX_SUPPLY {
            Ok(satoshis)
        } else {
            Err(ValidationError::Amount)
        },
        None => Err(ValidationError::Amount),
    }
}

/// The satoshis that the amount field `text` stands for: none for an
/// empty field, else what the text reads as in bitcoins, within the supply.
pub open spec fn amount_of(text: Seq<char>) -> Result<u64, ValidationError> {
    if text.len() == 0 {
        Ok(0)
    } else {
        amount_within_supply(btc_amount_in_satoshis(text))
    }
}

/// Whether the network `parsed`, read from an address, suits `network`.
pub fn accepts_network(network: Network, parsed: Option<Network>) -> (r: bool)
    ensures
        r == match parsed {
            Some(p) => network_accepts(network, p),
            None => false,
        },
{
    match parsed {
        Some(p) => p == network || (network == Network::Signet && p == Network::Testnet),
        None => false,
    }
}

/// Holds a parsed amount to the supply.
pub fn check_amount(parsed: Option<u64>) -> (r: Result<u64, ValidationError>)
    ensures
        r == amount_within_supply(parsed),
{
    match parsed {
        Some(satoshis) => if satoshis <= MAX_SUPPLY {
            Ok(satoshis)
        } else {
            Err(ValidationError::Amount)
        },
        None => Err(ValidationError::Amount),
    }
}

/// A recipient: the two fields as typed, and a warning for each field
/// that is filled in with something unacceptable.
#[derive(Debug)]
pub struct ManagerSendOutput {
    pub address: String,
    pub amount: String,
    pub warning_address: bool,
    pub warning_amount: bool,
    pub network: Network,
}

impl ManagerSendOutput {
    /// The warnings say what the fields hold: each is up exactly when its
    /// field is filled in and not acceptable.
    pub open spec fn consistent(self) -> bool {
        &&& self.warning_address == (self.address@.len() > 0 && !address_accepted(
            self.address@,
            self.network,
        ))
        &&& self.warning_amount == (self.amount@.len() > 0 && amount_of(self.amount@) is Err)
    }

    /// Both fields are filled in and neither has a warning.
    pub open spec fn is_valid(self) -> bool {
        &&& self.address@.len() > 0
        &&& !self.warning_address
        &&& self.amount@.len() > 0
        &&& !self.warning_amount
    }

    /// What the recipient is to be paid, in satoshis: nothing where the
    /// amount does not read.
    pub open spec fn satoshis(self) -> u64 {
        match amount_of(self.amount@) {
            Ok(satoshis) => satoshis,
            Err(_) => 0,
        }
    }

    /// A blank recipient for `network`.
    pub fn new(network: Network) -> (r: ManagerSendOutput)
        ensures
            r.address@.len() == 0,
            r.amount@.len() == 0,
            !r.warning_address,
            !r.warning_amount,
            r.network == network,
            r.consistent(),
            !r.is_valid(),
    {
        ManagerSendOutput {
            address: String::new(),
            amount: String::new(),
            warning_address: false,
            warning_amount: false,
            network,
        }
    }

    /// The amount in satoshis: zero for an empty field, an error where the
    /// text is no amount of bitcoins or more than can exist.
    pub fn amount(&self) -> (r: Result<u64, ValidationError>)
        ensures
            r == amount_of(self.amount@),
    {
        if self.amount.as_str().is_empty() {
            return Ok(0);
        }
        check_amount(parse_btc_amount(self.amount.as_str()))
    }

    pub fn valid(&self) -> (r: bool)
        ensures
            r == self.is_valid(),
    {
        !self.address.as_str().is_empty() && !self.warning_address
            && !self.amount.as_str().is_empty() && !self.warning_amount
    }

    /// What an edit makes of the recipient: the edited field takes the new
    /// text and its warning goes up exactly when the text is filled in and
    /// not acceptable; the other field and its warning stay.
    pub open spec fn edited(self, message: RecipientMessage, after: ManagerSendOutput) -> bool {
        match message {
            RecipientMessage::AddressEdited(address) => after == (ManagerSendOutput {
                address,
                warning_address: address@.len() > 0 && !address_accepted(address@, self.network),
                ..self
            }),
            RecipientMessage::AmountEdited(amount) => after == (ManagerSendOutput {
                amount,
                warning_amount: amount@.len() > 0 && amount_of(amount@) is Err,
                ..self
            }),
            RecipientMessage::Delete => after == self,
        }
    }

    pub fn update(&mut self, message: RecipientMessage)
        ensures
            old(self).edited(message, *final(self)),
            old(self).consistent() ==> final(self).consistent(),
    {
        match message {
            RecipientMessage::AddressEdited(address) => {
                let parsed = parse_address_network(address.as_str());
                self.warning_address = !address.as_str().is_empty() && !accepts_network(
                    self.network,
                    parsed,
                );
                self.address = address;
            },
            RecipientMessage::AmountEdited(amount) => {
                self.amount = amount;
                let parsed = self.amount();
                self.warning_amount = !self.amount.as_str().is_empty() && parsed.is_err();
            },
            RecipientMessage::Delete => {},
        }
    }

    /// The payment that the recipient asks for.
    pub fn payment(&self) -> (r: Payment)
        ensures
            r@ == (self.address@, self.satoshis()),
    {
        let amount = match self.amount() {
            Ok(satoshis) => satoshis,
            Err(_) => 0,
        };
        Payment { address: self.address.clone(), amount }
    }
}

/// A recipient without a warning that was kept consistent is one that can
/// be paid: its address is acceptable on its network, and its amount reads
/// as a number of satoshis within the supply.
pub proof fn lemma_valid_recipient(recipient: ManagerSendOutput)
    requires
        recipient.consistent(),
        recipient.is_valid(),
    ensures
        address_accepted(recipient.address@, recipient.network),
        amount_of(recipient.amount@) matches Ok(satoshis) && satoshis <= MAX_SUPPLY
            && btc_amount_in_satoshis(recipient.amount@) == Some(satoshis),
{
}

} // verus!
