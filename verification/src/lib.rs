//! Client-side coordination of vault custody: the set of known vaults and
//! their balances, the wizard that assembles a spend transaction, and the
//! collection of the signatures that the transaction needs.

pub mod balance;
pub mod chain;
pub mod error;
pub mod history;
pub mod home;
pub mod import;
pub mod input;
pub mod message;
pub mod network;
pub mod recipient;
pub mod selected;
pub mod send;
pub mod signature;
pub mod vault;
