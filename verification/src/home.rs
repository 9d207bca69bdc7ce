//! The manager's home: the vaults and what they add up to.

use vstd::prelude::*;
use crate::balance::{active_total, balance_of, inactive_total, saturated};
use crate::error::Error;
use crate::message::{Message, Request};
use crate::selected::{select_vault, selection_after, vault_answered, SelectedVault};
use crate::vault::{OutPoint, Vault};

verus! {

#[derive(Debug)]
pub struct ManagerHomeState {
    /// The balance, as the active and the inactive amount.
    pub balance: (u64, u64),
    pub blockheight: u64,
    pub warning: Option<Error>,
    pub vaults: Vec<Vault>,
    pub selected_vault: Option<SelectedVault>,
}

impl ManagerHomeState {
    /// The balance is the balance of the held vaults.
    pub open spec fn wf(self) -> bool {
        &&& self.balance.0 == saturated(active_total(self.vaults@))
        &&& self.balance.1 == saturated(inactive_total(self.vaults@))
    }

    pub fn new() -> (r: ManagerHomeState)
        ensures
            r.balance == (0u64, 0u64),
            r.blockheight == 0,
            r.warning is None,
            r.vaults@.len() == 0,
            r.selected_vault is None,
            r.wf(),
    {
        ManagerHomeState {
            balance: (0, 0),
            blockheight: 0,
            vaults: Vec::new(),
            warning: None,
            selected_vault: None,
        }
    }

    /// Replaces the held vaults by the daemon's snapshot, all at once, and
    /// the balance by the snapshot's.
    pub fn update_vaults(&mut self, vaults: Vec<Vault>)
        ensures
            final(self).vaults == vaults,
            final(self).wf(),
            final(self).blockheight == old(self).blockheight,
            final(self).warning == old(self).warning,
            final(self).selected_vault == old(self).selected_vault,
    {
        self.calculate_balance(vaults.as_slice());
        self.vaults = vaults;
    }

    /// Opens or closes a vault of the list.
    pub fn on_vault_select(&mut self, outpoint: OutPoint) -> (request: Option<Request>)
        ensures
            selection_after(
                old(self).selected_vault,
                old(self).vaults@,
                outpoint@,
                final(self).selected_vault,
                request,
            ),
            final(self).vaults == old(self).vaults,
            final(self).balance == old(self).balance,
            final(self).blockheight == old(self).blockheight,
            final(self).warning == old(self).warning,
    {
        select_vault(&mut self.selected_vault, &self.vaults, &outpoint)
    }

    /// Sets the balance to that of `vaults`: the active amount sums the
    /// vaults that are active, unvaulting or unvaulted, the inactive amount
    /// those that are secured, funded or unconfirmed; each sum stops at
    /// `u64::MAX`.
    pub fn calculate_balance(&mut self, vaults: &[Vault])
        ensures
            final(self).balance.0 == saturated(active_total(vaults@)),
            final(self).balance.1 == saturated(inactive_total(vaults@)),
            final(self).vaults == old(self).vaults,
            final(self).blockheight == old(self).blockheight,
            final(self).warning == old(self).warning,
            final(self).selected_vault == old(self).selected_vault,
    {
        self.balance = balance_of(vaults);
    }

    /// What an event makes of the state. A failure of the daemon becomes
    /// the warning and leaves vaults, balance and block height as they were.
    pub open spec fn updated(self, message: Message, after: ManagerHomeState, request: Option<Request>) -> bool {
        match message {
            Message::SelectVault(outpoint) => {
                &&& selection_after(
                    self.selected_vault,
                    self.vaults@,
                    outpoint@,
                    after.selected_vault,
                    request,
                )
                &&& after.vaults == self.vaults
                &&& after.balance == self.balance
                &&& after.blockheight == self.blockheight
                &&& after.warning == self.warning
            },
            Message::Vaults(Ok(vaults)) => after == (ManagerHomeState {
                vaults,
                balance: (saturated(active_total(vaults@)), saturated(inactive_total(vaults@))),
                ..self
            }) && request is None,
            Message::Vaults(Err(e)) => after == (ManagerHomeState {
                warning: Some(Error::Daemon(e)),
                ..self
            }) && request is None,
            Message::Vault(msg) => {
                &&& request is None
                &&& after.vaults == self.vaults
                &&& after.balance == self.balance
                &&& after.blockheight == self.blockheight
                &&& after.warning == self.warning
                &&& match self.selected_vault {
                    Some(opened) => after.selected_vault matches Some(s) && vault_answered(
                        opened,
                        msg,
                        s,
                    ),
                    None => after.selected_vault is None,
                }
            },
            Message::BlockHeight(Ok(height)) => after == (ManagerHomeState {
                blockheight: height,
                ..self
            }) && request is None,
            Message::BlockHeight(Err(e)) => after == (ManagerHomeState {
                warning: Some(Error::Daemon(e)),
                ..self
            }) && request is None,
            _ => after == self && request is None,
        }
    }

    pub fn update(&mut self, message: Message) -> (request: Option<Request>)
        ensures
            old(self).updated(message, *final(self), request),
            old(self).wf() ==> final(self).wf(),
    {
        match message {
            Message::SelectVault(outpoint) => {
                return self.on_vault_select(outpoint);
            },
            Message::Vaults(Ok(vaults)) => {
                self.update_vaults(vaults);
            },
            Message::Vaults(Err(e)) => {
                self.warning = Some(Error::Daemon(e));
            },
            Message::Vault(msg) => {
                match &mut self.selected_vault {
                    Some(opened) => {
                        opened.update(msg);
                    },
                    None => {},
                }
            },
            Message::BlockHeight(Ok(height)) => {
                self.blockheight = height;
            },
            Message::BlockHeight(Err(e)) => {
                self.warning = Some(Error::Daemon(e));
            },
            _ => {},
        }
        None
    }

    /// The requests that fill the state: the block height and the vaults.
    pub fn load(&self) -> (r: Vec<Request>)
        ensures
            r@ == seq![Request::BlockHeight, Request::ListVaults],
    {
        let mut r = Vec::new();
        r.push(Request::BlockHeight);
        r.push(Request::ListVaults);
        assert(r@ =~= seq![Request::BlockHeight, Request::ListVaults]);
        r
    }
}

/// Refreshing twice with the same snapshot leaves what refreshing once
/// leaves: the second refresh changes nothing.
pub proof fn lemma_refresh_idempotent(
    start: ManagerHomeState,
    once: ManagerHomeState,
    twice: ManagerHomeState,
    snapshot: Vec<Vault>,
)
    requires
        start.updated(Message::Vaults(Ok(snapshot)), once, None),
        once.updated(Message::Vaults(Ok(snapshot)), twice, None),
    ensures
        twice == once,
{
}

/// The balance on show never promises more than the vaults hold.
pub proof fn lemma_balance_shown_within_total(state: ManagerHomeState)
    requires
        state.wf(),
    ensures
        state.balance.0 + state.balance.1 <= crate::balance::total_amount(state.vaults@),
{
    crate::balance::lemma_balance_within_total(state.vaults@);
}

} // verus!
