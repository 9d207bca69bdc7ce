//! The list of all vaults with their history.

use vstd::prelude::*;
use crate::error::Error;
use crate::message::{Message, Request};
use crate::selected::{select_vault, selection_after, SelectedVault};
use crate::vault::{OutPoint, Vault};

verus! {

#[derive(Debug)]
pub struct HistoryState {
    pub blockheight: u64,
    pub warning: Option<Error>,
    pub vaults: Vec<Vault>,
    pub selected_vault: Option<SelectedVault>,
}

impl HistoryState {
    pub fn new() -> (r: HistoryState)
        ensures
            r.blockheight == 0,
            r.warning is None,
            r.vaults@.len() == 0,
            r.selected_vault is None,
    {
        HistoryState { blockheight: 0, vaults: Vec::new(), warning: None, selected_vault: None }
    }

    /// Replaces the held vaults by the daemon's snapshot, all at once.
    pub fn update_vaults(&mut self, vaults: Vec<Vault>)
        ensures
            final(self).vaults == vaults,
            final(self).blockheight == old(self).blockheight,
            final(self).warning == old(self).warning,
            final(self).selected_vault == old(self).selected_vault,
    {
        self.vaults = vaults;
    }

    /// Opens or closes a vault of the list.
    pub fn on_vault_select(&mut self, outpoint: OutPoint) -> (request: Option<Request>)
        ensures
            selection_after(
                old(self).selected_vault,
                old(self).vaults@,
                outpoint@,
                final(self).selected_vault,
                request,
            ),
            final(self).vaults == old(self).vaults,
            final(self).blockheight == old(self).blockheight,
            final(self).warning == old(self).warning,
    {
        select_vault(&mut self.selected_vault, &self.vaults, &outpoint)
    }

    /// What an event makes of the state. A failure of the daemon becomes
    /// the warning and leaves the vaults and the block height as they were.
    pub open spec fn updated(self, message: Message, after: HistoryState, request: Option<Request>) -> bool {
        match message {
            Message::SelectVault(outpoint) => {
                &&& selection_after(
                    self.selected_vault,
                    self.vaults@,
                    outpoint@,
                    after.selected_vault,
                    request,
                )
                &&& after.vaults == self.vaults
                &&& after.blockheight == self.blockheight
                &&& after.warning == self.warning
            },
            Message::Vaults(Ok(vaults)) => after == (HistoryState { vaults, ..self })
                && request is None,
            Message::Vaults(Err(e)) => after == (HistoryState {
                warning: Some(Error::Daemon(e)),
                ..self
            }) && request is None,
            Message::Vault(msg) => {
                &&& request is None
                &&& after.vaults == self.vaults
                &&& after.blockheight == self.blockheight
                &&& after.warning == self.warning
                &&& match self.selected_vault {
                    Some(opened) => after.selected_vault matches Some(s) && crate::selected::vault_answered(opened, msg, s),
                    None => after.selected_vault is None,
                }
            },
            Message::BlockHeight(Ok(height)) => after == (HistoryState {
                blockheight: height,
                ..self
            }) && request is None,
            Message::BlockHeight(Err(e)) => after == (HistoryState {
                warning: Some(Error::Daemon(e)),
                ..self
            }) && request is None,
            _ => after == self && request is None,
        }
    }

    pub fn update(&mut self, message: Message) -> (request: Option<Request>)
        ensures
            old(self).updated(message, *final(self), request),
    {
        match message {
            Message::SelectVault(outpoint) => {
                return self.on_vault_select(outpoint);
            },
            Message::Vaults(Ok(vaults)) => {
                self.update_vaults(vaults);
            },
            Message::Vaults(Err(e)) => {
                self.warning = Some(Error::Daemon(e));
            },
            Message::Vault(msg) => {
                match &mut self.selected_vault {
                    Some(opened) => {
                        opened.update(msg);
                    },
                    None => {},
                }
            },
            Message::BlockHeight(Ok(height)) => {
                self.blockheight = height;
            },
            Message::BlockHeight(Err(e)) => {
                self.warning = Some(Error::Daemon(e));
            },
            _ => {},
        }
        None
    }

    /// The requests that fill the state: the block height and the vaults.
    pub fn load(&self) -> (r: Vec<Request>)
        ensures
            r@ == seq![Request::BlockHeight, Request::ListVaults],
    {
        let mut r = Vec::new();
        r.push(Request::BlockHeight);
        r.push(Request::ListVaults);
        assert(r@ =~= seq![Request::BlockHeight, Request::ListVaults]);
        r
    }
}

/// Refreshing twice with the same snapshot leaves what refreshing once
/// leaves: the second refresh changes nothing.
pub proof fn lemma_refresh_idempotent(
    start: HistoryState,
    once: HistoryState,
    twice: HistoryState,
    snapshot: Vec<Vault>,
)
    requires
        start.updated(Message::Vaults(Ok(snapshot)), once, None),
        once.updated(Message::Vaults(Ok(snapshot)), twice, None),
    ensures
        twice == once,
{
}

} // verus!
