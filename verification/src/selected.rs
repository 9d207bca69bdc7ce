//! The vault that the user has opened, and the choice of it from a list.

use vstd::prelude::*;
use crate::error::Error;
use crate::message::{Request, VaultMessage, VaultTransactions};
use crate::vault::{find_vault, is_first_with_outpoint, none_before, OutPoint, Vault};

verus! {

/// A vault that was opened to see its transactions.
#[derive(Debug)]
pub struct SelectedVault {
    pub vault: Vault,
    pub txs: Option<VaultTransactions>,
    pub warning: Option<Error>,
}

impl SelectedVault {
    pub fn new(vault: Vault) -> (r: SelectedVault)
        ensures
            r.vault == vault,
            r.txs is None,
            r.warning is None,
    {
        SelectedVault { vault, txs: None, warning: None }
    }

    /// Takes in the daemon's answer: the transactions on success, the
    /// error as a warning on failure. What was held before a failure stays.
    pub fn update(&mut self, message: VaultMessage)
        ensures
            vault_answered(*old(self), message, *final(self)),
    {
        match message {
            VaultMessage::OnChainTransactions(Ok(txs)) => {
                self.txs = Some(txs);
            },
            VaultMessage::OnChainTransactions(Err(e)) => {
                self.warning = Some(Error::Daemon(e));
            },
        }
    }

    /// The request that fetches the vault's transactions.
    pub fn load(&self) -> (r: Request)
        ensures
            r matches Request::OnchainTransactions(o) && o@ == self.vault.outpoint@,
    {
        Request::OnchainTransactions(self.vault.outpoint.duplicate())
    }
}

/// What the daemon's answer makes of an opened vault.
pub open spec fn vault_answered(before: SelectedVault, message: VaultMessage, after: SelectedVault) -> bool {
    &&& after.vault == before.vault
    &&& match message {
        VaultMessage::OnChainTransactions(Ok(txs)) => after.txs == Some(txs) && after.warning
            == before.warning,
        VaultMessage::OnChainTransactions(Err(e)) => after.txs == before.txs && after.warning
            == Some(Error::Daemon(e)),
    }
}

/// How a click on the vault funded by `outpoint` changes the selection:
/// a click on the open vault closes it; a click on another known vault
/// opens the first vault of the list with that outpoint, afresh, and asks
/// for its transactions; a click on an unknown outpoint changes nothing.
pub open spec fn selection_after(
    before: Option<SelectedVault>,
    vaults: Seq<Vault>,
    outpoint: (Seq<char>, u32),
    after: Option<SelectedVault>,
    request: Option<Request>,
) -> bool {
    if before is Some && before->0.vault.outpoint@ == outpoint {
        after is None && request is None
    } else if none_before(vaults, outpoint, vaults.len() as int) {
        after == before && request is None
    } else {
        &&& exists|k: int|
            #[trigger] is_first_with_outpoint(vaults, outpoint, k) && after == Some(
                SelectedVault { vault: after->0.vault, txs: None, warning: None },
            ) && after->0.vault@ == vaults[k]@
        &&& after is Some
        &&& request matches Some(Request::OnchainTransactions(o)) && o@ == outpoint
    }
}

/// Applies a click on the vault funded by `outpoint` to the selection.
pub fn select_vault(
    selected: &mut Option<SelectedVault>,
    vaults: &Vec<Vault>,
    outpoint: &OutPoint,
) -> (request: Option<Request>)
    ensures
        selection_after(*old(selected), vaults@, outpoint@, *final(selected), request),
{
    let open_already = match selected {
        Some(s) => s.vault.outpoint.same_as(outpoint),
        None => false,
    };
    if open_already {
        *selected = None;
        return None;
    }
    match find_vault(vaults, outpoint) {
        Some(k) => {
            let opened = SelectedVault::new(vaults[k].duplicate());
            let request = opened.load();
            *selected = Some(opened);
            assert(is_first_with_outpoint(vaults@, outpoint@, k as int));
            Some(request)
        },
        None => None,
    }
}

} // verus!
