//! The two headline balances of a set of vaults.

use vstd::prelude::*;
use crate::vault::Vault;

verus! {

/// What a vault adds to the active balance: its amount if its funds can
/// be spent, nothing otherwise.
pub open spec fn active_share(vault: Vault) -> nat {
    if vault.status.is_active() {
        vault.amount as nat
    } else {
        0
    }
}

/// What a vault adds to the inactive balance: its amount if its funds are
/// on their way to being spendable, nothing otherwise.
pub open spec fn inactive_share(vault: Vault) -> nat {
    if vault.status.is_inactive() {
        vault.amount as nat
    } else {
        0
    }
}

/// The sum of the amounts of the vaults whose funds can be spent.
pub open spec fn active_total(vaults: Seq<Vault>) -> nat
    decreases vaults.len(),
{
    if vaults.len() == 0 {
        0
    } else {
        active_total(vaults.drop_last()) + active_share(vaults.last())
    }
}

/// The sum of the amounts of the vaults whose funds are not spendable yet.
pub open spec fn inactive_total(vaults: Seq<Vault>) -> nat
    decreases vaults.len(),
{
    if vaults.len() == 0 {
        0
    } else {
        inactive_total(vaults.drop_last()) + inactive_share(vaults.last())
    }
}

/// The sum of the amounts of all the vaults.
pub open spec fn total_amount(vaults: Seq<Vault>) -> nat
    decreases vaults.len(),
{
    if vaults.len() == 0 {
        0
    } else {
        total_amount(vaults.drop_last()) + vaults.last().amount as nat
    }
}

/// A sum as a balance shows it: itself where it fits, else the largest
/// amount that can be shown.
pub open spec fn saturated(sum: nat) -> u64 {
    if sum > u64::MAX {
        u64::MAX
    } else {
        sum as u64
    }
}

/// A vault that leaves no gap between the two balances and the total: it
/// counts for one of them, or holds nothing.
pub open spec fn accounted(vault: Vault) -> bool {
    vault.status.is_active() || vault.status.is_inactive() || vault.amount == 0
}

/// The active and the inactive balance together never exceed the sum of
/// all amounts, and they reach it exactly when every vault that holds
/// anything has a status that counts as active or as inactive.
pub proof fn lemma_balance_within_total(vaults: Seq<Vault>)
    ensures
        active_total(vaults) + inactive_total(vaults) <= total_amount(vaults),
        active_total(vaults) + inactive_total(vaults) == total_amount(vaults) <==> forall|i: int|
            0 <= i < vaults.len() ==> accounted(#[trigger] vaults[i]),
    decreases vaults.len(),
{
    if vaults.len() > 0 {
        let front = vaults.drop_last();
        lemma_balance_within_total(front);
        assert forall|i: int| 0 <= i < front.len() implies front[i] == vaults[i] by {}
        if forall|i: int| 0 <= i < vaults.len() ==> accounted(#[trigger] vaults[i]) {
            assert forall|i: int| 0 <= i < front.len() implies accounted(#[trigger] front[i]) by {
                assert(accounted(vaults[i]));
            }
            assert(accounted(vaults[vaults.len() - 1]));
        }
        if active_total(vaults) + inactive_total(vaults) == total_amount(vaults) {
            assert forall|i: int| 0 <= i < vaults.len() implies accounted(#[trigger] vaults[i]) by {
                if i < front.len() {
                    assert(accounted(front[i]));
                }
            }
        }
    }
}

/// Where every vault has a status that counts, or some vault whose status
/// does not count holds something, the two balances together reach the
/// sum of all amounts exactly when every vault's status counts as active
/// or as inactive.
pub proof fn lemma_balance_reaches_total(vaults: Seq<Vault>)
    requires
        (forall|i: int|
            0 <= i < vaults.len() ==> (#[trigger] vaults[i]).status.is_active()
                || vaults[i].status.is_inactive()) || (exists|j: int|
            0 <= j < vaults.len() && !(#[trigger] vaults[j]).status.is_active()
                && !vaults[j].status.is_inactive() && vaults[j].amount > 0),
    ensures
        active_total(vaults) + inactive_total(vaults) == total_amount(vaults) <==> forall|i: int|
            0 <= i < vaults.len() ==> (#[trigger] vaults[i]).status.is_active()
                || vaults[i].status.is_inactive(),
{
    lemma_balance_within_total(vaults);
    if forall|i: int|
        0 <= i < vaults.len() ==> (#[trigger] vaults[i]).status.is_active()
            || vaults[i].status.is_inactive() {
        assert forall|i: int| 0 <= i < vaults.len() implies accounted(#[trigger] vaults[i]) by {
            assert(vaults[i].status.is_active() || vaults[i].status.is_inactive());
        }
    } else {
        let j = choose|j: int|
            0 <= j < vaults.len() && !(#[trigger] vaults[j]).status.is_active()
                && !vaults[j].status.is_inactive() && vaults[j].amount > 0;
        assert(!accounted(vaults[j]));
    }
}

/// The two balances of `vaults`, each held at `u64::MAX` where its sum
/// would pass it.
pub fn balance_of(vaults: &[Vault]) -> (balance: (u64, u64))
    ensures
        balance.0 == saturated(active_total(vaults@)),
        balance.1 == saturated(inactive_total(vaults@)),
{
    let mut active_amount: u64 = 0;
    let mut inactive_amount: u64 = 0;
    let mut i: usize = 0;
    while i < vaults.len()
        invariant
            i <= vaults.len(),
            active_amount == saturated(active_total(vaults@.take(i as int))),
            inactive_amount == saturated(inactive_total(vaults@.take(i as int))),
        decreases vaults.len() - i,
    {
        proof {
            assert(vaults@.take(i + 1).drop_last() =~= vaults@.take(i as int));
        }
        if vaults[i].status.counts_as_active() {
            active_amount = active_amount.saturating_add(vaults[i].amount);
        } else if vaults[i].status.counts_as_inactive() {
            inactive_amount = inactive_amount.saturating_add(vaults[i].amount);
        }
        i += 1;
    }
    proof {
        assert(vaults@.take(i as int) =~= vaults@);
    }
    (active_amount, inactive_amount)
}

} // verus!
