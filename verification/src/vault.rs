//! Vaults as the custody daemon reports them.

use vstd::prelude::*;

verus! {

/// Where a vault stands in its lifecycle. Only the daemon decides it.
#[derive(Clone, Copy, Debug, PartialEq, Eq, Structural)]
pub enum VaultStatus {
    Unconfirmed,
    Funded,
    Secured,
    Active,
    Unvaulting,
    Unvaulted,
    Spending,
    Spent,
    Canceled,
    EmergencyVaulting,
    EmergencyVaulted,
}

impl VaultStatus {
    /// The statuses whose funds can be spent.
    pub open spec fn is_active(self) -> bool {
        self is Active || self is Unvaulting || self is Unvaulted
    }

    /// The statuses whose funds are on their way to being spendable.
    pub open spec fn is_inactive(self) -> bool {
        self is Secured || self is Funded || self is Unconfirmed
    }

    pub fn counts_as_active(&self) -> (r: bool)
        ensures
            r == self.is_active(),
    {
        match self {
            VaultStatus::Active | VaultStatus::Unvaulting | VaultStatus::Unvaulted => true,
            _ => false,
        }
    }

    pub fn counts_as_inactive(&self) -> (r: bool)
        ensures
            r == self.is_inactive(),
    {
        match self {
            VaultStatus::Secured | VaultStatus::Funded | VaultStatus::Unconfirmed => true,
            _ => false,
        }
    }
}

/// The output that funds a vault: a transaction id and an output index.
#[derive(Debug)]
pub struct OutPoint {
    pub txid: String,
    pub vout: u32,
}

impl View for OutPoint {
    type V = (Seq<char>, u32);

    open spec fn view(&self) -> (Seq<char>, u32) {
        (self.txid@, self.vout)
    }
}

impl OutPoint {
    pub fn new(txid: String, vout: u32) -> (r: OutPoint)
        ensures
            r@ == (txid@, vout),
    {
        OutPoint { txid, vout }
    }

    /// Whether both name the same output.
    pub fn same_as(&self, other: &OutPoint) -> (r: bool)
        ensures
            r == (self@ == other@),
    {
        self.vout == other.vout && self.txid == other.txid
    }

    pub fn duplicate(&self) -> (r: OutPoint)
        ensures
            r@ == self@,
    {
        OutPoint { txid: self.txid.clone(), vout: self.vout }
    }
}

/// What the contracts say of a vault.
pub ghost struct VaultView {
    pub outpoint: (Seq<char>, u32),
    pub amount: u64,
    pub address: Seq<char>,
    pub derivation_index: u32,
    pub status: VaultStatus,
}

/// A vault: an unspent output under custody, with its amount in satoshis.
#[derive(Debug)]
pub struct Vault {
    pub outpoint: OutPoint,
    pub amount: u64,
    pub address: String,
    pub derivation_index: u32,
    pub status: VaultStatus,
}

impl View for Vault {
    type V = VaultView;

    open spec fn view(&self) -> VaultView {
        VaultView {
            outpoint: self.outpoint@,
            amount: self.amount,
            address: self.address@,
            derivation_index: self.derivation_index,
            status: self.status,
        }
    }
}

impl Vault {
    pub fn duplicate(&self) -> (r: Vault)
        ensures
            r@ == self@,
    {
        Vault {
            outpoint: self.outpoint.duplicate(),
            amount: self.amount,
            address: self.address.clone(),
            derivation_index: self.derivation_index,
            status: self.status,
        }
    }
}

/// The views of a list of vaults, in order.
pub open spec fn vault_views(vaults: Seq<Vault>) -> Seq<VaultView> {
    Seq::new(vaults.len(), |i: int| vaults[i]@)
}

/// No vault before index `k` is funded by `outpoint`.
pub open spec fn none_before(vaults: Seq<Vault>, outpoint: (Seq<char>, u32), k: int) -> bool {
    forall|j: int| 0 <= j < k && j < vaults.len() ==> (#[trigger] vaults[j])@.outpoint != outpoint
}

/// `k` is the first index of a vault funded by `outpoint`.
pub open spec fn is_first_with_outpoint(
    vaults: Seq<Vault>,
    outpoint: (Seq<char>, u32),
    k: int,
) -> bool {
    &&& 0 <= k < vaults.len()
    &&& vaults[k]@.outpoint == outpoint
    &&& none_before(vaults, outpoint, k)
}

/// Looks a vault up by the output that funds it: the index of the first
/// match, and `None` when no vault is funded by it.
pub fn find_vault(vaults: &Vec<Vault>, outpoint: &OutPoint) -> (r: Option<usize>)
    ensures
        match r {
            Some(k) => is_first_with_outpoint(vaults@, outpoint@, k as int),
            None => none_before(vaults@, outpoint@, vaults@.len() as int),
        },
{
    let mut i: usize = 0;
    while i < vaults.len()
        invariant
            i <= vaults.len(),
            none_before(vaults@, outpoint@, i as int),
        decreases vaults.len() - i,
    {
        if vaults[i].outpoint.same_as(outpoint) {
            return Some(i);
        }
        i += 1;
    }
    None
}

} // verus!
