//! A spend transaction that was made elsewhere and is brought in.

use vstd::prelude::*;
use crate::balance::{saturated, total_amount};
use crate::chain::{decode_psbt, psbt_outline, TransactionOutline};
use crate::message::SpendTxMessage;
use crate::vault::{find_vault, is_first_with_outpoint, OutPoint, Vault, VaultView};

verus! {

/// Why bytes were not taken for a partially signed transaction.
#[derive(Clone, Copy, Debug, PartialEq, Eq, Structural)]
pub enum ImportError {
    /// There are no bytes.
    Empty,
    /// The bytes do not parse.
    Malformed,
}

/// A partially signed transaction that parses: its bytes, and the inputs
/// and outputs that were read from them.
#[derive(Debug)]
pub struct Psbt {
    pub bytes: Vec<u8>,
    pub outline: TransactionOutline,
}

/// What bytes are taken for: the transaction read from them, or why none was.
pub open spec fn imported(raw: Seq<u8>) -> Result<(Seq<(Seq<char>, u32)>, Seq<u64>), ImportError> {
    if raw.len() == 0 {
        Err(ImportError::Empty)
    } else {
        match psbt_outline(raw) {
            Some(outline) => Ok(outline),
            None => Err(ImportError::Malformed),
        }
    }
}

/// Takes bytes for a partially signed transaction if they parse as one.
/// Whether the transaction suits the known vaults is not looked at.
pub fn import(raw: Vec<u8>) -> (r: Result<Psbt, ImportError>)
    ensures
        match r {
            Ok(psbt) => psbt.bytes == raw && imported(raw@) == Ok::<_, ImportError>(
                psbt.outline@,
            ),
            Err(e) => imported(raw@) == Err::<(Seq<(Seq<char>, u32)>, Seq<u64>), _>(e),
        },
{
    if raw.len() == 0 {
        return Err(ImportError::Empty);
    }
    match decode_psbt(raw.as_slice()) {
        Some(outline) => Ok(Psbt { bytes: raw, outline }),
        None => Err(ImportError::Malformed),
    }
}

/// What is left of `total` once `outputs` have been paid from it, one
/// after another; nothing is left once an output asks for as much as
/// there is or more.
pub open spec fn left_after(total: u64, outputs: Seq<u64>) -> u64
    decreases outputs.len(),
{
    if outputs.len() == 0 {
        total
    } else {
        let left = left_after(total, outputs.drop_last());
        if left > outputs.last() {
            (left - outputs.last()) as u64
        } else {
            0
        }
    }
}

/// The fees of a spend transaction: what the vaults it spends hold, held
/// at `u64::MAX`, less what its outputs pay.
pub fn spend_fees(inputs: &[Vault], outputs: &[u64]) -> (fees: u64)
    ensures
        fees == left_after(saturated(total_amount(inputs@)), outputs@),
{
    let mut total_fees: u64 = 0;
    let mut i: usize = 0;
    while i < inputs.len()
        invariant
            i <= inputs.len(),
            total_fees == saturated(total_amount(inputs@.take(i as int))),
        decreases inputs.len() - i,
    {
        proof {
            assert(inputs@.take(i + 1).drop_last() =~= inputs@.take(i as int));
        }
        total_fees = total_fees.saturating_add(inputs[i].amount);
        i += 1;
    }
    proof {
        assert(inputs@.take(i as int) =~= inputs@);
    }
    let ghost total = total_fees;
    let mut k: usize = 0;
    while k < outputs.len()
        invariant
            k <= outputs.len(),
            total_fees == left_after(total, outputs@.take(k as int)),
        decreases outputs.len() - k,
    {
        proof {
            assert(outputs@.take(k + 1).drop_last() =~= outputs@.take(k as int));
        }
        if total_fees > outputs[k] {
            total_fees -= outputs[k];
        } else {
            total_fees = 0;
        }
        k += 1;
    }
    proof {
        assert(outputs@.take(k as int) =~= outputs@);
    }
    total_fees
}

/// A vault funded by `outpoint` is known.
pub open spec fn is_known(vaults: Seq<Vault>, outpoint: (Seq<char>, u32)) -> bool {
    exists|k: int| is_first_with_outpoint(vaults, outpoint, k)
}

/// The first vault funded by `outpoint`, where one is known.
pub open spec fn vault_funded_by(vaults: Seq<Vault>, outpoint: (Seq<char>, u32)) -> VaultView {
    vaults[choose|k: int| is_first_with_outpoint(vaults, outpoint, k)]@
}

/// The known vaults among those that a transaction spends: for each of
/// its inputs, in order, the first vault funded by that outpoint; an
/// input that no known vault stands for is passed over.
pub open spec fn known_inputs(vaults: Seq<Vault>, inputs: Seq<(Seq<char>, u32)>) -> Seq<VaultView>
    decreases inputs.len(),
{
    if inputs.len() == 0 {
        Seq::empty()
    } else if is_known(vaults, inputs.last()) {
        known_inputs(vaults, inputs.drop_last()).push(vault_funded_by(vaults, inputs.last()))
    } else {
        known_inputs(vaults, inputs.drop_last())
    }
}

/// Finds the known vaults that a transaction spends.
pub fn spent_vaults(vaults: &Vec<Vault>, inputs: &Vec<OutPoint>) -> (r: Vec<Vault>)
    ensures
        crate::vault::vault_views(r@) == known_inputs(vaults@, crate::chain::outpoint_views(inputs@)),
{
    let ghost spent = crate::chain::outpoint_views(inputs@);
    let mut found: Vec<Vault> = Vec::new();
    let mut i: usize = 0;
    while i < inputs.len()
        invariant
            i <= inputs.len(),
            spent == crate::chain::outpoint_views(inputs@),
            crate::vault::vault_views(found@) == known_inputs(vaults@, spent.take(i as int)),
        decreases inputs.len() - i,
    {
        proof {
            assert(spent.take(i + 1).drop_last() =~= spent.take(i as int));
            assert(spent.take(i + 1).last() == inputs@[i as int]@);
        }
        match find_vault(vaults, &inputs[i]) {
            Some(k) => {
                let ghost before = found@;
                found.push(vaults[k].duplicate());
                proof {
                    let outpoint = inputs@[i as int]@;
                    let c = choose|c: int| is_first_with_outpoint(vaults@, outpoint, c);
                    assert(is_first_with_outpoint(vaults@, outpoint, k as int));
                    assert(is_first_with_outpoint(vaults@, outpoint, c));
                    if c < k {
                        assert(vaults@[c]@.outpoint != outpoint);
                    }
                    if k < c {
                        assert(vaults@[k as int]@.outpoint != outpoint);
                    }
                    assert(crate::vault::vault_views(found@) =~= crate::vault::vault_views(
                        before,
                    ).push(vaults@[k as int]@));
                }
            },
            None => {
                proof {
                    let outpoint = inputs@[i as int]@;
                    assert forall|c: int| !is_first_with_outpoint(vaults@, outpoint, c) by {
                        if 0 <= c < vaults@.len() {
                            assert(vaults@[c]@.outpoint != outpoint);
                        }
                    }
                }
            },
        }
        i += 1;
    }
    proof {
        assert(spent.take(i as int) =~= spent);
    }
    found
}

/// The form that brings a transaction in: the bytes entered, the
/// transaction once it was taken, and why it was not.
#[derive(Debug)]
pub struct ManagerImportState {
    pub psbt_input: Vec<u8>,
    pub psbt_imported: Option<Psbt>,
    pub warning: Option<ImportError>,
}

impl ManagerImportState {
    pub fn new() -> (r: ManagerImportState)
        ensures
            r.psbt_input@.len() == 0,
            r.psbt_imported is None,
            r.warning is None,
    {
        ManagerImportState { psbt_input: Vec::new(), psbt_imported: None, warning: None }
    }

    /// What an event makes of the form: new bytes replace the old and
    /// leave the rest; an import takes the bytes entered, and either
    /// holds the transaction with no warning or holds the warning and
    /// what was imported before. Other events change nothing.
    pub open spec fn updated(self, message: SpendTxMessage, after: ManagerImportState) -> bool {
        match message {
            SpendTxMessage::PsbtEdited(bytes) => after == (ManagerImportState {
                psbt_input: bytes,
                ..self
            }),
            SpendTxMessage::Import => match imported(self.psbt_input@) {
                Ok(outline) => {
                    &&& after == (ManagerImportState {
                        psbt_imported: after.psbt_imported,
                        warning: None,
                        ..self
                    })
                    &&& after.psbt_imported matches Some(psbt)
                    &&& psbt.bytes@ == self.psbt_input@
                    &&& psbt.outline@ == outline
                },
                Err(e) => after == (ManagerImportState { warning: Some(e), ..self }),
            },
            _ => after == self,
        }
    }

    pub fn update(&mut self, message: SpendTxMessage)
        ensures
            old(self).updated(message, *final(self)),
    {
        match message {
            SpendTxMessage::PsbtEdited(bytes) => {
                self.psbt_input = bytes;
            },
            SpendTxMessage::Import => {
                match import(self.psbt_input.clone()) {
                    Ok(psbt) => {
                        self.psbt_imported = Some(psbt);
                        self.warning = None;
                    },
                    Err(e) => {
                        self.warning = Some(e);
                    },
                }
            },
            _ => {},
        }
    }
}

} // verus!
