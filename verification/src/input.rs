//! The vaults offered as inputs of a spend transaction, and what the
//! chosen ones and the recipients add up to.

use vstd::prelude::*;
use crate::balance::saturated;
use crate::chain::outpoint_views;
use crate::message::{payment_views, InputMessage, Payment};
use crate::recipient::ManagerSendOutput;
use crate::vault::{OutPoint, Vault};

verus! {

/// A vault that can be chosen as an input, and whether it is.
#[derive(Debug)]
pub struct ManagerSendInput {
    pub vault: Vault,
    pub selected: bool,
}

impl ManagerSendInput {
    /// A candidate that is not chosen yet.
    pub fn new(vault: Vault) -> (r: ManagerSendInput)
        ensures
            r.vault == vault,
            !r.selected,
    {
        ManagerSendInput { vault, selected: false }
    }

    /// Sets the choice as the user ticked it.
    pub fn update(&mut self, msg: InputMessage)
        ensures
            final(self).vault == old(self).vault,
            msg matches InputMessage::Selected(selected) && final(self).selected == selected,
    {
        match msg {
            InputMessage::Selected(selected) => {
                self.selected = selected;
            },
        }
    }
}

/// The sum of the amounts of the chosen vaults.
pub open spec fn selected_total(inputs: Seq<ManagerSendInput>) -> nat
    decreases inputs.len(),
{
    if inputs.len() == 0 {
        0
    } else {
        selected_total(inputs.drop_last()) + if inputs.last().selected {
            inputs.last().vault.amount as nat
        } else {
            0nat
        }
    }
}

/// The sum of what the recipients are to be paid.
pub open spec fn output_total(outputs: Seq<ManagerSendOutput>) -> nat
    decreases outputs.len(),
{
    if outputs.len() == 0 {
        0
    } else {
        output_total(outputs.drop_last()) + outputs.last().satoshis() as nat
    }
}

/// The outpoints of the chosen vaults, in the order of the list.
pub open spec fn selected_outpoints(inputs: Seq<ManagerSendInput>) -> Seq<(Seq<char>, u32)>
    decreases inputs.len(),
{
    if inputs.len() == 0 {
        Seq::empty()
    } else if inputs.last().selected {
        selected_outpoints(inputs.drop_last()).push(inputs.last().vault.outpoint@)
    } else {
        selected_outpoints(inputs.drop_last())
    }
}

/// What each recipient is to be paid, in the order of the list.
pub open spec fn payments_of(outputs: Seq<ManagerSendOutput>) -> Seq<(Seq<char>, u64)> {
    Seq::new(outputs.len(), |i: int| (outputs[i].address@, outputs[i].satoshis()))
}

/// A vault funded by `outpoint` is among the chosen ones.
pub open spec fn was_selected(inputs: Seq<ManagerSendInput>, outpoint: (Seq<char>, u32)) -> bool {
    exists|j: int|
        0 <= j < inputs.len() && (#[trigger] inputs[j]).selected && inputs[j].vault.outpoint@
            == outpoint
}

/// Every recipient has both fields filled in and no warning.
pub open spec fn all_valid(outputs: Seq<ManagerSendOutput>) -> bool {
    forall|i: int| 0 <= i < outputs.len() ==> (#[trigger] outputs[i]).is_valid()
}

/// `i` is the first recipient that is not valid.
pub open spec fn is_first_invalid(outputs: Seq<ManagerSendOutput>, i: int) -> bool {
    &&& 0 <= i < outputs.len()
    &&& !outputs[i].is_valid()
    &&& forall|j: int| 0 <= j < i ==> (#[trigger] outputs[j]).is_valid()
}

/// The sum of the amounts of the chosen vaults, held at `u64::MAX`.
pub fn input_sum(inputs: &Vec<ManagerSendInput>) -> (r: u64)
    ensures
        r == saturated(selected_total(inputs@)),
{
    let mut input_amount: u64 = 0;
    let mut i: usize = 0;
    while i < inputs.len()
        invariant
            i <= inputs.len(),
            input_amount == saturated(selected_total(inputs@.take(i as int))),
        decreases inputs.len() - i,
    {
        proof {
            assert(inputs@.take(i + 1).drop_last() =~= inputs@.take(i as int));
        }
        if inputs[i].selected {
            input_amount = input_amount.saturating_add(inputs[i].vault.amount);
        }
        i += 1;
    }
    proof {
        assert(inputs@.take(i as int) =~= inputs@);
    }
    input_amount
}

/// The sum of what the recipients are to be paid, held at `u64::MAX`.
pub fn output_sum(outputs: &Vec<ManagerSendOutput>) -> (r: u64)
    ensures
        r == saturated(output_total(outputs@)),
{
    let mut output_amount: u64 = 0;
    let mut i: usize = 0;
    while i < outputs.len()
        invariant
            i <= outputs.len(),
            output_amount == saturated(output_total(outputs@.take(i as int))),
        decreases outputs.len() - i,
    {
        proof {
            assert(outputs@.take(i + 1).drop_last() =~= outputs@.take(i as int));
        }
        match outputs[i].amount() {
            Ok(amount) => {
                output_amount = output_amount.saturating_add(amount);
            },
            Err(_) => {},
        }
        i += 1;
    }
    proof {
        assert(outputs@.take(i as int) =~= outputs@);
    }
    output_amount
}

/// The first recipient that is not valid, if there is one.
pub fn first_invalid(outputs: &Vec<ManagerSendOutput>) -> (r: Option<usize>)
    ensures
        match r {
            Some(i) => is_first_invalid(outputs@, i as int),
            None => all_valid(outputs@),
        },
{
    let mut i: usize = 0;
    while i < outputs.len()
        invariant
            i <= outputs.len(),
            forall|j: int| 0 <= j < i ==> (#[trigger] outputs@[j]).is_valid(),
        decreases outputs.len() - i,
    {
        if !outputs[i].valid() {
            return Some(i);
        }
        i += 1;
    }
    None
}

/// The outpoints of the chosen vaults, in the order of the list.
pub fn chosen_outpoints(inputs: &Vec<ManagerSendInput>) -> (r: Vec<OutPoint>)
    ensures
        outpoint_views(r@) == selected_outpoints(inputs@),
{
    let mut chosen: Vec<OutPoint> = Vec::new();
    let mut i: usize = 0;
    while i < inputs.len()
        invariant
            i <= inputs.len(),
            outpoint_views(chosen@) == selected_outpoints(inputs@.take(i as int)),
        decreases inputs.len() - i,
    {
        proof {
            assert(inputs@.take(i + 1).drop_last() =~= inputs@.take(i as int));
        }
        if inputs[i].selected {
            let ghost before = chosen@;
            chosen.push(inputs[i].vault.outpoint.duplicate());
            proof {
                assert(outpoint_views(chosen@) =~= outpoint_views(before).push(
                    inputs@[i as int].vault.outpoint@,
                ));
            }
        }
        i += 1;
    }
    proof {
        assert(inputs@.take(i as int) =~= inputs@);
    }
    chosen
}

/// What each recipient is to be paid, in the order of the list.
pub fn payments(outputs: &Vec<ManagerSendOutput>) -> (r: Vec<Payment>)
    ensures
        payment_views(r@) == payments_of(outputs@),
{
    let mut list: Vec<Payment> = Vec::new();
    let mut i: usize = 0;
    while i < outputs.len()
        invariant
            i <= outputs.len(),
            list@.len() == i,
            forall|j: int|
                0 <= j < i ==> (#[trigger] list@[j])@ == (
                    outputs@[j].address@,
                    outputs@[j].satoshis(),
                ),
        decreases outputs.len() - i,
    {
        list.push(outputs[i].payment());
        i += 1;
    }
    proof {
        assert(payment_views(list@) =~= payments_of(outputs@));
    }
    list
}

/// Whether a vault funded by `outpoint` is among the chosen ones.
pub fn is_chosen(inputs: &Vec<ManagerSendInput>, outpoint: &OutPoint) -> (r: bool)
    ensures
        r == was_selected(inputs@, outpoint@),
{
    let mut i: usize = 0;
    while i < inputs.len()
        invariant
            i <= inputs.len(),
            forall|j: int|
                0 <= j < i ==> !((#[trigger] inputs@[j]).selected && inputs@[j].vault.outpoint@
                    == outpoint@),
        decreases inputs.len() - i,
    {
        if inputs[i].selected && inputs[i].vault.outpoint.same_as(outpoint) {
            return true;
        }
        i += 1;
    }
    false
}

/// Whether two lists name the same outpoints in the same order.
pub fn same_outpoints(a: &Vec<OutPoint>, b: &Vec<OutPoint>) -> (r: bool)
    ensures
        r == (outpoint_views(a@) == outpoint_views(b@)),
{
    if a.len() != b.len() {
        assert(outpoint_views(a@).len() != outpoint_views(b@).len());
        return false;
    }
    let mut i: usize = 0;
    while i < a.len()
        invariant
            i <= a.len(),
            a.len() == b.len(),
            forall|j: int| 0 <= j < i ==> (#[trigger] a@[j])@ == b@[j]@,
        decreases a.len() - i,
    {
        if !a[i].same_as(&b[i]) {
            assert(outpoint_views(a@)[i as int] != outpoint_views(b@)[i as int]);
            return false;
        }
        i += 1;
    }
    assert(outpoint_views(a@) =~= outpoint_views(b@));
    true
}

/// Whether two lists ask for the same payments in the same order.
pub fn same_payments(a: &Vec<Payment>, b: &Vec<Payment>) -> (r: bool)
    ensures
        r == (payment_views(a@) == payment_views(b@)),
{
    if a.len() != b.len() {
        assert(payment_views(a@).len() != payment_views(b@).len());
        return false;
    }
    let mut i: usize = 0;
    while i < a.len()
        invariant
            i <= a.len(),
            a.len() == b.len(),
            forall|j: int| 0 <= j < i ==> (#[trigger] a@[j])@ == b@[j]@,
        decreases a.len() - i,
    {
        if !(a[i].amount == b[i].amount && a[i].address == b[i].address) {
            assert(payment_views(a@)[i as int] != payment_views(b@)[i as int]);
            return false;
        }
        i += 1;
    }
    assert(payment_views(a@) =~= payment_views(b@));
    true
}

} // verus!
