//! The wizard that assembles a spend transaction: recipients, inputs,
//! feerate, signatures, in that order.

use vstd::prelude::*;
use crate::balance::saturated;
use crate::chain::{decode_psbt, psbt_outline, Network};
use crate::error::{DaemonError, Error, ProtocolViolation, ValidationError};
use crate::input::{
    all_valid,
    chosen_outpoints,
    first_invalid,
    input_sum,
    is_chosen,
    is_first_invalid,
    output_sum,
    output_total,
    payments,
    payments_of,
    same_outpoints,
    same_payments,
    selected_outpoints,
    selected_total,
    was_selected,
    ManagerSendInput,
};
use crate::message::{
    GeneratedSpend,
    InputMessage,
    Message,
    RecipientMessage,
    Request,
    SignMessage,
    SignerOutput,
    SpendRequest,
    SpendRequestView,
    SpendTxMessage,
};
use crate::recipient::ManagerSendOutput;
use crate::signature::PendingPsbt;
use crate::vault::Vault;

verus! {

/// The least feerate that can be chosen, in satoshis per virtual byte.
pub const MIN_FEERATE: u32 = 1;

/// The greatest feerate that can be chosen, in satoshis per virtual byte.
pub const MAX_FEERATE: u32 = 1000;

/// The steps of the wizard, in order.
#[derive(Clone, Copy, Debug, PartialEq, Eq, Structural)]
pub enum Stage {
    SelectOutputs,
    SelectInputs,
    SelectFee,
    Sign,
}

/// What the user has set up for signing: whether a connected device
/// signs, and the signed transaction pasted in otherwise.
#[derive(Debug)]
pub struct SignState {
    pub direct: bool,
    pub psbt_input: String,
}

#[derive(Debug)]
pub struct ManagerSendState {
    pub network: Network,
    pub stage: Stage,
    pub warning: Option<Error>,
    pub vaults: Vec<ManagerSendInput>,
    pub outputs: Vec<ManagerSendOutput>,
    pub feerate: u32,
    /// A request to generate the transaction is under way.
    pub processing: bool,
    pub psbt: Option<PendingPsbt>,
    pub signer: SignState,
    /// The daemon has broadcast the transaction: the wizard is over.
    pub broadcast: bool,
}

/// The candidates that a snapshot of the vaults gives: one per vault, in
/// order, chosen exactly when its funds can be spent and a vault with its
/// outpoint was chosen before.
pub open spec fn revalidated(
    before: Seq<ManagerSendInput>,
    vaults: Seq<Vault>,
    after: Seq<ManagerSendInput>,
) -> bool {
    &&& after.len() == vaults.len()
    &&& forall|i: int|
        0 <= i < after.len() ==> (#[trigger] after[i]).vault == vaults[i] && after[i].selected == (
        vaults[i].status.is_active() && was_selected(before, vaults[i].outpoint@))
}

/// Two spend requests ask for the same transaction.
pub fn same_request(a: &SpendRequest, b: &SpendRequest) -> (r: bool)
    ensures
        r == (a@ == b@),
{
    a.feerate == b.feerate && same_outpoints(&a.inputs, &b.inputs) && same_payments(
        &a.outputs,
        &b.outputs,
    )
}

impl ManagerSendState {
    /// The stage is one that is reached only with inputs that cover the outputs.
    pub open spec fn late(self) -> bool {
        self.stage is SelectFee || self.stage is Sign
    }

    /// The chosen inputs hold more than the recipients are to be paid.
    pub open spec fn covered(self) -> bool {
        saturated(selected_total(self.vaults@)) > saturated(output_total(self.outputs@))
    }

    /// The transaction that the current choices ask for.
    pub open spec fn request(self) -> SpendRequestView {
        SpendRequestView {
            inputs: selected_outpoints(self.vaults@),
            outputs: payments_of(self.outputs@),
            feerate: self.feerate,
        }
    }

    /// What holds of the wizard at every step: the feerate is in range;
    /// the recipients' warnings say what their fields hold; past the first
    /// stage every recipient is valid; a later stage is held only with
    /// inputs that cover the outputs, the last only with a transaction;
    /// a request is under way only in the fee stage and with no
    /// transaction in hand; the transaction in hand was generated with
    /// the current feerate and holds only signatures that fill their slots.
    pub open spec fn wf(self) -> bool {
        &&& MIN_FEERATE <= self.feerate <= MAX_FEERATE
        &&& forall|i: int|
            0 <= i < self.outputs@.len() ==> (#[trigger] self.outputs@[i]).consistent()
                && self.outputs@[i].network == self.network
        &&& !(self.stage is SelectOutputs) ==> all_valid(self.outputs@)
        &&& self.late() && !self.broadcast ==> self.covered()
        &&& self.stage is Sign ==> self.psbt is Some
        &&& self.processing ==> self.stage is SelectFee && self.psbt is None
        &&& self.broadcast ==> self.stage is Sign
        &&& self.psbt matches Some(pending) ==> pending@.wf() && pending.feerate == self.feerate
    }

    /// The wizard at its start: one blank recipient, no candidates, the
    /// least feerate, nothing generated.
    pub fn new(network: Network) -> (r: ManagerSendState)
        ensures
            r.network == network,
            r.stage is SelectOutputs,
            r.warning is None,
            r.vaults@.len() == 0,
            r.outputs@.len() == 1,
            r.outputs@[0].address@.len() == 0,
            r.outputs@[0].amount@.len() == 0,
            !r.outputs@[0].warning_address,
            !r.outputs@[0].warning_amount,
            r.feerate == MIN_FEERATE,
            !r.processing,
            r.psbt is None,
            !r.signer.direct,
            r.signer.psbt_input@.len() == 0,
            !r.broadcast,
            r.wf(),
    {
        let mut outputs = Vec::new();
        outputs.push(ManagerSendOutput::new(network));
        ManagerSendState {
            network,
            stage: Stage::SelectOutputs,
            warning: None,
            vaults: Vec::new(),
            outputs,
            feerate: MIN_FEERATE,
            processing: false,
            psbt: None,
            signer: SignState { direct: false, psbt_input: String::new() },
            broadcast: false,
        }
    }

    /// Whether a snapshot that gives the candidates `inputs` does away
    /// with the transaction in hand: it does where the wizard is not over
    /// and the chosen outpoints are no longer the same, or a later stage
    /// is left without cover.
    pub open spec fn discards(self, inputs: Seq<ManagerSendInput>) -> bool {
        !self.broadcast && (selected_outpoints(inputs) != selected_outpoints(self.vaults@) || (
        self.late() && saturated(selected_total(inputs)) <= saturated(
            output_total(self.outputs@),
        )))
    }

    /// What a snapshot of the vaults makes of the wizard.
    pub open spec fn refreshed(self, vaults: Seq<Vault>, after: ManagerSendState) -> bool {
        &&& revalidated(self.vaults@, vaults, after.vaults@)
        &&& after == (ManagerSendState {
            vaults: after.vaults,
            stage: if self.discards(after.vaults@) && self.late() {
                Stage::SelectInputs
            } else {
                self.stage
            },
            psbt: if self.discards(after.vaults@) {
                None
            } else {
                self.psbt
            },
            processing: self.processing && !self.discards(after.vaults@),
            ..self
        })
    }

    /// Replaces the candidates by those of the daemon's snapshot, all at
    /// once. A choice stays where its vault is still there and its funds
    /// can still be spent. Where that changes the chosen inputs, or leaves
    /// a later stage without cover, the transaction in hand is dropped
    /// and a later stage falls back to the choice of inputs.
    pub fn update_vaults(&mut self, vaults: Vec<Vault>)
        ensures
            old(self).refreshed(vaults@, *final(self)),
            old(self).wf() ==> final(self).wf(),
    {
        let before = chosen_outpoints(&self.vaults);
        let mut rest = vaults;
        let mut candidates: Vec<ManagerSendInput> = Vec::new();
        while rest.len() > 0
            invariant
                *self == *old(self),
                candidates@.len() + rest@.len() == vaults@.len(),
                forall|j: int|
                    0 <= j < candidates@.len() ==> (#[trigger] candidates@[j]).vault == vaults@[j]
                        && candidates@[j].selected == (vaults@[j].status.is_active()
                        && was_selected(self.vaults@, vaults@[j].outpoint@)),
                forall|j: int|
                    0 <= j < rest@.len() ==> (#[trigger] rest@[j]) == vaults@[candidates@.len() + j],
            decreases rest@.len(),
        {
            let vault = rest.remove(0);
            let selected = vault.status.counts_as_active() && is_chosen(
                &self.vaults,
                &vault.outpoint,
            );
            candidates.push(ManagerSendInput { vault, selected });
        }
        let after = chosen_outpoints(&candidates);
        let late = match self.stage {
            Stage::SelectFee | Stage::Sign => true,
            _ => false,
        };
        let short = input_sum(&candidates) <= output_sum(&self.outputs);
        let discard = !self.broadcast && (!same_outpoints(&before, &after) || (late && short));
        self.vaults = candidates;
        if discard {
            self.psbt = None;
            self.processing = false;
            if late {
                self.stage = Stage::SelectInputs;
            }
        }
    }

    /// What the chosen inputs hold, at most `u64::MAX`.
    pub fn input_amount(&self) -> (r: u64)
        ensures
            r == saturated(selected_total(self.vaults@)),
    {
        input_sum(&self.vaults)
    }

    /// What the recipients are to be paid, at most `u64::MAX`. A recipient
    /// whose amount does not read counts for nothing.
    pub fn output_amount(&self) -> (r: u64)
        ensures
            r == saturated(output_total(self.outputs@)),
    {
        output_sum(&self.outputs)
    }

    /// The transaction that the current choices ask for.
    pub fn spend_request(&self) -> (r: SpendRequest)
        ensures
            r@ == self.request(),
    {
        SpendRequest {
            inputs: chosen_outpoints(&self.vaults),
            outputs: payments(&self.outputs),
            feerate: self.feerate,
        }
    }

    /// Whether the current stage lets the user go on: every recipient is
    /// valid; the inputs cover the outputs; a transaction is in hand and
    /// none under way. The last stage has nowhere to go.
    pub open spec fn may_advance(self) -> bool {
        !self.broadcast && match self.stage {
            Stage::SelectOutputs => all_valid(self.outputs@),
            Stage::SelectInputs => self.covered(),
            Stage::SelectFee => self.psbt is Some && !self.processing,
            Stage::Sign => false,
        }
    }

    pub fn can_advance(&self) -> (r: bool)
        ensures
            r == self.may_advance(),
    {
        if self.broadcast {
            return false;
        }
        match self.stage {
            Stage::SelectOutputs => first_invalid(&self.outputs).is_none(),
            Stage::SelectInputs => self.input_amount() > self.output_amount(),
            Stage::SelectFee => self.psbt.is_some() && !self.processing,
            Stage::Sign => false,
        }
    }

    /// The stage that follows.
    pub open spec fn following(stage: Stage) -> Stage {
        match stage {
            Stage::SelectOutputs => Stage::SelectInputs,
            Stage::SelectInputs => Stage::SelectFee,
            _ => Stage::Sign,
        }
    }

    /// What going on makes of the wizard: where the stage lets the user,
    /// the next stage and no warning; else the same stage with the reason
    /// as the warning. The last stage and a wizard that is over stay as
    /// they are.
    pub open spec fn advanced(self, after: ManagerSendState) -> bool {
        if self.broadcast || self.stage is Sign {
            after == self
        } else if self.may_advance() {
            after == (ManagerSendState {
                stage: Self::following(self.stage),
                warning: None,
                ..self
            })
        } else {
            match self.stage {
                Stage::SelectOutputs => exists|i: int|
                    #[trigger] is_first_invalid(self.outputs@, i) && after == (ManagerSendState {
                        warning: Some(Error::Validation(ValidationError::Recipient(i as usize))),
                        ..self
                    }),
                Stage::SelectInputs => after == (ManagerSendState {
                    warning: Some(Error::Protocol(ProtocolViolation::InsufficientInputs)),
                    ..self
                }),
                _ => after == (ManagerSendState {
                    warning: Some(Error::Protocol(ProtocolViolation::TransactionNotGenerated)),
                    ..self
                }),
            }
        }
    }

    /// Goes on to the next stage, if the current one lets the user.
    pub fn next(&mut self)
        ensures
            old(self).advanced(*final(self)),
            old(self).wf() ==> final(self).wf(),
    {
        if self.broadcast {
            return ;
        }
        match self.stage {
            Stage::SelectOutputs => {
                match first_invalid(&self.outputs) {
                    None => {
                        self.stage = Stage::SelectInputs;
                        self.warning = None;
                    },
                    Some(i) => {
                        self.warning = Some(Error::Validation(ValidationError::Recipient(i)));
                        assert(is_first_invalid(old(self).outputs@, i as int));
                    },
                }
            },
            Stage::SelectInputs => {
                if self.input_amount() > self.output_amount() {
                    self.stage = Stage::SelectFee;
                    self.warning = None;
                } else {
                    self.warning = Some(Error::Protocol(ProtocolViolation::InsufficientInputs));
                }
            },
            Stage::SelectFee => {
                if self.psbt.is_some() && !self.processing {
                    self.stage = Stage::Sign;
                    self.warning = None;
                } else {
                    self.warning = Some(
                        Error::Protocol(ProtocolViolation::TransactionNotGenerated),
                    );
                }
            },
            Stage::Sign => {},
        }
    }

    /// What going back makes of the wizard: the stage before and no
    /// warning. The recipients, the choice of inputs, the feerate and the
    /// transaction in hand, with its signatures, stay; a request under way
    /// is given up; leaving the last stage resets what the user had set
    /// up for signing. The first stage and a wizard that is over stay as
    /// they are.
    pub open spec fn retreated(self, after: ManagerSendState) -> bool {
        if self.broadcast {
            after == self
        } else {
            match self.stage {
                Stage::SelectOutputs => after == self,
                Stage::SelectInputs => after == (ManagerSendState {
                    stage: Stage::SelectOutputs,
                    warning: None,
                    ..self
                }),
                Stage::SelectFee => after == (ManagerSendState {
                    stage: Stage::SelectInputs,
                    warning: None,
                    processing: false,
                    ..self
                }),
                Stage::Sign => after.signer.psbt_input@.len() == 0 && !after.signer.direct
                    && after == (ManagerSendState {
                    stage: Stage::SelectFee,
                    warning: None,
                    signer: after.signer,
                    ..self
                }),
            }
        }
    }

    /// Goes back to the stage before.
    pub fn previous(&mut self)
        ensures
            old(self).retreated(*final(self)),
            old(self).wf() ==> final(self).wf(),
    {
        if self.broadcast {
            return ;
        }
        match self.stage {
            Stage::SelectOutputs => {},
            Stage::SelectInputs => {
                self.stage = Stage::SelectOutputs;
                self.warning = None;
            },
            Stage::SelectFee => {
                self.stage = Stage::SelectInputs;
                self.warning = None;
                self.processing = false;
            },
            Stage::Sign => {
                self.stage = Stage::SelectFee;
                self.warning = None;
                self.signer = SignState { direct: false, psbt_input: String::new() };
            },
        }
    }

    /// What a new recipient makes of the wizard: in the first stage, one
    /// more recipient at the end, blank, and no transaction in hand; in
    /// any other stage, nothing.
    pub open spec fn recipient_added(self, after: ManagerSendState) -> bool {
        if self.stage is SelectOutputs {
            &&& after.outputs@.len() == self.outputs@.len() + 1
            &&& after.outputs@.drop_last() == self.outputs@
            &&& after.outputs@.last().address@.len() == 0
            &&& after.outputs@.last().amount@.len() == 0
            &&& !after.outputs@.last().warning_address
            &&& !after.outputs@.last().warning_amount
            &&& after.outputs@.last().network == self.network
            &&& after == (ManagerSendState { outputs: after.outputs, psbt: None, ..self })
        } else {
            after == self
        }
    }

    /// Appends a blank recipient.
    pub fn add_recipient(&mut self)
        ensures
            old(self).recipient_added(*final(self)),
            old(self).wf() ==> final(self).wf(),
    {
        match self.stage {
            Stage::SelectOutputs => {
                self.outputs.push(ManagerSendOutput::new(self.network));
                self.psbt = None;
                proof {
                    assert(self.outputs@.drop_last() =~= old(self).outputs@);
                }
            },
            _ => {},
        }
    }

    /// What an event for recipient `i` makes of the wizard: in the first
    /// stage and for a recipient that is there, the recipient is removed,
    /// or edited, and no transaction is in hand any more; an event for a
    /// recipient that is not there, or in another stage, changes nothing.
    pub open spec fn recipient_changed(
        self,
        i: usize,
        message: RecipientMessage,
        after: ManagerSendState,
    ) -> bool {
        if self.stage is SelectOutputs && i < self.outputs@.len() {
            &&& after == (ManagerSendState { outputs: after.outputs, psbt: None, ..self })
            &&& match message {
                RecipientMessage::Delete => after.outputs@ == self.outputs@.remove(i as int),
                _ => after.outputs@ == self.outputs@.update(i as int, after.outputs@[i as int])
                    && self.outputs@[i as int].edited(message, after.outputs@[i as int]),
            }
        } else {
            after == self
        }
    }

    /// Removes or edits recipient `i`.
    pub fn on_recipient(&mut self, i: usize, message: RecipientMessage)
        ensures
            old(self).recipient_changed(i, message, *final(self)),
            old(self).wf() ==> final(self).wf(),
    {
        let first = match self.stage {
            Stage::SelectOutputs => true,
            _ => false,
        };
        if !first || i >= self.outputs.len() {
            return ;
        }
        self.psbt = None;
        let mut recipient = self.outputs.remove(i);
        match message {
            RecipientMessage::Delete => {},
            _ => {
                recipient.update(message);
                self.outputs.insert(i, recipient);
                proof {
                    assert(self.outputs@ =~= old(self).outputs@.update(
                        i as int,
                        self.outputs@[i as int],
                    ));
                }
            },
        }
    }

    /// What ticking candidate `i` makes of the wizard: in the stage of
    /// the inputs and for a candidate that is there, the candidate is
    /// chosen as ticked, and where that changes its choice no transaction
    /// is in hand any more; otherwise nothing changes.
    pub open spec fn input_changed(self, i: usize, message: InputMessage, after: ManagerSendState) -> bool {
        if self.stage is SelectInputs && i < self.vaults@.len() {
            &&& message matches InputMessage::Selected(selected)
            &&& after.vaults@ == self.vaults@.update(
                i as int,
                ManagerSendInput { vault: self.vaults@[i as int].vault, selected },
            )
            &&& after == (ManagerSendState {
                vaults: after.vaults,
                psbt: if selected != self.vaults@[i as int].selected {
                    None
                } else {
                    self.psbt
                },
                ..self
            })
        } else {
            after == self
        }
    }

    /// Ticks or unticks candidate `i`.
    pub fn on_input(&mut self, i: usize, message: InputMessage)
        ensures
            old(self).input_changed(i, message, *final(self)),
            old(self).wf() ==> final(self).wf(),
    {
        let second = match self.stage {
            Stage::SelectInputs => true,
            _ => false,
        };
        if !second || i >= self.vaults.len() {
            return ;
        }
        let mut candidate = self.vaults.remove(i);
        let was = candidate.selected;
        candidate.update(message);
        if candidate.selected != was {
            self.psbt = None;
        }
        self.vaults.insert(i, candidate);
        proof {
            assert(self.vaults@ =~= old(self).vaults@.update(i as int, self.vaults@[i as int]));
        }
    }

    /// What a new feerate makes of the wizard: in the fee stage and within
    /// the bounds it is taken, and where it differs from the one before no
    /// transaction is in hand any more; otherwise nothing changes.
    pub open spec fn feerate_changed(self, feerate: u32, after: ManagerSendState) -> bool {
        if self.stage is SelectFee && MIN_FEERATE <= feerate <= MAX_FEERATE {
            after == (ManagerSendState {
                feerate,
                psbt: if feerate != self.feerate {
                    None
                } else {
                    self.psbt
                },
                ..self
            })
        } else {
            after == self
        }
    }

    /// Takes a new feerate.
    pub fn on_feerate(&mut self, feerate: u32)
        ensures
            old(self).feerate_changed(feerate, *final(self)),
            old(self).wf() ==> final(self).wf(),
    {
        let third = match self.stage {
            Stage::SelectFee => true,
            _ => false,
        };
        if !third || feerate < MIN_FEERATE || feerate > MAX_FEERATE {
            return ;
        }
        if feerate != self.feerate {
            self.psbt = None;
            self.feerate = feerate;
        }
    }

    /// Whether a transaction may be asked for: in the fee stage, with none
    /// in hand and none under way.
    pub open spec fn may_generate(self) -> bool {
        self.stage is SelectFee && !self.processing && self.psbt is None
    }

    pub fn can_generate(&self) -> (r: bool)
        ensures
            r == self.may_generate(),
    {
        let third = match self.stage {
            Stage::SelectFee => true,
            _ => false,
        };
        third && !self.processing && self.psbt.is_none()
    }

    /// What asking for the transaction makes of the wizard: where it may
    /// be asked for, a request for the current choices is under way;
    /// otherwise nothing changes and nothing is asked.
    pub open spec fn generating(self, after: ManagerSendState, request: Option<Request>) -> bool {
        if self.may_generate() {
            &&& after == (ManagerSendState { processing: true, ..self })
            &&& request matches Some(Request::GenerateSpend(r)) && r@ == self.request()
        } else {
            after == self && request is None
        }
    }

    /// Asks the daemon for the transaction.
    pub fn generate(&mut self) -> (request: Option<Request>)
        ensures
            old(self).generating(*final(self), request),
            old(self).wf() ==> final(self).wf(),
    {
        let third = match self.stage {
            Stage::SelectFee => true,
            _ => false,
        };
        if !third || self.processing || self.psbt.is_some() {
            return None;
        }
        self.processing = true;
        Some(Request::GenerateSpend(self.spend_request()))
    }

    /// What the daemon's answer makes of the wizard. An answer that comes
    /// when none is awaited changes nothing. Otherwise no request is under
    /// way any more, and: a failure becomes the warning; an answer to a
    /// request that the choices have moved on from is dropped; bytes that
    /// are no partially signed transaction become a warning; anything
    /// else becomes the transaction in hand, with no slot signed.
    pub open spec fn generated(
        self,
        answer: Result<GeneratedSpend, DaemonError>,
        after: ManagerSendState,
    ) -> bool {
        if !(self.stage is SelectFee && self.processing) {
            after == self
        } else {
            match answer {
                Err(e) => after == (ManagerSendState {
                    processing: false,
                    warning: Some(Error::Daemon(e)),
                    ..self
                }),
                Ok(spend) => if spend.request@ != self.request() {
                    after == (ManagerSendState { processing: false, ..self })
                } else if psbt_outline(spend.psbt@) is None {
                    after == (ManagerSendState {
                        processing: false,
                        warning: Some(Error::Validation(ValidationError::Psbt)),
                        ..self
                    })
                } else {
                    &&& after == (ManagerSendState {
                        processing: false,
                        warning: None,
                        psbt: after.psbt,
                        ..self
                    })
                    &&& after.psbt matches Some(pending)
                    &&& pending.psbt == spend.psbt
                    &&& pending.feerate == self.feerate
                    &&& pending@.slots == Seq::new(
                        spend.slots@.len(),
                        |i: int| spend.slots@[i]@,
                    )
                    &&& pending@.signatures == Seq::new(
                        spend.slots@.len(),
                        |i: int| None::<Seq<u8>>,
                    )
                },
            }
        }
    }

    /// Takes in the daemon's answer to a request for the transaction.
    pub fn on_generated(&mut self, answer: Result<GeneratedSpend, DaemonError>)
        ensures
            old(self).generated(answer, *final(self)),
            old(self).wf() ==> final(self).wf(),
    {
        let third = match self.stage {
            Stage::SelectFee => true,
            _ => false,
        };
        if !third || !self.processing {
            return ;
        }
        self.processing = false;
        match answer {
            Err(e) => {
                self.warning = Some(Error::Daemon(e));
            },
            Ok(spend) => {
                let current = self.spend_request();
                if !same_request(&spend.request, &current) {
                    return ;
                }
                match decode_psbt(spend.psbt.as_slice()) {
                    None => {
                        self.warning = Some(Error::Validation(ValidationError::Psbt));
                    },
                    Some(_) => {
                        self.warning = None;
                        self.psbt = Some(PendingPsbt::new(spend.psbt, self.feerate, spend.slots));
                    },
                }
            },
        }
    }

    /// What an event of the signing form makes of the wizard, in the last
    /// stage and before the broadcast: the method is switched, or the
    /// pasted text is kept, or the text goes to the clipboard, or the
    /// transaction in hand goes to the signer. Elsewhere nothing changes
    /// and nothing is asked.
    pub open spec fn sign_form(
        self,
        message: SignMessage,
        after: ManagerSendState,
        request: Option<Request>,
    ) -> bool {
        if self.stage is Sign && !self.broadcast {
            match message {
                SignMessage::ChangeMethod => after == (ManagerSendState {
                    signer: SignState {
                        direct: !self.signer.direct,
                        psbt_input: self.signer.psbt_input,
                    },
                    ..self
                }) && request is None,
                SignMessage::PsbtEdited(text) => after == (ManagerSendState {
                    signer: SignState { direct: self.signer.direct, psbt_input: text },
                    ..self
                }) && request is None,
                SignMessage::Clipboard(text) => after == self && request == Some(
                    Request::Clipboard(text),
                ),
                SignMessage::Sign => {
                    &&& after == self
                    &&& match self.psbt {
                        Some(pending) => request matches Some(Request::Sign(bytes)) && bytes@
                            == pending.psbt@,
                        None => request is None,
                    }
                },
            }
        } else {
            after == self && request is None
        }
    }

    /// Takes in an event of the signing form.
    pub fn on_sign_form(&mut self, message: SignMessage) -> (request: Option<Request>)
        ensures
            old(self).sign_form(message, *final(self), request),
            old(self).wf() ==> final(self).wf(),
    {
        let last = match self.stage {
            Stage::Sign => true,
            _ => false,
        };
        if !last || self.broadcast {
            return None;
        }
        match message {
            SignMessage::ChangeMethod => {
                self.signer.direct = !self.signer.direct;
                None
            },
            SignMessage::PsbtEdited(text) => {
                self.signer.psbt_input = text;
                None
            },
            SignMessage::Clipboard(text) => Some(Request::Clipboard(text)),
            SignMessage::Sign => match &self.psbt {
                Some(pending) => Some(Request::Sign(pending.psbt.clone())),
                None => None,
            },
        }
    }

    /// What a signature handed in makes of the wizard, in the last stage,
    /// before the broadcast and with a transaction in hand: the
    /// transaction takes the signature in as it does on its own, and a
    /// signature turned down becomes the warning. Elsewhere nothing changes.
    pub open spec fn signed(self, output: SignerOutput, after: ManagerSendState) -> bool {
        if self.stage is Sign && !self.broadcast && self.psbt is Some {
            &&& after == (ManagerSendState { psbt: after.psbt, warning: after.warning, ..self })
            &&& after.psbt matches Some(pending)
            &&& pending@ == self.psbt->0@.merged(output@)
            &&& after.warning == match self.psbt->0@.outcome(output@) {
                Ok(_) => None,
                Err(e) => Some(Error::Signature(e)),
            }
        } else {
            after == self
        }
    }

    /// Takes in a signature that a signer handed in.
    pub fn on_signed(&mut self, output: SignerOutput)
        ensures
            old(self).signed(output, *final(self)),
            old(self).wf() ==> final(self).wf(),
    {
        let last = match self.stage {
            Stage::Sign => true,
            _ => false,
        };
        if !last || self.broadcast {
            return ;
        }
        match &mut self.psbt {
            Some(pending) => {
                match pending.submit(output) {
                    Ok(_) => {
                        self.warning = None;
                    },
                    Err(e) => {
                        self.warning = Some(Error::Signature(e));
                    },
                }
            },
            None => {},
        }
    }

    /// What asking for the broadcast makes of the wizard, in the last
    /// stage, before the broadcast and with a transaction in hand: nothing
    /// is asked while a signature is missing, or where a signature cannot
    /// be entered into the transaction, and the reason becomes the
    /// warning; otherwise the transaction with its signatures goes to the
    /// daemon. Elsewhere nothing changes and nothing is asked.
    pub open spec fn broadcasting(self, after: ManagerSendState, request: Option<Request>) -> bool {
        if self.stage is Sign && !self.broadcast && self.psbt is Some {
            let pending = self.psbt->0@;
            if !pending.complete() {
                after == (ManagerSendState {
                    warning: Some(Error::Protocol(ProtocolViolation::IncompleteSignatures)),
                    ..self
                }) && request is None
            } else {
                match pending.with_signatures(pending.slots.len()) {
                    Some(bytes) => {
                        &&& after == (ManagerSendState { warning: None, ..self })
                        &&& request matches Some(Request::Broadcast(signed)) && signed@ == bytes
                    },
                    None => after == (ManagerSendState {
                        warning: Some(Error::Validation(ValidationError::Psbt)),
                        ..self
                    }) && request is None,
                }
            }
        } else {
            after == self && request is None
        }
    }

    /// Asks the daemon to broadcast the transaction.
    pub fn broadcast(&mut self) -> (request: Option<Request>)
        ensures
            old(self).broadcasting(*final(self), request),
            old(self).wf() ==> final(self).wf(),
    {
        let last = match self.stage {
            Stage::Sign => true,
            _ => false,
        };
        if !last || self.broadcast {
            return None;
        }
        let signed = match &self.psbt {
            Some(pending) => {
                if !pending.is_complete() {
                    Err(Error::Protocol(ProtocolViolation::IncompleteSignatures))
                } else {
                    match pending.signed_psbt() {
                        Some(bytes) => Ok(bytes),
                        None => Err(Error::Validation(ValidationError::Psbt)),
                    }
                }
            },
            None => {
                return None;
            },
        };
        match signed {
            Ok(bytes) => {
                self.warning = None;
                Some(Request::Broadcast(bytes))
            },
            Err(e) => {
                self.warning = Some(e);
                None
            },
        }
    }

    /// What the daemon's answer to the broadcast makes of the wizard, in
    /// the last stage and before the broadcast: on success the wizard is
    /// over; a failure becomes the warning. Elsewhere nothing changes.
    pub open spec fn broadcasted(self, answer: Result<(), DaemonError>, after: ManagerSendState) -> bool {
        if self.stage is Sign && !self.broadcast {
            match answer {
                Ok(_) => after == (ManagerSendState { broadcast: true, warning: None, ..self }),
                Err(e) => after == (ManagerSendState { warning: Some(Error::Daemon(e)), ..self }),
            }
        } else {
            after == self
        }
    }

    /// Takes in the daemon's answer to the broadcast.
    pub fn on_broadcasted(&mut self, answer: Result<(), DaemonError>)
        ensures
            old(self).broadcasted(answer, *final(self)),
            old(self).wf() ==> final(self).wf(),
    {
        let last = match self.stage {
            Stage::Sign => true,
            _ => false,
        };
        if !last || self.broadcast {
            return ;
        }
        match answer {
            Ok(_) => {
                self.broadcast = true;
                self.warning = None;
            },
            Err(e) => {
                self.warning = Some(Error::Daemon(e));
            },
        }
    }

    /// What an event makes of the wizard, and what it asks of the world
    /// outside. A failure of the daemon becomes the warning and leaves
    /// everything else as it was; an event that the wizard has no use for
    /// changes nothing.
    pub open spec fn updated(self, message: Message, after: ManagerSendState, request: Option<Request>) -> bool {
        match message {
            Message::Vaults(Ok(vaults)) => self.refreshed(vaults@, after) && request is None,
            Message::Vaults(Err(e)) => after == (ManagerSendState {
                warning: Some(Error::Daemon(e)),
                ..self
            }) && request is None,
            Message::Next => self.advanced(after) && request is None,
            Message::Previous => self.retreated(after) && request is None,
            Message::AddRecipient => self.recipient_added(after) && request is None,
            Message::Recipient(i, msg) => self.recipient_changed(i, msg, after) && request is None,
            Message::Input(i, msg) => self.input_changed(i, msg, after) && request is None,
            Message::SpendTx(SpendTxMessage::FeerateEdited(feerate)) => self.feerate_changed(
                feerate,
                after,
            ) && request is None,
            Message::SpendTx(SpendTxMessage::Generate) => self.generating(after, request),
            Message::SpendTx(SpendTxMessage::Generated(answer)) => self.generated(answer, after)
                && request is None,
            Message::SpendTx(SpendTxMessage::Sign(msg)) => self.sign_form(msg, after, request),
            Message::SpendTx(SpendTxMessage::Signed(output)) => self.signed(output, after)
                && request is None,
            Message::SpendTx(SpendTxMessage::Broadcast) => self.broadcasting(after, request),
            Message::SpendTx(SpendTxMessage::Broadcasted(answer)) => self.broadcasted(
                answer,
                after,
            ) && request is None,
            _ => after == self && request is None,
        }
    }

    pub fn update(&mut self, message: Message) -> (request: Option<Request>)
        ensures
            old(self).updated(message, *final(self), request),
            old(self).wf() ==> final(self).wf(),
    {
        match message {
            Message::Vaults(Ok(vaults)) => {
                self.update_vaults(vaults);
                None
            },
            Message::Vaults(Err(e)) => {
                self.warning = Some(Error::Daemon(e));
                None
            },
            Message::Next => {
                self.next();
                None
            },
            Message::Previous => {
                self.previous();
                None
            },
            Message::AddRecipient => {
                self.add_recipient();
                None
            },
            Message::Recipient(i, msg) => {
                self.on_recipient(i, msg);
                None
            },
            Message::Input(i, msg) => {
                self.on_input(i, msg);
                None
            },
            Message::SpendTx(SpendTxMessage::FeerateEdited(feerate)) => {
                self.on_feerate(feerate);
                None
            },
            Message::SpendTx(SpendTxMessage::Generate) => self.generate(),
            Message::SpendTx(SpendTxMessage::Generated(answer)) => {
                self.on_generated(answer);
                None
            },
            Message::SpendTx(SpendTxMessage::Sign(msg)) => self.on_sign_form(msg),
            Message::SpendTx(SpendTxMessage::Signed(output)) => {
                self.on_signed(output);
                None
            },
            Message::SpendTx(SpendTxMessage::Broadcast) => self.broadcast(),
            Message::SpendTx(SpendTxMessage::Broadcasted(answer)) => {
                self.on_broadcasted(answer);
                None
            },
            _ => None,
        }
    }

    /// The request that fills the wizard: the vaults.
    pub fn load(&self) -> (r: Vec<Request>)
        ensures
            r@ == seq![Request::ListVaults],
    {
        let mut r = Vec::new();
        r.push(Request::ListVaults);
        assert(r@ =~= seq![Request::ListVaults]);
        r
    }
}

/// Inputs that cover the outputs as the wizard counts them, with each sum
/// held at `u64::MAX`, hold more than the outputs in truth.
pub proof fn lemma_covered_means_more(state: ManagerSendState)
    requires
        state.covered(),
    ensures
        selected_total(state.vaults@) > output_total(state.outputs@),
{
}

/// From the choice of inputs the wizard goes on only with inputs that
/// hold more than the recipients are to be paid: with as much or less,
/// going on is turned down, the stage stays, and the warning says why.
pub proof fn lemma_next_needs_cover(before: ManagerSendState, after: ManagerSendState)
    requires
        before.stage is SelectInputs,
        !before.broadcast,
        selected_total(before.vaults@) <= output_total(before.outputs@),
        before.advanced(after),
    ensures
        after == (ManagerSendState {
            warning: Some(Error::Protocol(ProtocolViolation::InsufficientInputs)),
            ..before
        }),
{
}

/// The fee stage is entered in two ways only: forward from the choice of
/// inputs, with inputs that hold more than the outputs, or back from the
/// last stage; and whichever way, a well-formed wizard enters it with
/// inputs that hold more than the outputs.
pub proof fn lemma_fee_stage_entered(
    before: ManagerSendState,
    message: Message,
    after: ManagerSendState,
    request: Option<Request>,
)
    requires
        before.updated(message, after, request),
        !(before.stage is SelectFee),
        after.stage is SelectFee,
    ensures
        (before.stage is SelectInputs && message is Next && before.covered()) || (before.stage
            is Sign && message is Previous),
        before.wf() ==> selected_total(after.vaults@) > output_total(after.outputs@),
{
}

/// Removing recipient `i` of `n` leaves `n - 1` recipients: those before
/// `i` stay in place, those after it move up by one, and none is altered.
pub proof fn lemma_recipient_deleted(before: ManagerSendState, i: usize, after: ManagerSendState)
    requires
        before.stage is SelectOutputs,
        i < before.outputs@.len(),
        before.recipient_changed(i, RecipientMessage::Delete, after),
    ensures
        after.outputs@.len() == before.outputs@.len() - 1,
        forall|j: int| 0 <= j < i ==> after.outputs@[j] == before.outputs@[j],
        forall|j: int| i <= j < after.outputs@.len() ==> after.outputs@[j] == before.outputs@[j + 1],
{
}

/// A recipient without an address keeps the wizard in the first stage,
/// whatever its amount field holds.
pub proof fn lemma_blank_address_blocks(before: ManagerSendState, k: int, after: ManagerSendState)
    requires
        before.stage is SelectOutputs,
        0 <= k < before.outputs@.len(),
        before.outputs@[k].address@.len() == 0,
        before.advanced(after),
    ensures
        after.stage is SelectOutputs,
{
    assert(!before.outputs@[k].is_valid());
}

/// A change of the feerate does away with the transaction in hand, and
/// the last stage cannot be reached from there by going on.
pub proof fn lemma_feerate_change_discards(
    before: ManagerSendState,
    feerate: u32,
    after: ManagerSendState,
    later: ManagerSendState,
)
    requires
        before.stage is SelectFee,
        MIN_FEERATE <= feerate <= MAX_FEERATE,
        feerate != before.feerate,
        before.feerate_changed(feerate, after),
        after.advanced(later),
    ensures
        after.psbt is None,
        after.feerate == feerate,
        later.stage is SelectFee,
{
}

/// Refreshing twice with the same snapshot leaves what refreshing once
/// leaves: the second refresh changes no candidate, no choice, and
/// nothing else of the wizard.
pub proof fn lemma_refresh_idempotent(
    start: ManagerSendState,
    once: ManagerSendState,
    twice: ManagerSendState,
    snapshot: Seq<Vault>,
)
    requires
        start.refreshed(snapshot, once),
        once.refreshed(snapshot, twice),
    ensures
        twice.vaults@ == once.vaults@,
        twice == (ManagerSendState { vaults: twice.vaults, ..once }),
{
    assert forall|i: int| 0 <= i < snapshot.len() implies twice.vaults@[i] == once.vaults@[i] by {
        let outpoint = snapshot[i].outpoint@;
        if once.vaults@[i].selected {
            assert(was_selected(once.vaults@, outpoint));
        }
        if was_selected(once.vaults@, outpoint) {
            let j = choose|j: int|
                0 <= j < once.vaults@.len() && (#[trigger] once.vaults@[j]).selected
                    && once.vaults@[j].vault.outpoint@ == outpoint;
            assert(was_selected(start.vaults@, snapshot[j].outpoint@));
        }
    }
    assert(twice.vaults@ =~= once.vaults@);
}

} // verus!
