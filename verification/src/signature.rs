//! The transaction under construction and the signatures collected for it.

use vstd::prelude::*;
use vstd::slice::slice_subrange;
use crate::chain::{attach_signature, check_signature, psbt_with_signature, signature_verifies};
use crate::error::SignatureError;
use crate::message::{SignerOutput, SignerSlot};

verus! {

/// What the contracts say of a mandatory signature.
pub ghost struct SlotView {
    pub input: u32,
    pub key: Seq<u8>,
    pub sighash: Seq<u8>,
    pub sighash_flag: u8,
}

impl View for SignerSlot {
    type V = SlotView;

    open spec fn view(&self) -> SlotView {
        SlotView {
            input: self.input,
            key: self.key@,
            sighash: self.sighash@,
            sighash_flag: self.sighash_flag,
        }
    }
}

/// What the contracts say of a signature handed in.
pub ghost struct SubmissionView {
    pub input: u32,
    pub key: Seq<u8>,
    pub signature: Seq<u8>,
}

impl View for SignerOutput {
    type V = SubmissionView;

    open spec fn view(&self) -> SubmissionView {
        SubmissionView { input: self.input, key: self.key@, signature: self.signature@ }
    }
}

/// What the contracts say of a transaction under construction: the
/// slots, and for each slot, at the same place, the signature it holds.
pub ghost struct PendingView {
    pub psbt: Seq<u8>,
    pub feerate: u32,
    pub slots: Seq<SlotView>,
    pub signatures: Seq<Option<Seq<u8>>>,
}

/// How a signature handed in was taken.
#[derive(Clone, Copy, Debug, PartialEq, Eq, Structural)]
pub enum Collected {
    /// The slot was empty and now holds the signature.
    Added,
    /// The slot held a signature already, which stays.
    AlreadySigned,
}

/// A mandatory signature and, once it has been collected, the signature.
#[derive(Debug)]
pub struct SlotState {
    pub slot: SignerSlot,
    pub signature: Option<Vec<u8>>,
}

/// The transaction under construction: the serialized partially signed
/// transaction as it was generated, the feerate it was generated with,
/// and the signatures that must be collected, each with what has been
/// collected for it.
#[derive(Debug)]
pub struct PendingPsbt {
    pub psbt: Vec<u8>,
    pub feerate: u32,
    pub slots: Vec<SlotState>,
}

/// The slots of a list of slot states, in order.
pub open spec fn slot_views(slots: Seq<SlotState>) -> Seq<SlotView> {
    Seq::new(slots.len(), |i: int| slots[i].slot@)
}

/// The signatures that a list of slot states holds, in order.
pub open spec fn signature_views(slots: Seq<SlotState>) -> Seq<Option<Seq<u8>>> {
    Seq::new(
        slots.len(),
        |i: int|
            match slots[i].signature {
                Some(s) => Some(s@),
                None => None,
            },
    )
}

impl View for PendingPsbt {
    type V = PendingView;

    open spec fn view(&self) -> PendingView {
        PendingView {
            psbt: self.psbt@,
            feerate: self.feerate,
            slots: slot_views(self.slots@),
            signatures: signature_views(self.slots@),
        }
    }
}

/// Whether `signature` fills `slot`: it ends with the slot's
/// signature-hash flag, and what stands before the flag is a signature of
/// the slot's digest under the slot's key.
pub open spec fn fills(slot: SlotView, signature: Seq<u8>) -> bool {
    &&& signature.len() > 0
    &&& signature.last() == slot.sighash_flag
    &&& signature_verifies(slot.sighash, slot.key, signature.drop_last())
}

/// `k` is the first slot for this input and key.
pub open spec fn is_slot_for(slots: Seq<SlotView>, input: u32, key: Seq<u8>, k: int) -> bool {
    &&& 0 <= k < slots.len()
    &&& slots[k].input == input
    &&& slots[k].key == key
    &&& forall|j: int| 0 <= j < k ==> !((#[trigger] slots[j]).input == input && slots[j].key == key)
}

/// There is a slot for this input and key.
pub open spec fn has_slot(slots: Seq<SlotView>, input: u32, key: Seq<u8>) -> bool {
    exists|k: int| is_slot_for(slots, input, key, k)
}

/// The first slot for this input and key, where there is one.
pub open spec fn slot_for(slots: Seq<SlotView>, input: u32, key: Seq<u8>) -> int {
    choose|k: int| is_slot_for(slots, input, key, k)
}

/// The views of a run of signatures handed in, in order.
pub open spec fn submission_views(outputs: Seq<SignerOutput>) -> Seq<SubmissionView> {
    Seq::new(outputs.len(), |i: int| outputs[i]@)
}

/// Every slot holds a signature.
pub open spec fn all_signed(signatures: Seq<Option<Seq<u8>>>) -> bool {
    forall|i: int| 0 <= i < signatures.len() ==> (#[trigger] signatures[i]) is Some
}

/// The number of slots that hold a signature.
pub open spec fn signed_count(signatures: Seq<Option<Seq<u8>>>) -> nat
    decreases signatures.len(),
{
    if signatures.len() == 0 {
        0
    } else {
        signed_count(signatures.drop_last()) + if signatures.last() is Some {
            1nat
        } else {
            0nat
        }
    }
}

impl PendingView {
    /// One place for a signature per slot, and nothing in a place but a
    /// signature that fills the slot.
    pub open spec fn wf(self) -> bool {
        &&& self.signatures.len() == self.slots.len()
        &&& forall|i: int|
            0 <= i < self.signatures.len() ==> ((#[trigger] self.signatures[i]) matches Some(s)
                ==> fills(self.slots[i], s))
    }

    /// How a signature handed in is taken: turned down where no slot has
    /// its input and key or where it does not fill that slot; left aside
    /// where the slot is signed already; else added.
    pub open spec fn outcome(self, s: SubmissionView) -> Result<Collected, SignatureError> {
        if !has_slot(self.slots, s.input, s.key) {
            Err(SignatureError::UnknownSigner)
        } else if !fills(self.slots[slot_for(self.slots, s.input, s.key)], s.signature) {
            Err(SignatureError::SighashMismatch)
        } else if self.signatures[slot_for(self.slots, s.input, s.key)] is Some {
            Ok(Collected::AlreadySigned)
        } else {
            Ok(Collected::Added)
        }
    }

    /// Every mandatory signature has been collected.
    pub open spec fn complete(self) -> bool {
        all_signed(self.signatures)
    }

    /// What a signature handed in makes of the transaction: where it is
    /// added, its slot holds it; in every other case nothing changes.
    pub open spec fn merged(self, s: SubmissionView) -> PendingView {
        if self.outcome(s) == Ok::<Collected, SignatureError>(Collected::Added) {
            PendingView {
                signatures: self.signatures.update(
                    slot_for(self.slots, s.input, s.key),
                    Some(s.signature),
                ),
                ..self
            }
        } else {
            self
        }
    }

    /// What a run of signatures handed in makes of the transaction, each
    /// taken in after those before it.
    pub open spec fn merged_all(self, handed: Seq<SubmissionView>) -> PendingView
        decreases handed.len(),
    {
        if handed.len() == 0 {
            self
        } else {
            self.merged_all(handed.drop_last()).merged(handed.last())
        }
    }

    /// The serialized transaction with the signatures of the first `n`
    /// slots entered, slot after slot; `None` where one cannot be entered.
    pub open spec fn with_signatures(self, n: nat) -> Option<Seq<u8>>
        decreases n,
    {
        if n == 0 {
            Some(self.psbt)
        } else {
            match (self.with_signatures((n - 1) as nat), self.signatures[n - 1]) {
                (Some(bytes), Some(signature)) => psbt_with_signature(
                    bytes,
                    self.slots[n - 1].input,
                    self.slots[n - 1].key,
                    signature,
                ),
                (Some(bytes), None) => Some(bytes),
                (None, _) => None,
            }
        }
    }
}

/// Whether two byte strings are the same.
pub fn same_bytes(a: &[u8], b: &[u8]) -> (r: bool)
    ensures
        r == (a@ == b@),
{
    if a.len() != b.len() {
        return false;
    }
    let mut i: usize = 0;
    while i < a.len()
        invariant
            i <= a.len(),
            a.len() == b.len(),
            forall|j: int| 0 <= j < i ==> a@[j] == b@[j],
        decreases a.len() - i,
    {
        if a[i] != b[i] {
            return false;
        }
        i += 1;
    }
    assert(a@ =~= b@);
    true
}

/// Whether `signature` ends with `flag`.
pub fn ends_with_flag(signature: &[u8], flag: u8) -> (r: bool)
    ensures
        r == (signature@.len() > 0 && signature@.last() == flag),
{
    signature.len() > 0 && signature[signature.len() - 1] == flag
}

impl SignerSlot {
    /// Whether `signature` fills the slot.
    pub fn filled_by(&self, signature: &[u8]) -> (r: bool)
        ensures
            r == fills(self@, signature@),
    {
        if !ends_with_flag(signature, self.sighash_flag) {
            return false;
        }
        let der = slice_subrange(signature, 0, signature.len() - 1);
        assert(der@ =~= signature@.drop_last());
        check_signature(self.sighash.as_slice(), self.key.as_slice(), der)
    }
}

impl PendingPsbt {
    /// A transaction fresh from generation: no slot is signed.
    pub fn new(psbt: Vec<u8>, feerate: u32, slots: Vec<SignerSlot>) -> (r: PendingPsbt)
        ensures
            r.psbt == psbt,
            r.feerate == feerate,
            r@.slots == Seq::new(slots@.len(), |i: int| slots@[i]@),
            r@.signatures == Seq::new(slots@.len(), |i: int| None::<Seq<u8>>),
            r@.wf(),
    {
        let mut rest = slots;
        let mut states: Vec<SlotState> = Vec::new();
        while rest.len() > 0
            invariant
                states@.len() + rest@.len() == slots@.len(),
                forall|j: int|
                    0 <= j < states@.len() ==> (#[trigger] states@[j]).slot == slots@[j]
                        && states@[j].signature is None,
                forall|j: int|
                    0 <= j < rest@.len() ==> (#[trigger] rest@[j]) == slots@[states@.len() + j],
            decreases rest@.len(),
        {
            let slot = rest.remove(0);
            states.push(SlotState { slot, signature: None });
        }
        let r = PendingPsbt { psbt, feerate, slots: states };
        proof {
            assert(r@.slots =~= Seq::new(slots@.len(), |i: int| slots@[i]@));
            assert(r@.signatures =~= Seq::new(slots@.len(), |i: int| None::<Seq<u8>>));
        }
        r
    }

    /// The first slot for this input and key.
    pub fn find_slot(&self, input: u32, key: &[u8]) -> (r: Option<usize>)
        ensures
            match r {
                Some(k) => is_slot_for(self@.slots, input, key@, k as int),
                None => !has_slot(self@.slots, input, key@),
            },
    {
        let mut i: usize = 0;
        while i < self.slots.len()
            invariant
                i <= self.slots.len(),
                forall|j: int|
                    0 <= j < i ==> !((#[trigger] self@.slots[j]).input == input
                        && self@.slots[j].key == key@),
            decreases self.slots.len() - i,
        {
            if self.slots[i].slot.input == input && same_bytes(
                self.slots[i].slot.key.as_slice(),
                key,
            ) {
                return Some(i);
            }
            i += 1;
        }
        proof {
            assert forall|k: int| !is_slot_for(self@.slots, input, key@, k) by {
                if 0 <= k < self@.slots.len() {
                    assert(!(self@.slots[k].input == input && self@.slots[k].key == key@));
                }
            }
        }
        None
    }

    /// Takes in a signature that a signer handed in. One that belongs to
    /// no slot, or does not fill its slot, is turned down and changes
    /// nothing; one for a slot that is signed already is left aside.
    pub fn submit(&mut self, output: SignerOutput) -> (r: Result<Collected, SignatureError>)
        ensures
            r == old(self)@.outcome(output@),
            final(self)@ == old(self)@.merged(output@),
            old(self)@.wf() ==> final(self)@.wf(),
    {
        proof {
            if old(self)@.wf() {
                lemma_merge_grows(old(self)@, output@);
            }
        }
        let k = match self.find_slot(output.input, output.key.as_slice()) {
            Some(k) => k,
            None => {
                return Err(SignatureError::UnknownSigner);
            },
        };
        proof {
            lemma_slot_unique(self@.slots, output.input, output.key@, k as int);
        }
        if !self.slots[k].slot.filled_by(output.signature.as_slice()) {
            return Err(SignatureError::SighashMismatch);
        }
        if self.slots[k].signature.is_some() {
            assert(self@.signatures[k as int] is Some);
            return Ok(Collected::AlreadySigned);
        }
        assert(self@.signatures[k as int] is None);
        let mut state = self.slots.remove(k);
        state.signature = Some(output.signature);
        self.slots.insert(k, state);
        proof {
            assert(self@.slots =~= old(self)@.slots);
            assert(self@.signatures =~= old(self)@.signatures.update(
                k as int,
                Some(output@.signature),
            ));
        }
        Ok(Collected::Added)
    }

    /// Takes in what the signers handed in, one signature after another,
    /// and says of each how it was taken.
    pub fn submit_all(&mut self, outputs: Vec<SignerOutput>) -> (r: Vec<
        Result<Collected, SignatureError>,
    >)
        ensures
            final(self)@ == old(self)@.merged_all(submission_views(outputs@)),
            r@.len() == outputs@.len(),
            forall|i: int|
                0 <= i < r@.len() ==> #[trigger] r@[i] == old(self)@.merged_all(
                    submission_views(outputs@).take(i),
                ).outcome(outputs@[i]@),
            old(self)@.wf() ==> final(self)@.wf(),
    {
        let ghost handed = submission_views(outputs@);
        let mut rest = outputs;
        let mut outcomes: Vec<Result<Collected, SignatureError>> = Vec::new();
        while rest.len() > 0
            invariant
                handed == submission_views(outputs@),
                outcomes@.len() + rest@.len() == outputs@.len(),
                forall|j: int|
                    0 <= j < rest@.len() ==> (#[trigger] rest@[j]) == outputs@[outcomes@.len() + j],
                self@ == old(self)@.merged_all(handed.take(outcomes@.len() as int)),
                forall|i: int|
                    0 <= i < outcomes@.len() ==> #[trigger] outcomes@[i] == old(self)@.merged_all(
                        handed.take(i),
                    ).outcome(outputs@[i]@),
                old(self)@.wf() ==> self@.wf(),
            decreases rest@.len(),
        {
            let ghost n = outcomes@.len() as int;
            proof {
                assert(handed.take(n + 1).drop_last() =~= handed.take(n));
                assert(handed.take(n + 1).last() == outputs@[n]@);
            }
            let output = rest.remove(0);
            let outcome = self.submit(output);
            outcomes.push(outcome);
        }
        proof {
            assert(handed.take(outcomes@.len() as int) =~= handed);
        }
        outcomes
    }

    /// Whether every mandatory signature has been collected.
    pub fn is_complete(&self) -> (r: bool)
        ensures
            r == self@.complete(),
    {
        let mut i: usize = 0;
        while i < self.slots.len()
            invariant
                i <= self.slots.len(),
                forall|j: int| 0 <= j < i ==> (#[trigger] self@.signatures[j]) is Some,
            decreases self.slots.len() - i,
        {
            if self.slots[i].signature.is_none() {
                assert(self@.signatures[i as int] is None);
                return false;
            }
            assert(self@.signatures[i as int] is Some);
            i += 1;
        }
        true
    }

    /// How many slots hold a signature.
    pub fn collected(&self) -> (r: usize)
        ensures
            r == signed_count(self@.signatures),
    {
        let mut count: usize = 0;
        let mut i: usize = 0;
        while i < self.slots.len()
            invariant
                i <= self.slots.len(),
                count <= i,
                count == signed_count(self@.signatures.take(i as int)),
            decreases self.slots.len() - i,
        {
            proof {
                assert(self@.signatures.take(i + 1).drop_last() =~= self@.signatures.take(i as int));
            }
            if self.slots[i].signature.is_some() {
                count += 1;
            }
            i += 1;
        }
        proof {
            assert(self@.signatures.take(i as int) =~= self@.signatures);
        }
        count
    }

    /// The serialized transaction with every collected signature entered;
    /// `None` where a signature cannot be entered.
    pub fn signed_psbt(&self) -> (r: Option<Vec<u8>>)
        ensures
            match r {
                Some(bytes) => self@.with_signatures(self@.slots.len()) == Some(bytes@),
                None => self@.with_signatures(self@.slots.len()) is None,
            },
    {
        let mut bytes = self.psbt.clone();
        let mut i: usize = 0;
        while i < self.slots.len()
            invariant
                i <= self.slots.len(),
                self@.with_signatures(i as nat) == Some(bytes@),
            decreases self.slots.len() - i,
        {
            match &self.slots[i].signature {
                Some(signature) => {
                    match attach_signature(
                        bytes.as_slice(),
                        self.slots[i].slot.input,
                        self.slots[i].slot.key.as_slice(),
                        signature.as_slice(),
                    ) {
                        Some(signed) => {
                            bytes = signed;
                        },
                        None => {
                            proof {
                                lemma_with_signatures_stays_none(
                                    self@,
                                    (i + 1) as nat,
                                    self@.slots.len(),
                                );
                            }
                            return None;
                        },
                    }
                },
                None => {},
            }
            i += 1;
        }
        Some(bytes)
    }
}

/// Once a signature could not be entered, no later one mends it.
pub proof fn lemma_with_signatures_stays_none(pending: PendingView, n: nat, m: nat)
    requires
        pending.with_signatures(n) is None,
        n <= m,
    ensures
        pending.with_signatures(m) is None,
    decreases m,
{
    if n < m {
        lemma_with_signatures_stays_none(pending, n, (m - 1) as nat);
    }
}

/// Two slots cannot both be the first for one input and key.
pub proof fn lemma_slot_unique(slots: Seq<SlotView>, input: u32, key: Seq<u8>, k: int)
    requires
        is_slot_for(slots, input, key, k),
    ensures
        has_slot(slots, input, key),
        slot_for(slots, input, key) == k,
{
    let c = slot_for(slots, input, key);
    assert(is_slot_for(slots, input, key, c));
    if c < k {
        assert(!(slots[c].input == input && slots[c].key == key));
    }
    if k < c {
        assert(!(slots[k].input == input && slots[k].key == key));
    }
}

/// Two signatures taken in as a run are taken in one after the other.
pub proof fn lemma_merged_pair(pending: PendingView, a: SubmissionView, b: SubmissionView)
    ensures
        pending.merged_all(seq![a, b]) == pending.merged(a).merged(b),
{
    let pair = seq![a, b];
    assert(pair.drop_last() =~= seq![a]);
    assert(seq![a].drop_last() =~= Seq::<SubmissionView>::empty());
    assert(pending.merged_all(Seq::<SubmissionView>::empty()) == pending);
    assert(pending.merged_all(seq![a]) == pending.merged(a));
}

/// Signatures merge in any order: two signatures handed in for different
/// slots, or the same signature handed in twice, leave the same
/// transaction whichever comes first.
pub proof fn lemma_merge_commutes(pending: PendingView, a: SubmissionView, b: SubmissionView)
    requires
        pending.wf(),
        a.input != b.input || a.key != b.key || a.signature == b.signature,
    ensures
        pending.merged(a).merged(b) == pending.merged(b).merged(a),
        pending.merged_all(seq![a, b]) == pending.merged_all(seq![b, a]),
        pending.merged_all(seq![a, b]).with_signatures(pending.slots.len())
            == pending.merged_all(seq![b, a]).with_signatures(pending.slots.len()),
{
    lemma_merged_pair(pending, a, b);
    lemma_merged_pair(pending, b, a);
    let ab = pending.merged(a).merged(b);
    let ba = pending.merged(b).merged(a);
    assert(pending.merged(a).slots == pending.slots);
    assert(pending.merged(b).slots == pending.slots);
    if has_slot(pending.slots, a.input, a.key) && has_slot(pending.slots, b.input, b.key) {
        let ka = slot_for(pending.slots, a.input, a.key);
        let kb = slot_for(pending.slots, b.input, b.key);
        assert(is_slot_for(pending.slots, a.input, a.key, ka));
        assert(is_slot_for(pending.slots, b.input, b.key, kb));
        if ka == kb {
            assert(a.input == b.input && a.key == b.key);
        }
        assert(ab.signatures =~= ba.signatures);
    }
    assert(ab.signatures =~= ba.signatures);
}

/// Taking a signature in keeps the transaction well formed, never empties
/// a slot, and never changes a signature that a slot holds.
pub proof fn lemma_merge_grows(pending: PendingView, s: SubmissionView)
    requires
        pending.wf(),
    ensures
        pending.merged(s).wf(),
        pending.merged(s).psbt == pending.psbt,
        pending.merged(s).slots == pending.slots,
        forall|i: int|
            0 <= i < pending.signatures.len() && (#[trigger] pending.signatures[i]) is Some
                ==> pending.merged(s).signatures[i] == pending.signatures[i],
        pending.outcome(s) is Err ==> pending.merged(s) == pending,
{
    if pending.outcome(s) == Ok::<Collected, SignatureError>(Collected::Added) {
        let k = slot_for(pending.slots, s.input, s.key);
        assert(is_slot_for(pending.slots, s.input, s.key, k));
    }
}

} // verus!
