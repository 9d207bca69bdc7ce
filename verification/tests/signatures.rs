use bitcoin::consensus::encode::{deserialize, serialize};
use bitcoin::secp256k1::{Message, PublicKey, Secp256k1, SecretKey};
use bitcoin::util::psbt::PartiallySignedTransaction;
use vault_coordinator::error::SignatureError;
use vault_coordinator::message::{SignerOutput, SignerSlot};
use vault_coordinator::signature::{ends_with_flag, same_bytes, Collected, PendingPsbt};

const SIGHASH_ALL: u8 = 1;

fn unsigned_psbt(inputs: u32) -> Vec<u8> {
    let tx = bitcoin::Transaction {
        version: 2,
        lock_time: 0,
        input: (0..inputs)
            .map(|vout| bitcoin::TxIn {
                previous_output: bitcoin::OutPoint { txid: Default::default(), vout },
                script_sig: bitcoin::Script::new(),
                sequence: 0xffff_ffff,
                witness: Vec::new(),
            })
            .collect(),
        output: vec![bitcoin::TxOut { value: 90_000, script_pubkey: bitcoin::Script::new() }],
    };
    serialize(&PartiallySignedTransaction::from_unsigned_tx(tx).unwrap())
}

fn secret(seed: u8) -> SecretKey {
    SecretKey::from_slice(&[seed; 32]).unwrap()
}

fn key_of(seed: u8) -> Vec<u8> {
    PublicKey::from_secret_key(&Secp256k1::new(), &secret(seed)).serialize().to_vec()
}

fn digest(fill: u8) -> Vec<u8> {
    vec![fill; 32]
}

fn sign(seed: u8, digest: &[u8]) -> Vec<u8> {
    let message = Message::from_slice(digest).unwrap();
    let mut signature = Secp256k1::new().sign(&message, &secret(seed)).serialize_der().to_vec();
    signature.push(SIGHASH_ALL);
    signature
}

fn slot(input: u32, seed: u8) -> SignerSlot {
    SignerSlot {
        input,
        key: key_of(seed),
        sighash: digest(0xab + input as u8),
        sighash_flag: SIGHASH_ALL,
    }
}

fn handed_in(input: u32, seed: u8) -> SignerOutput {
    SignerOutput { input, key: key_of(seed), signature: sign(seed, &digest(0xab + input as u8)) }
}

fn two_signers() -> PendingPsbt {
    PendingPsbt::new(unsigned_psbt(1), 12, vec![slot(0, 1), slot(0, 2)])
}

fn held(pending: &PendingPsbt) -> Vec<Option<Vec<u8>>> {
    pending.slots.iter().map(|s| s.signature.clone()).collect()
}

#[test]
fn a_fresh_transaction_holds_no_signature() {
    let pending = two_signers();
    assert_eq!(pending.feerate, 12);
    assert_eq!(pending.psbt, unsigned_psbt(1));
    assert_eq!(pending.slots.len(), 2);
    assert_eq!(pending.slots[0].slot.key, key_of(1));
    assert_eq!(pending.slots[1].slot.key, key_of(2));
    assert_eq!(held(&pending), vec![None, None]);
    assert_eq!(pending.collected(), 0);
    assert!(!pending.is_complete());
}

#[test]
fn a_transaction_that_nobody_must_sign_is_complete() {
    let pending = PendingPsbt::new(unsigned_psbt(1), 1, Vec::new());
    assert!(pending.is_complete());
    assert_eq!(pending.collected(), 0);
    assert_eq!(pending.signed_psbt(), Some(unsigned_psbt(1)));
}

#[test]
fn a_signature_that_fills_its_slot_is_added() {
    let mut pending = two_signers();
    let signature = sign(2, &digest(0xab));
    assert_eq!(pending.submit(handed_in(0, 2)), Ok(Collected::Added));
    assert_eq!(held(&pending), vec![None, Some(signature)]);
    assert_eq!(pending.collected(), 1);
    assert!(!pending.is_complete());
    assert_eq!(pending.submit(handed_in(0, 1)), Ok(Collected::Added));
    assert_eq!(pending.collected(), 2);
    assert!(pending.is_complete());
}

#[test]
fn a_signature_of_another_digest_is_turned_down() {
    let mut pending = two_signers();
    let wrong = SignerOutput { input: 0, key: key_of(1), signature: sign(1, &digest(0xcd)) };
    assert_eq!(pending.submit(wrong), Err(SignatureError::SighashMismatch));
    assert_eq!(held(&pending), vec![None, None]);
}

#[test]
fn a_signature_under_another_key_is_turned_down() {
    let mut pending = two_signers();
    let wrong = SignerOutput { input: 0, key: key_of(1), signature: sign(2, &digest(0xab)) };
    assert_eq!(pending.submit(wrong), Err(SignatureError::SighashMismatch));
    assert_eq!(held(&pending), vec![None, None]);
}

#[test]
fn a_signature_with_another_flag_is_turned_down() {
    let mut pending = two_signers();
    let mut signature = sign(1, &digest(0xab));
    let last = signature.len() - 1;
    signature[last] = 0x81;
    let wrong = SignerOutput { input: 0, key: key_of(1), signature };
    assert_eq!(pending.submit(wrong), Err(SignatureError::SighashMismatch));
    let empty = SignerOutput { input: 0, key: key_of(1), signature: Vec::new() };
    assert_eq!(pending.submit(empty), Err(SignatureError::SighashMismatch));
    let bare = SignerOutput { input: 0, key: key_of(1), signature: vec![SIGHASH_ALL] };
    assert_eq!(pending.submit(bare), Err(SignatureError::SighashMismatch));
    assert_eq!(held(&pending), vec![None, None]);
}

#[test]
fn a_signature_for_no_slot_is_turned_down() {
    let mut pending = two_signers();
    assert_eq!(pending.submit(handed_in(0, 3)), Err(SignatureError::UnknownSigner));
    assert_eq!(pending.submit(handed_in(1, 1)), Err(SignatureError::UnknownSigner));
    assert_eq!(held(&pending), vec![None, None]);
}

#[test]
fn a_turned_down_signature_leaves_collected_ones_alone() {
    let mut pending = two_signers();
    pending.submit(handed_in(0, 1)).unwrap();
    let before = held(&pending);
    let wrong = SignerOutput { input: 0, key: key_of(2), signature: sign(2, &digest(0x01)) };
    assert_eq!(pending.submit(wrong), Err(SignatureError::SighashMismatch));
    assert_eq!(held(&pending), before);
    assert_eq!(pending.psbt, unsigned_psbt(1));
}

#[test]
fn a_signed_slot_keeps_its_signature() {
    let mut pending = two_signers();
    pending.submit(handed_in(0, 1)).unwrap();
    let before = held(&pending);
    assert_eq!(pending.submit(handed_in(0, 1)), Ok(Collected::AlreadySigned));
    assert_eq!(held(&pending), before);
}

#[test]
fn signatures_merge_in_any_order() {
    let mut first = two_signers();
    first.submit(handed_in(0, 1)).unwrap();
    first.submit(handed_in(0, 2)).unwrap();
    let mut second = two_signers();
    second.submit(handed_in(0, 2)).unwrap();
    second.submit(handed_in(0, 1)).unwrap();
    assert_eq!(held(&first), held(&second));
    assert_eq!(first.signed_psbt(), second.signed_psbt());
    assert!(first.signed_psbt().is_some());
}

#[test]
fn the_signed_transaction_carries_the_signatures() {
    let mut pending = PendingPsbt::new(unsigned_psbt(2), 3, vec![slot(0, 1), slot(1, 1), slot(1, 2)]);
    pending.submit(handed_in(1, 2)).unwrap();
    pending.submit(handed_in(0, 1)).unwrap();
    let bytes = pending.signed_psbt().unwrap();
    assert_ne!(bytes, unsigned_psbt(2));
    let psbt: PartiallySignedTransaction = deserialize(&bytes).unwrap();
    assert_eq!(psbt.inputs[0].partial_sigs.len(), 1);
    assert_eq!(psbt.inputs[1].partial_sigs.len(), 1);
    let first = bitcoin::PublicKey::from_slice(&key_of(1)).unwrap();
    let second = bitcoin::PublicKey::from_slice(&key_of(2)).unwrap();
    assert_eq!(psbt.inputs[0].partial_sigs[&first], sign(1, &digest(0xab)));
    assert_eq!(psbt.inputs[1].partial_sigs[&second], sign(2, &digest(0xac)));
    assert_eq!(pending.psbt, unsigned_psbt(2));
}

#[test]
fn no_signed_transaction_comes_of_bytes_that_do_not_parse() {
    let mut pending = PendingPsbt::new(vec![1, 2, 3], 3, vec![slot(0, 1)]);
    assert_eq!(pending.signed_psbt(), Some(vec![1, 2, 3]));
    pending.submit(handed_in(0, 1)).unwrap();
    assert_eq!(pending.signed_psbt(), None);
}

#[test]
fn no_signed_transaction_comes_of_a_slot_for_a_missing_input() {
    let mut pending = PendingPsbt::new(unsigned_psbt(1), 3, vec![slot(4, 1)]);
    pending.submit(handed_in(4, 1)).unwrap();
    assert!(pending.is_complete());
    assert_eq!(pending.signed_psbt(), None);
}

#[test]
fn the_first_of_two_slots_for_one_key_takes_the_signature() {
    let mut pending = PendingPsbt::new(unsigned_psbt(1), 3, vec![slot(0, 1), slot(0, 1)]);
    assert_eq!(pending.find_slot(0, &key_of(1)), Some(0));
    assert_eq!(pending.find_slot(0, &key_of(2)), None);
    pending.submit(handed_in(0, 1)).unwrap();
    assert!(pending.slots[0].signature.is_some());
    assert!(pending.slots[1].signature.is_none());
}

#[test]
fn slots_check_signatures() {
    let slot = slot(0, 1);
    assert!(slot.filled_by(&sign(1, &digest(0xab))));
    assert!(!slot.filled_by(&sign(1, &digest(0xac))));
    assert!(!slot.filled_by(&sign(2, &digest(0xab))));
    assert!(!slot.filled_by(&[]));
}

#[test]
fn bytes_compare_by_content() {
    assert!(same_bytes(&[], &[]));
    assert!(same_bytes(&[1, 2], &[1, 2]));
    assert!(!same_bytes(&[1, 2], &[1, 3]));
    assert!(!same_bytes(&[1, 2], &[1, 2, 3]));
    assert!(ends_with_flag(&[9, 1], 1));
    assert!(!ends_with_flag(&[1, 9], 1));
    assert!(!ends_with_flag(&[], 0));
}

#[test]
fn a_run_of_signatures_is_taken_one_after_another() {
    let mut pending = two_signers();
    let wrong = SignerOutput { input: 0, key: key_of(2), signature: sign(2, &digest(0x01)) };
    let outcomes = pending.submit_all(vec![
        handed_in(0, 2),
        wrong,
        handed_in(0, 2),
        handed_in(0, 9),
        handed_in(0, 1),
    ]);
    assert_eq!(
        outcomes,
        vec![
            Ok(Collected::Added),
            Err(SignatureError::SighashMismatch),
            Ok(Collected::AlreadySigned),
            Err(SignatureError::UnknownSigner),
            Ok(Collected::Added),
        ]
    );
    assert!(pending.is_complete());
    assert_eq!(held(&pending), vec![Some(sign(1, &digest(0xab))), Some(sign(2, &digest(0xab)))]);
    assert!(pending.submit_all(Vec::new()).is_empty());
    assert!(pending.is_complete());
}
