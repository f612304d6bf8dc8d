use swap_tx::error::TxError;
use swap_tx::finalize::{Buy, Cancel, Funding, Lock, Punish, Refund, SubTransaction, TxKind};
use swap_tx::psbt::{Input, Output, PartialSig, PartiallySignedTransaction, SigHashType};
use swap_tx::script::Path;
use swap_tx::sighash::{sign_input, signature_hash, TxInRef};
use swap_tx::transaction::{OutPoint, Transaction, TxIn, TxOut};
use swap_tx::tx::Tx;
use swap_tx::witness::SpendCondition;

const CHECKSIG: u8 = 0xac;
const CHECKSIGVERIFY: u8 = 0xad;

fn secret(n: u8) -> [u8; 32] {
    let mut key = [0u8; 32];
    key[31] = n;
    key
}

fn public(n: u8) -> Vec<u8> {
    let secp = bitcoin::secp256k1::Secp256k1::new();
    let sk = bitcoin::secp256k1::SecretKey::from_slice(&secret(n)).unwrap();
    bitcoin::secp256k1::PublicKey::from_secret_key(&secp, &sk).serialize().to_vec()
}

fn push(script: &mut Vec<u8>, data: &[u8]) {
    script.push(data.len() as u8);
    script.extend_from_slice(data);
}

/// `<a> CHECKSIGVERIFY <b> CHECKSIG`
fn two_of_two(a: u8, b: u8) -> Vec<u8> {
    let mut script = vec![];
    push(&mut script, &public(a));
    script.push(CHECKSIGVERIFY);
    push(&mut script, &public(b));
    script.push(CHECKSIG);
    script
}

/// `IF <a> CHECKSIGVERIFY <b> CHECKSIG ELSE 10 CSV DROP <c> CHECKSIGVERIFY <d> CHECKSIG ENDIF`
fn two_branches(a: u8, b: u8, c: u8, d: u8) -> Vec<u8> {
    let mut script = vec![0x63];
    script.extend(two_of_two(a, b));
    script.push(0x67);
    script.extend([0x5a, 0xb2, 0x75]);
    script.extend(two_of_two(c, d));
    script.push(0x68);
    script
}

/// `IF <a> CHECKSIGVERIFY <b> CHECKSIG ELSE 10 CSV DROP <c> CHECKSIG ENDIF`
fn punishable(a: u8, b: u8, c: u8) -> Vec<u8> {
    let mut script = vec![0x63];
    script.extend(two_of_two(a, b));
    script.push(0x67);
    script.extend([0x5a, 0xb2, 0x75]);
    push(&mut script, &public(c));
    script.extend([CHECKSIG, 0x68]);
    script
}

fn locked_by(script: &[u8]) -> Vec<u8> {
    bitcoin::Script::from(script.to_vec()).to_v0_p2wsh().into_bytes()
}

fn sig_of(n: u8) -> Vec<u8> {
    vec![0x30, n, 0x01]
}

fn signed(n: u8) -> PartialSig {
    PartialSig { pubkey: public(n), signature: sig_of(n) }
}

fn spending(script: Option<Vec<u8>>, sigs: Vec<PartialSig>) -> PartiallySignedTransaction {
    let spent = TxOut {
        value: 100_000,
        script_pubkey: script.as_ref().map(|s| locked_by(s)).unwrap_or_default(),
    };
    PartiallySignedTransaction {
        unsigned_tx: Transaction {
            version: 2,
            lock_time: 0,
            input: vec![TxIn {
                previous_output: OutPoint { txid: [3u8; 32], vout: 0 },
                script_sig: vec![],
                sequence: 10,
                witness: vec![],
            }],
            output: vec![TxOut { value: 99_000, script_pubkey: vec![0x00, 0x14, 9, 9] }],
        },
        inputs: vec![Input {
            witness_utxo: Some(spent),
            partial_sigs: sigs,
            sighash_type: Some(SigHashType::All),
            witness_script: script,
            final_script_sig: None,
            final_script_witness: None,
        }],
        outputs: vec![Output { witness_script: None }],
    }
}

fn witness_of(psbt: &PartiallySignedTransaction) -> Option<Vec<Vec<u8>>> {
    psbt.inputs[0].final_script_witness.clone()
}

#[test]
fn lock_puts_two_signatures_before_the_script() {
    // The funding transaction: one output of value V locked to a 2-of-2 script.
    let script = two_of_two(1, 2);
    let value = 250_000u64;
    let funding_psbt = PartiallySignedTransaction {
        unsigned_tx: Transaction {
            version: 2,
            lock_time: 0,
            input: vec![TxIn {
                previous_output: OutPoint { txid: [8u8; 32], vout: 1 },
                script_sig: vec![],
                sequence: 0xffff_ffff,
                witness: vec![],
            }],
            output: vec![TxOut { value, script_pubkey: locked_by(&script) }],
        },
        inputs: vec![Input {
            witness_utxo: None,
            partial_sigs: vec![],
            sighash_type: None,
            witness_script: None,
            final_script_sig: None,
            final_script_witness: None,
        }],
        outputs: vec![Output { witness_script: Some(script.clone()) }],
    };
    let mut funding = Tx::from_partial(TxKind::Funding, funding_psbt).unwrap();
    assert_eq!(funding.finalize(), Ok(()));
    let linked = funding.get_consumable_output().unwrap();
    assert_eq!(linked.tx_out.value, value);
    assert_eq!(linked.script_pubkey, Some(script.clone()));

    // The lock transaction spends it.
    let skeleton = Transaction {
        version: 2,
        lock_time: 0,
        input: vec![TxIn {
            previous_output: linked.out_point.clone(),
            script_sig: vec![],
            sequence: 0xffff_ffff,
            witness: vec![],
        }],
        output: vec![TxOut { value: value - 1_000, script_pubkey: vec![0x00, 0x14, 7] }],
    };
    let secp = bitcoin::secp256k1::Secp256k1::new();
    let mut sigs = vec![];
    let mut elements = vec![];
    for n in [1u8, 2u8] {
        let signature =
            sign_input(TxInRef::new(&skeleton, 0), &script, value, SigHashType::All, &secret(n))
                .unwrap();
        let parsed = bitcoin::secp256k1::Signature::from_compact(&signature.bytes).unwrap();
        let digest = signature_hash(TxInRef::new(&skeleton, 0), &script, value, SigHashType::All);
        let message = bitcoin::secp256k1::Message::from_slice(&digest).unwrap();
        let key = bitcoin::secp256k1::PublicKey::from_slice(&public(n)).unwrap();
        assert!(secp.verify(&message, &parsed, &key).is_ok());
        let mut element = parsed.serialize_der().to_vec();
        element.push(0x01);
        elements.push(element.clone());
        sigs.push(PartialSig { pubkey: public(n), signature: element });
    }
    let lock_psbt = PartiallySignedTransaction {
        unsigned_tx: skeleton.clone(),
        inputs: vec![Input {
            witness_utxo: Some(linked.tx_out.clone()),
            partial_sigs: sigs,
            sighash_type: Some(SigHashType::All),
            witness_script: linked.script_pubkey.clone(),
            final_script_sig: None,
            final_script_witness: None,
        }],
        outputs: vec![Output { witness_script: None }],
    };
    let mut lock = Tx::from_partial(TxKind::Lock, lock_psbt).unwrap();
    assert_eq!(lock.finalize(), Ok(()));
    assert!(lock.is_finalized());
    let tx = lock.extract();
    assert_eq!(tx.input.len(), 1);
    assert_eq!(tx.input[0].witness, vec![elements[0].clone(), elements[1].clone(), script]);
    assert_eq!(tx.input[0].script_sig, Vec::<u8>::new());
    assert_eq!(tx.input[0].previous_output, skeleton.input[0].previous_output);
    assert_eq!(tx.output, skeleton.output);
    assert_eq!(tx.version, 2);
    assert_eq!(tx.lock_time, 0);
}

#[test]
fn cancel_with_one_of_two_signatures_misses_a_signature() {
    let script = two_branches(1, 2, 3, 4);
    let psbt = spending(Some(script), vec![signed(3)]);
    let before = psbt.clone();
    let mut cancel = Tx::from_partial(TxKind::Cancel, psbt).unwrap();
    assert_eq!(cancel.finalize(), Err(TxError::MissingSignature));
    assert!(!cancel.is_finalized());
    assert_eq!(cancel.to_partial(), Some(before));
}

#[test]
fn missing_signature_comes_before_unknown_key() {
    let script = two_branches(1, 2, 3, 4);
    let mut psbt = spending(Some(script), vec![signed(9)]);
    assert_eq!(Cancel::finalize(&mut psbt), Err(TxError::MissingSignature));
}

#[test]
fn buy_takes_the_first_branch_in_script_order() {
    let script = two_branches(1, 2, 3, 4);
    let expected = Some(vec![sig_of(1), sig_of(2), vec![1u8], script.clone()]);

    let mut in_order = spending(Some(script.clone()), vec![signed(1), signed(2)]);
    assert_eq!(Buy::finalize(&mut in_order), Ok(()));
    assert_eq!(witness_of(&in_order), expected);

    let mut reversed = spending(Some(script.clone()), vec![signed(2), signed(1)]);
    assert_eq!(Buy::finalize(&mut reversed), Ok(()));
    assert_eq!(witness_of(&reversed), expected);

    let mut swapped_keys = spending(Some(two_branches(2, 1, 3, 4)), vec![signed(1), signed(2)]);
    assert_eq!(Buy::finalize(&mut swapped_keys), Ok(()));
    assert_eq!(
        witness_of(&swapped_keys),
        Some(vec![sig_of(2), sig_of(1), vec![1u8], two_branches(2, 1, 3, 4)])
    );
}

#[test]
fn buy_fails_without_both_parties() {
    let script = two_branches(1, 2, 3, 4);
    for sigs in [vec![], vec![signed(1)], vec![signed(2)], vec![signed(9)]] {
        let mut psbt = spending(Some(script.clone()), sigs);
        let before = psbt.clone();
        assert_eq!(Buy::finalize(&mut psbt), Err(TxError::MissingSignature));
        assert_eq!(psbt, before);
    }
}

#[test]
fn enough_signatures_with_a_stranger_among_them() {
    let script = two_branches(1, 2, 3, 4);
    let cases = [
        vec![signed(1), signed(9)],
        vec![signed(9), signed(2)],
        vec![signed(3), signed(4)],
        vec![signed(8), signed(9)],
    ];
    for sigs in cases {
        let mut buy = spending(Some(script.clone()), sigs.clone());
        let before = buy.clone();
        assert_eq!(Buy::finalize(&mut buy), Err(TxError::PublicKeyNotFound));
        assert_eq!(buy, before);
        let mut refund = spending(Some(punishable(1, 2, 5)), sigs);
        assert_eq!(Refund::finalize(&mut refund), Err(TxError::PublicKeyNotFound));
    }
    let psbt = spending(Some(script), vec![signed(1), signed(9)]);
    let mut typed = Tx::from_partial(TxKind::Buy, psbt).unwrap();
    assert_eq!(typed.finalize(), Err(TxError::PublicKeyNotFound));
    assert!(!typed.is_finalized());
}

#[test]
fn signature_of_a_stranger_is_refused() {
    let script = two_branches(1, 2, 3, 4);
    let mut psbt = spending(Some(script), vec![signed(1), signed(2), signed(3)]);
    let before = psbt.clone();
    assert_eq!(Buy::finalize(&mut psbt), Err(TxError::PublicKeyNotFound));
    assert_eq!(psbt, before);
}

#[test]
fn buy_needs_a_branch_with_two_keys() {
    let mut plain = spending(Some(two_of_two(1, 2)), vec![signed(1), signed(2)]);
    assert_eq!(Buy::finalize(&mut plain), Err(TxError::PublicKeyNotFound));

    let mut one_key = vec![0x63];
    push(&mut one_key, &public(1));
    one_key.extend([CHECKSIG, 0x67]);
    push(&mut one_key, &public(2));
    one_key.extend([CHECKSIG, 0x68]);
    let mut psbt = spending(Some(one_key.clone()), vec![signed(1)]);
    assert_eq!(Buy::finalize(&mut psbt), Err(TxError::PublicKeyNotFound));
    assert_eq!(Refund::finalize(&mut psbt), Err(TxError::PublicKeyNotFound));

    let mut cancel = spending(Some(one_key.clone()), vec![signed(2)]);
    assert_eq!(Cancel::finalize(&mut cancel), Ok(()));
    assert_eq!(witness_of(&cancel), Some(vec![sig_of(2), vec![], one_key]));
}

#[test]
fn cancel_takes_the_second_branch() {
    let script = two_branches(1, 2, 3, 4);
    let mut psbt = spending(Some(script.clone()), vec![signed(4), signed(3)]);
    assert_eq!(Cancel::finalize(&mut psbt), Ok(()));
    assert_eq!(witness_of(&psbt), Some(vec![sig_of(3), sig_of(4), vec![], script]));
}

#[test]
fn refund_and_punish_spend_the_cancel_output() {
    let script = punishable(1, 2, 5);
    let mut refund = spending(Some(script.clone()), vec![signed(2), signed(1)]);
    assert_eq!(Refund::finalize(&mut refund), Ok(()));
    assert_eq!(witness_of(&refund), Some(vec![sig_of(1), sig_of(2), vec![1u8], script.clone()]));

    let mut punish = spending(Some(script.clone()), vec![signed(5)]);
    assert_eq!(Punish::finalize(&mut punish), Ok(()));
    assert_eq!(witness_of(&punish), Some(vec![sig_of(5), vec![], script.clone()]));

    let mut early = spending(Some(script.clone()), vec![]);
    assert_eq!(Punish::finalize(&mut early), Err(TxError::MissingSignature));

    let mut wrong = spending(Some(script), vec![signed(5), signed(1)]);
    assert_eq!(Punish::finalize(&mut wrong), Err(TxError::PublicKeyNotFound));
}

#[test]
fn lock_with_a_single_key() {
    let mut script = vec![];
    push(&mut script, &public(7));
    script.push(CHECKSIG);
    let mut psbt = spending(Some(script.clone()), vec![signed(7)]);
    assert_eq!(Lock::finalize(&mut psbt), Ok(()));
    assert_eq!(witness_of(&psbt), Some(vec![sig_of(7), script]));
}

#[test]
fn lock_needs_a_key_in_the_script() {
    let mut psbt = spending(Some(vec![0x51]), vec![]);
    assert_eq!(Lock::finalize(&mut psbt), Err(TxError::PublicKeyNotFound));
    let mut uncompressed = vec![];
    push(&mut uncompressed, &[4u8; 33]);
    uncompressed.push(CHECKSIG);
    let mut psbt = spending(Some(uncompressed), vec![]);
    assert_eq!(Lock::finalize(&mut psbt), Err(TxError::PublicKeyNotFound));
}

#[test]
fn shape_and_metadata_come_first() {
    let script = two_of_two(1, 2);
    let full = || spending(Some(script.clone()), vec![signed(1), signed(2)]);

    let mut two_inputs = full();
    let second = two_inputs.unsigned_tx.input[0].clone();
    two_inputs.unsigned_tx.input.push(second);
    let input = two_inputs.inputs[0].clone();
    two_inputs.inputs.push(input);
    assert_eq!(Lock::finalize(&mut two_inputs), Err(TxError::MultiUTXOUnsupported));

    let mut two_outputs = full();
    let output = two_outputs.unsigned_tx.output[0].clone();
    two_outputs.unsigned_tx.output.push(output);
    two_outputs.outputs.push(Output { witness_script: None });
    assert_eq!(Lock::finalize(&mut two_outputs), Err(TxError::MultiUTXOUnsupported));

    let mut no_input = full();
    no_input.unsigned_tx.input.clear();
    no_input.inputs.clear();
    assert_eq!(Lock::finalize(&mut no_input), Err(TxError::MissingWitnessUTXO));

    let mut no_utxo = full();
    no_utxo.inputs[0].witness_utxo = None;
    assert_eq!(Lock::finalize(&mut no_utxo), Err(TxError::MissingWitnessUTXO));

    let mut no_script = full();
    no_script.inputs[0].witness_script = None;
    assert_eq!(Lock::finalize(&mut no_script), Err(TxError::MissingWitnessScript));

    let mut neither = full();
    neither.inputs[0].witness_utxo = None;
    neither.inputs[0].witness_script = None;
    assert_eq!(Lock::finalize(&mut neither), Err(TxError::MissingWitnessUTXO));
}

#[test]
fn truncated_script_is_the_interpreters_error() {
    let mut psbt = spending(Some(vec![0x21, 0x02, 0x03]), vec![]);
    let before = psbt.clone();
    assert_eq!(
        Lock::finalize(&mut psbt),
        Err(TxError::BitcoinScript(bitcoin::blockdata::script::Error::EarlyEndOfScript))
    );
    assert_eq!(psbt, before);
}

#[test]
fn sighash_type_has_to_be_there_and_to_match() {
    let script = two_of_two(1, 2);
    let mut none = spending(Some(script.clone()), vec![signed(1), signed(2)]);
    none.inputs[0].sighash_type = None;
    assert_eq!(Lock::finalize(&mut none), Err(TxError::MissingSigHashType));

    let mut other = spending(Some(script.clone()), vec![signed(1), signed(2)]);
    other.inputs[0].sighash_type = Some(SigHashType::Single);
    assert_eq!(Lock::finalize(&mut other), Err(TxError::MissingSigHashType));

    let mut empty = spending(Some(script.clone()), vec![signed(1), signed(2)]);
    empty.inputs[0].partial_sigs[1].signature = vec![];
    assert_eq!(Lock::finalize(&mut empty), Err(TxError::MissingSigHashType));

    let mut single = spending(Some(script.clone()), vec![signed(1), signed(2)]);
    single.inputs[0].sighash_type = Some(SigHashType::SinglePlusAnyoneCanPay);
    single.inputs[0].partial_sigs[0].signature = vec![0x30, 0x83];
    single.inputs[0].partial_sigs[1].signature = vec![0x83];
    assert_eq!(Lock::finalize(&mut single), Ok(()));
    assert_eq!(witness_of(&single), Some(vec![vec![0x30, 0x83], vec![0x83], script]));
}

#[test]
fn missing_signature_comes_before_missing_sighash_type() {
    let mut psbt = spending(Some(two_of_two(1, 2)), vec![signed(1)]);
    psbt.inputs[0].sighash_type = None;
    assert_eq!(Lock::finalize(&mut psbt), Err(TxError::MissingSignature));
}

#[test]
fn funding_is_validated_and_left_alone() {
    let mut psbt = spending(None, vec![]);
    psbt.inputs[0].witness_utxo = None;
    assert_eq!(Funding::finalize(&mut psbt), Err(TxError::MissingWitnessScript));

    psbt.outputs[0].witness_script = Some(two_of_two(1, 2));
    let before = psbt.clone();
    assert_eq!(Funding::finalize(&mut psbt), Ok(()));
    assert_eq!(psbt, before);

    let output = psbt.unsigned_tx.output[0].clone();
    psbt.unsigned_tx.output.push(output);
    psbt.outputs.push(Output { witness_script: None });
    assert_eq!(Funding::finalize(&mut psbt), Err(TxError::MultiUTXOUnsupported));
}

#[test]
fn finalizing_twice_keeps_the_witness() {
    let script = two_branches(1, 2, 3, 4);
    let psbt = spending(Some(script.clone()), vec![signed(1), signed(2)]);
    let mut buy = Tx::from_partial(TxKind::Buy, psbt).unwrap();
    assert_eq!(buy.finalize(), Ok(()));
    let first = buy.to_partial().unwrap();
    assert_eq!(witness_of(&first), Some(vec![sig_of(1), sig_of(2), vec![1u8], script]));
    assert_eq!(buy.finalize(), Ok(()));
    assert!(buy.is_finalized());
    assert_eq!(buy.to_partial(), Some(first.clone()));
    assert_eq!(buy.extract().input[0].witness, witness_of(&first).unwrap());
}

#[test]
fn finalizing_keeps_everything_but_the_witness() {
    let script = two_of_two(1, 2);
    let psbt = spending(Some(script), vec![signed(2), signed(1)]);
    let before = psbt.clone();
    let mut lock = Tx::from_partial(TxKind::Lock, psbt).unwrap();
    let linked = lock.get_consumable_output().unwrap();
    assert_eq!(lock.finalize(), Ok(()));
    let mut after = lock.to_partial().unwrap();
    assert_eq!(lock.get_consumable_output().unwrap(), linked);
    assert!(after.inputs[0].final_script_witness.is_some());
    after.inputs[0].final_script_witness = None;
    assert_eq!(after, before);
}

#[test]
fn each_kind_has_its_condition() {
    assert_eq!(TxKind::Funding.condition(), None);
    assert_eq!(TxKind::Lock.condition(), Some(SpendCondition { path: Path::Whole, min_signers: 1 }));
    assert_eq!(TxKind::Buy.condition(), Some(SpendCondition { path: Path::First, min_signers: 2 }));
    assert_eq!(
        TxKind::Cancel.condition(),
        Some(SpendCondition { path: Path::Second, min_signers: 1 })
    );
    assert_eq!(
        TxKind::Punish.condition(),
        Some(SpendCondition { path: Path::Second, min_signers: 1 })
    );
    assert_eq!(
        TxKind::Refund.condition(),
        Some(SpendCondition { path: Path::First, min_signers: 2 })
    );
}

#[test]
fn typed_transaction_dispatches_by_kind() {
    let script = punishable(1, 2, 5);
    let psbt = spending(Some(script.clone()), vec![signed(5)]);
    let mut refund = Tx::from_partial(TxKind::Refund, psbt.clone()).unwrap();
    assert_eq!(refund.finalize(), Err(TxError::MissingSignature));
    let mut punish = Tx::from_partial(TxKind::Punish, psbt).unwrap();
    assert_eq!(punish.finalize(), Ok(()));
    assert_eq!(punish.extract().input[0].witness, vec![sig_of(5), vec![], script]);
}

fn finalize_as<T: SubTransaction>(psbt: &mut PartiallySignedTransaction) -> Result<(), TxError> {
    T::finalize(psbt)
}

#[test]
fn strategies_are_chosen_by_type() {
    let script = punishable(1, 2, 5);
    let mut psbt = spending(Some(script.clone()), vec![signed(1), signed(2)]);
    assert_eq!(finalize_as::<Punish>(&mut psbt), Err(TxError::PublicKeyNotFound));
    assert_eq!(finalize_as::<Lock>(&mut psbt), Err(TxError::MissingSignature));
    assert_eq!(finalize_as::<Funding>(&mut psbt), Err(TxError::MissingWitnessScript));
    assert_eq!(finalize_as::<Cancel>(&mut psbt), Err(TxError::PublicKeyNotFound));
    assert_eq!(witness_of(&psbt), None);
    assert_eq!(finalize_as::<Refund>(&mut psbt), Ok(()));
    assert_eq!(witness_of(&psbt), Some(vec![sig_of(1), sig_of(2), vec![1u8], script.clone()]));
    assert_eq!(finalize_as::<Buy>(&mut psbt), Ok(()));
    assert_eq!(witness_of(&psbt), Some(vec![sig_of(1), sig_of(2), vec![1u8], script]));
}

#[test]
fn linked_out_point_names_the_extracted_transaction() {
    let script = two_of_two(1, 2);
    let psbt = spending(Some(script), vec![signed(1), signed(2)]);
    let mut lock = Tx::from_partial(TxKind::Lock, psbt).unwrap();
    let linked = lock.get_consumable_output().unwrap();
    assert_eq!(lock.finalize(), Ok(()));
    let broadcast = lock.extract();
    assert_eq!(broadcast.input[0].witness.len(), 3);
    assert_eq!(broadcast.txid(), linked.out_point.txid);

    let skeleton = lock.to_partial().unwrap().unsigned_tx;
    let script = two_of_two(1, 2);
    assert_eq!(
        signature_hash(TxInRef::new(&broadcast, 0), &script, 100_000, SigHashType::All),
        signature_hash(TxInRef::new(&skeleton, 0), &script, 100_000, SigHashType::All)
    );
}
