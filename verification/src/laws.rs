//! What holds of the library as a whole: properties that relate several of
//! its functions, each stated over the spec functions that the functions'
//! own contracts use.

use crate::error::TxError;
use crate::finalize::{finalized_as, outcome_of, spend_obstacle, Finalization, TxKind};
use crate::psbt::{distinct_signers, InputView, PartialSigView, PsbtView};
use crate::script::{script_instructions, signers, InstructionView, Path};
use crate::sighash::{
    be_value, curve_order, is_canonical, is_normal_form_of, low_s, r_of, s_of,
    signature_digest,
};
use crate::transaction::TransactionView;
use crate::tx::{consumable_output, extracted, identifier};
use crate::witness::{
    all_flagged, all_matched, all_signed, has_signed, lemma_signature_unique, signature_of,
    signed_at, spend_witness, witness_of, SpendCondition,
};
use vstd::prelude::*;

verus! {

/// Finalizing never touches the skeleton: whatever a finalizer does, the
/// unsigned transaction, and with it the transaction's identifier and the
/// output that the next step of the chain spends, are the same before and
/// after. The container stays well-formed, and a rejected container is
/// unchanged.
pub proof fn law_finalization_keeps_skeleton(
    outcome: Finalization,
    before: PsbtView,
    after: PsbtView,
    result: Result<(), TxError>,
)
    requires
        before.wf(),
        finalized_as(outcome, before, after, result),
    ensures
        after.wf(),
        after.unsigned_tx == before.unsigned_tx,
        after.outputs == before.outputs,
        after.inputs.len() == before.inputs.len(),
        identifier(after.unsigned_tx) == identifier(before.unsigned_tx),
        consumable_output(after) == consumable_output(before),
        result is Err ==> after == before,
{
    match outcome {
        Finalization::Witness(witness) => {
            assert forall|i: int| 0 <= i < after.inputs.len() implies distinct_signers(
                (#[trigger] after.inputs[i]).partial_sigs,
            ) by {
                assert(after.inputs[i].partial_sigs == before.inputs[i].partial_sigs);
            }
        },
        _ => {},
    }
}

/// The container with other signatures collected for its first input.
pub open spec fn with_signatures(psbt: PsbtView, sigs: Seq<PartialSigView>) -> PsbtView {
    PsbtView {
        inputs: psbt.inputs.update(0, InputView { partial_sigs: sigs, ..psbt.inputs[0] }),
        ..psbt
    }
}

/// Two lists of signatures hold the same signatures, in whatever order.
pub open spec fn same_signatures(first: Seq<PartialSigView>, second: Seq<PartialSigView>) -> bool {
    first.to_multiset() == second.to_multiset()
}

/// A key has signed in one list exactly if it has signed in a permutation of
/// the list, and its signature is the same in both.
proof fn lemma_permuted_signature(
    first: Seq<PartialSigView>,
    second: Seq<PartialSigView>,
    key: Seq<u8>,
)
    requires
        distinct_signers(first),
        distinct_signers(second),
        same_signatures(first, second),
        has_signed(first, key),
    ensures
        has_signed(second, key),
        signature_of(second, key) == signature_of(first, key),
{
    broadcast use vstd::seq_lib::to_multiset_contains;

    let i = choose|i: int| signed_at(first, key, i);
    lemma_signature_unique(first, key, i);
    assert(first.contains(first[i]));
    assert(second.to_multiset().count(first[i]) > 0);
    assert(second.contains(first[i]));
    let j = choose|j: int| 0 <= j < second.len() && second[j] == first[i];
    assert(signed_at(second, key, j));
    lemma_signature_unique(second, key, j);
}

/// The checks that a permutation of the signatures passes, the signatures
/// pass too.
proof fn lemma_permuted_checks(
    first: Seq<PartialSigView>,
    second: Seq<PartialSigView>,
    keys: Seq<Seq<u8>>,
    sighash_type: crate::psbt::SigHashType,
)
    requires
        distinct_signers(first),
        distinct_signers(second),
        same_signatures(first, second),
    ensures
        all_signed(keys, first) ==> all_signed(keys, second),
        all_matched(keys, first) ==> all_matched(keys, second),
        all_flagged(first, sighash_type) ==> all_flagged(second, sighash_type),
{
    broadcast use vstd::seq_lib::to_multiset_contains;

    if all_signed(keys, first) {
        assert forall|k: int| 0 <= k < keys.len() implies has_signed(second, #[trigger] keys[k]) by {
            lemma_permuted_signature(first, second, keys[k]);
        }
    }
    assert forall|j: int| 0 <= j < second.len() implies first.contains(#[trigger] second[j]) by {
        assert(second.contains(second[j]));
        assert(first.to_multiset().count(second[j]) > 0);
    }
    if all_matched(keys, first) {
        assert forall|j: int| 0 <= j < second.len() implies keys.contains(
            (#[trigger] second[j]).pubkey,
        ) by {
            let i = choose|i: int| 0 <= i < first.len() && first[i] == second[j];
            assert(keys.contains(first[i].pubkey));
        }
    }
    if all_flagged(first, sighash_type) {
        assert forall|j: int| 0 <= j < second.len() implies crate::witness::carries_flag(
            (#[trigger] second[j]).signature,
            sighash_type,
        ) by {
            let i = choose|i: int| 0 <= i < first.len() && first[i] == second[j];
            assert(crate::witness::carries_flag(first[i].signature, sighash_type));
        }
    }
}

/// An input yields the same witness, or fails for the same reason, whatever
/// the order of its signatures.
pub proof fn lemma_permuted_witness(
    condition: SpendCondition,
    input: InputView,
    permuted: Seq<PartialSigView>,
    script: Seq<u8>,
    program: Seq<InstructionView>,
)
    requires
        distinct_signers(input.partial_sigs),
        distinct_signers(permuted),
        same_signatures(input.partial_sigs, permuted),
    ensures
        spend_witness(condition, InputView { partial_sigs: permuted, ..input }, script, program)
            == spend_witness(condition, input, script, program),
{
    let first = input.partial_sigs;
    let keys = signers(program, condition.path);
    assert(permuted.len() == first.len()) by {
        first.to_multiset_ensures();
        permuted.to_multiset_ensures();
    }
    if input.sighash_type is Some {
        lemma_permuted_checks(first, permuted, keys, input.sighash_type->0);
        lemma_permuted_checks(permuted, first, keys, input.sighash_type->0);
    } else {
        lemma_permuted_checks(first, permuted, keys, crate::psbt::SigHashType::All);
        lemma_permuted_checks(permuted, first, keys, crate::psbt::SigHashType::All);
    }
    if all_signed(keys, first) {
        assert forall|k: int| 0 <= k < keys.len() implies signature_of(permuted, keys[k])
            == signature_of(first, keys[k]) by {
            assert(has_signed(first, keys[k]));
            lemma_permuted_signature(first, permuted, keys[k]);
        }
        assert(witness_of(keys, permuted, condition.path, script) =~= witness_of(
            keys,
            first,
            condition.path,
            script,
        ));
    }
}

/// The order in which signatures were collected does not matter: a
/// transaction of any kind finalizes to the same witness, or fails with the
/// same error, whatever the order of the signatures of its input. The
/// witness follows the order of the keys in the script.
pub proof fn law_signature_order_is_irrelevant(
    kind: TxKind,
    psbt: PsbtView,
    permuted: Seq<PartialSigView>,
)
    requires
        psbt.wf(),
        psbt.inputs.len() > 0,
        distinct_signers(permuted),
        same_signatures(psbt.inputs[0].partial_sigs, permuted),
    ensures
        outcome_of(kind, with_signatures(psbt, permuted)) == outcome_of(kind, psbt),
{
    let input = psbt.inputs[0];
    let shuffled = with_signatures(psbt, permuted);
    assert(shuffled.inputs[0] == (InputView { partial_sigs: permuted, ..input }));
    match kind.spend_condition() {
        Some(condition) => {
            if spend_obstacle(psbt) is None {
                let script = input.witness_script->0;
                match script_instructions(script) {
                    Ok(program) => {
                        lemma_permuted_witness(condition, input, permuted, script, program);
                    },
                    Err(_) => {},
                }
            }
        },
        None => {},
    }
}

/// A buy transaction whose lock script names two different parties on its
/// cooperative branch finalizes exactly if both parties have signed, no one
/// else has, and every signature carries the input's sighash type. Its
/// witness is then the two signatures in the order of the keys in the
/// script, the selector of the cooperative branch, and the script.
pub proof fn law_buy_needs_both_parties(
    psbt: PsbtView,
    program: Seq<InstructionView>,
    first_party: Seq<u8>,
    second_party: Seq<u8>,
)
    requires
        psbt.wf(),
        spend_obstacle(psbt) is None,
        script_instructions(psbt.inputs[0].witness_script->0) == Ok::<
            Seq<InstructionView>,
            bitcoin::blockdata::script::Error,
        >(program),
        signers(program, Path::First) == seq![first_party, second_party],
        first_party != second_party,
    ensures
        outcome_of(TxKind::Buy, psbt) is Witness <==> {
            &&& has_signed(psbt.inputs[0].partial_sigs, first_party)
            &&& has_signed(psbt.inputs[0].partial_sigs, second_party)
            &&& forall|i: int|
                0 <= i < psbt.inputs[0].partial_sigs.len() ==> (
                #[trigger] psbt.inputs[0].partial_sigs[i]).pubkey == first_party
                    || psbt.inputs[0].partial_sigs[i].pubkey == second_party
            &&& psbt.inputs[0].sighash_type is Some
            &&& all_flagged(psbt.inputs[0].partial_sigs, psbt.inputs[0].sighash_type->0)
        },
        outcome_of(TxKind::Buy, psbt) matches Finalization::Witness(witness) ==> witness == seq![
            signature_of(psbt.inputs[0].partial_sigs, first_party),
            signature_of(psbt.inputs[0].partial_sigs, second_party),
            seq![1u8],
            psbt.inputs[0].witness_script->0,
        ],
        outcome_of(TxKind::Buy, psbt) is Witness || outcome_of(TxKind::Buy, psbt) is Rejected,
{
    let input = psbt.inputs[0];
    let script = input.witness_script->0;
    let keys = seq![first_party, second_party];
    let sigs = input.partial_sigs;
    assert(keys[0] == first_party && keys[1] == second_party);
    if has_signed(sigs, first_party) && has_signed(sigs, second_party) {
        let i = choose|i: int| signed_at(sigs, first_party, i);
        let j = choose|j: int| signed_at(sigs, second_party, j);
        assert(i != j);
        assert(sigs.len() >= 2);
    }
    if all_signed(keys, sigs) {
        assert(has_signed(sigs, keys[0]) && has_signed(sigs, keys[1]));
    }
    if all_matched(keys, sigs) {
        assert forall|i: int| 0 <= i < sigs.len() implies (#[trigger] sigs[i]).pubkey
            == first_party || sigs[i].pubkey == second_party by {
            assert(keys.contains(sigs[i].pubkey));
        }
    }
    if forall|i: int|
        0 <= i < sigs.len() ==> (#[trigger] sigs[i]).pubkey == first_party || sigs[i].pubkey
            == second_party {
        assert forall|i: int| 0 <= i < sigs.len() implies keys.contains(
            (#[trigger] sigs[i]).pubkey,
        ) by {
            if sigs[i].pubkey == first_party {
                assert(keys[0] == sigs[i].pubkey);
            } else {
                assert(keys[1] == sigs[i].pubkey);
            }
        }
    }
    assert(witness_of(keys, sigs, Path::First, script) =~= seq![
        signature_of(sigs, first_party),
        signature_of(sigs, second_party),
        seq![1u8],
        script,
    ]);
}

/// The signature digest is a function of what is signed: two digests
/// computed for the same transaction, input, script, value and sighash flag
/// are the same.
pub proof fn law_digest_is_deterministic(
    tx: TransactionView,
    index: nat,
    script: Seq<u8>,
    value: u64,
    flag: u8,
    first: Seq<u8>,
    second: Seq<u8>,
)
    requires
        first == signature_digest(tx, index, script, value, flag),
        second == signature_digest(tx, index, script, value, flag),
    ensures
        first == second,
{
}

/// The low-S form of a canonical signature is canonical and low-S, and it
/// keeps or negates `s`: where `s` was low already it is unchanged, and
/// where it was high it becomes the group order minus `s`.
pub proof fn law_normal_form_is_low_s(normal: Seq<u8>, signature: Seq<u8>)
    requires
        is_canonical(signature),
        is_normal_form_of(normal, signature),
    ensures
        is_canonical(normal),
        s_of(normal) <= curve_order() / 2,
        r_of(normal) == r_of(signature),
        s_of(signature) <= curve_order() / 2 ==> s_of(normal) == s_of(signature),
        s_of(signature) > curve_order() / 2 ==> s_of(normal) + s_of(signature) == curve_order(),
        low_s(s_of(normal)) == s_of(normal),
{
}

/// Byte strings of one length that encode the same number are the same.
pub proof fn lemma_be_value_injective(a: Seq<u8>, b: Seq<u8>)
    requires
        a.len() == b.len(),
        be_value(a) == be_value(b),
    ensures
        a == b,
    decreases a.len(),
{
    if a.len() > 0 {
        assert(a.last() == b.last() && be_value(a.drop_last()) == be_value(b.drop_last())) by {
            let x = be_value(a.drop_last());
            let y = be_value(b.drop_last());
            assert(x * 256 + a.last() == y * 256 + b.last());
            if x < y {
                assert(x * 256 + 256 <= y * 256) by (nonlinear_arith)
                    requires
                        x < y,
                ;
            }
            if y < x {
                assert(y * 256 + 256 <= x * 256) by (nonlinear_arith)
                    requires
                        y < x,
                ;
            }
        }
        lemma_be_value_injective(a.drop_last(), b.drop_last());
        assert(a =~= a.drop_last().push(a.last()));
        assert(b =~= b.drop_last().push(b.last()));
    } else {
        assert(a =~= b);
    }
}

/// A signature has one low-S form only, and the low-S form of a low-S form
/// is that form itself: bringing a signature down twice changes nothing.
pub proof fn law_normal_form_is_unique(first: Seq<u8>, second: Seq<u8>, signature: Seq<u8>)
    requires
        is_canonical(signature),
        is_normal_form_of(first, signature),
        is_normal_form_of(second, signature),
    ensures
        first == second,
        is_normal_form_of(first, first),
{
    lemma_be_value_injective(first.subrange(32, 64), second.subrange(32, 64));
    assert(first =~= first.subrange(0, 32) + first.subrange(32, 64));
    assert(second =~= second.subrange(0, 32) + second.subrange(32, 64));
}

/// The transaction extracted after finalization carries the assembled
/// witness on its first input, and is the skeleton in everything else that
/// finalizing could have touched: the same out-point and sequence number on
/// that input, the same outputs, version and lock time.
pub proof fn law_extracted_carries_witness(psbt: PsbtView, witness: Seq<Seq<u8>>)
    requires
        psbt.wf(),
        psbt.inputs.len() > 0,
    ensures
        extracted(psbt.with_witness(witness)).input.len() == psbt.unsigned_tx.input.len(),
        extracted(psbt.with_witness(witness)).input[0].witness == witness,
        extracted(psbt.with_witness(witness)).input[0].previous_output
            == psbt.unsigned_tx.input[0].previous_output,
        extracted(psbt.with_witness(witness)).input[0].sequence
            == psbt.unsigned_tx.input[0].sequence,
        extracted(psbt.with_witness(witness)).output == psbt.unsigned_tx.output,
        extracted(psbt.with_witness(witness)).version == psbt.unsigned_tx.version,
        extracted(psbt.with_witness(witness)).lock_time == psbt.unsigned_tx.lock_time,
{
}

/// The identifier does not read witnesses, and the signature digest reads
/// neither signature scripts nor witnesses: two transactions that differ in
/// nothing else have the same identifier, and the same digest for every
/// input.
pub proof fn law_unlocking_data_is_not_signed(
    first: TransactionView,
    second: TransactionView,
    index: nat,
    script: Seq<u8>,
    value: u64,
    flag: u8,
)
    ensures
        first.without_witnesses() == second.without_witnesses() ==> identifier(first)
            == identifier(second),
        first.without_unlocking_data() == second.without_unlocking_data() ==> signature_digest(
            first,
            index,
            script,
            value,
            flag,
        ) == signature_digest(second, index, script, value, flag),
{
}

/// The out-point handed to the next step of the chain names the transaction
/// that is broadcast: where no input has a final signature script, as in
/// every segwit spend, the extracted transaction has the identifier of the
/// skeleton. And a signature made over the skeleton is a signature over the
/// extracted transaction: the digest of every input is the same for both.
pub proof fn law_extracted_is_the_signed_transaction(
    psbt: PsbtView,
    index: nat,
    script: Seq<u8>,
    value: u64,
    flag: u8,
)
    requires
        psbt.wf(),
    ensures
        (forall|i: int| 0 <= i < psbt.inputs.len() ==> (#[trigger] psbt.inputs[i]).final_script_sig
            is None) ==> identifier(extracted(psbt)) == identifier(psbt.unsigned_tx),
        signature_digest(extracted(psbt), index, script, value, flag) == signature_digest(
            psbt.unsigned_tx,
            index,
            script,
            value,
            flag,
        ),
{
    assert(extracted(psbt).without_unlocking_data() =~= psbt.unsigned_tx.without_unlocking_data())
        by {
        assert(extracted(psbt).without_unlocking_data().input
            =~= psbt.unsigned_tx.without_unlocking_data().input);
    }
    if forall|i: int| 0 <= i < psbt.inputs.len() ==> (#[trigger] psbt.inputs[i]).final_script_sig
        is None {
        assert(extracted(psbt).without_witnesses().input
            =~= psbt.unsigned_tx.without_witnesses().input) by {
            assert forall|i: int| 0 <= i < psbt.unsigned_tx.input.len() implies extracted(
                psbt,
            ).without_witnesses().input[i] == psbt.unsigned_tx.without_witnesses().input[i] by {
                assert(psbt.inputs[i].final_script_sig is None);
                assert(psbt.unsigned_tx.input[i].script_sig =~= Seq::<u8>::empty());
            }
        }
    }
}

/// Where no key has two signatures, signatures that all match keys of the
/// path and are as many as those keys leave no key unsigned. So in a
/// well-formed container a missing signature always shows in the count, and
/// signatures by strangers are reported before any key is looked up.
pub proof fn law_matched_signatures_cover_keys(keys: Seq<Seq<u8>>, sigs: Seq<PartialSigView>)
    requires
        distinct_signers(sigs),
        sigs.len() >= keys.len(),
        all_matched(keys, sigs),
    ensures
        all_signed(keys, sigs),
        sigs.len() == keys.len(),
{
    broadcast use vstd::seq_lib::seq_to_set_is_finite;

    let signed_by = Seq::new(sigs.len(), |i: int| sigs[i].pubkey);
    assert(signed_by.no_duplicates()) by {
        assert forall|i: int, j: int|
            0 <= i < signed_by.len() && 0 <= j < signed_by.len() && i != j implies signed_by[i]
            != signed_by[j] by {
            if i < j {
                assert(sigs[i].pubkey != sigs[j].pubkey);
            } else {
                assert(sigs[j].pubkey != sigs[i].pubkey);
            }
        }
    }
    signed_by.unique_seq_to_set();
    keys.lemma_cardinality_of_set();
    assert(signed_by.to_set().subset_of(keys.to_set())) by {
        assert forall|key: Seq<u8>| signed_by.to_set().contains(key) implies keys.to_set().contains(
            key,
        ) by {
            let i = choose|i: int| 0 <= i < signed_by.len() && signed_by[i] == key;
            assert(keys.contains(sigs[i].pubkey));
        }
    }
    vstd::set_lib::lemma_len_subset(signed_by.to_set(), keys.to_set());
    vstd::set_lib::lemma_subset_equality(signed_by.to_set(), keys.to_set());
    assert forall|k: int| 0 <= k < keys.len() implies has_signed(sigs, #[trigger] keys[k]) by {
        assert(keys.contains(keys[k]));
        assert(keys.to_set().contains(keys[k]));
        assert(signed_by.to_set().contains(keys[k]));
        let i = choose|i: int| 0 <= i < signed_by.len() && signed_by[i] == keys[k];
        assert(signed_at(sigs, keys[k], i));
    }
}

/// The order of the signature errors. With fewer signatures than the path
/// names keys, a signature is missing, whoever signed the others. With as
/// many signatures as keys or more, a signature by a key that the path does
/// not name is reported as such, before any other reason.
pub proof fn law_order_of_signature_errors(
    condition: SpendCondition,
    input: InputView,
    script: Seq<u8>,
    program: Seq<InstructionView>,
)
    requires
        signers(program, condition.path).len() >= condition.min_signers,
    ensures
        input.partial_sigs.len() < signers(program, condition.path).len() ==> spend_witness(
            condition,
            input,
            script,
            program,
        ) == Err::<Seq<Seq<u8>>, TxError>(TxError::MissingSignature),
        input.partial_sigs.len() >= signers(program, condition.path).len() && (exists|i: int|
            0 <= i < input.partial_sigs.len() && !signers(program, condition.path).contains(
                (#[trigger] input.partial_sigs[i]).pubkey,
            )) ==> spend_witness(condition, input, script, program) == Err::<
            Seq<Seq<u8>>,
            TxError,
        >(TxError::PublicKeyNotFound),
{
}

} // verus!
