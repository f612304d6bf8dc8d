//! Matching collected signatures to the public keys of a locking script and
//! assembling the witness stack that satisfies one of its paths.

use crate::error::TxError;
use crate::psbt::{
    distinct_signers, same_bytes, sigs_view, Input, InputView, PartialSig, PartialSigView,
    SigHashType,
};
use crate::script::{program_view, signers, signing_keys, Instruction, InstructionView, Path};
use crate::transaction::{copy_bytes, stack_view};
use vstd::prelude::*;

verus! {

/// What a kind of transaction has to satisfy to spend its predecessor's
/// output: a path of the locking script, signed by every public key that the
/// path names, of which there are at least `min_signers`.
#[derive(Debug, Clone, Copy, PartialEq, Eq, Structural)]
pub struct SpendCondition {
    /// The path of the script that the spender takes.
    pub path: Path,
    /// The least number of signers that the path must name.
    pub min_signers: usize,
}

/// The stack element that selects a path of a two-branch script: one byte
/// `1` for the first branch, the empty string for the second. A script with a
/// single condition takes none.
pub open spec fn selector_of(path: Path) -> Option<Seq<u8>> {
    match path {
        Path::Whole => None,
        Path::First => Some(seq![1u8]),
        Path::Second => Some(Seq::empty()),
    }
}

/// The signature at position `i` is by the holder of `key`.
pub open spec fn signed_at(sigs: Seq<PartialSigView>, key: Seq<u8>, i: int) -> bool {
    0 <= i < sigs.len() && sigs[i].pubkey == key
}

/// Some collected signature is by the holder of `key`.
pub open spec fn has_signed(sigs: Seq<PartialSigView>, key: Seq<u8>) -> bool {
    exists|i: int| signed_at(sigs, key, i)
}

/// The signature collected for `key`.
pub open spec fn signature_of(sigs: Seq<PartialSigView>, key: Seq<u8>) -> Seq<u8> {
    sigs[choose|i: int| signed_at(sigs, key, i)].signature
}

/// Every key has a signature.
pub open spec fn all_signed(keys: Seq<Seq<u8>>, sigs: Seq<PartialSigView>) -> bool {
    forall|k: int| 0 <= k < keys.len() ==> has_signed(sigs, #[trigger] keys[k])
}

/// Every signature is by one of the keys.
pub open spec fn all_matched(keys: Seq<Seq<u8>>, sigs: Seq<PartialSigView>) -> bool {
    forall|i: int| 0 <= i < sigs.len() ==> keys.contains((#[trigger] sigs[i]).pubkey)
}

/// The signature ends with the flag byte of the sighash type.
pub open spec fn carries_flag(signature: Seq<u8>, sighash_type: SigHashType) -> bool {
    signature.len() > 0 && signature.last() == sighash_type.flag()
}

/// Every signature ends with the flag byte of the sighash type.
pub open spec fn all_flagged(sigs: Seq<PartialSigView>, sighash_type: SigHashType) -> bool {
    forall|i: int| 0 <= i < sigs.len() ==> carries_flag((#[trigger] sigs[i]).signature, sighash_type)
}

/// The witness stack for a path: the signatures in the order of the keys,
/// then the path selector where the script has two branches, then the script.
pub open spec fn witness_of(
    keys: Seq<Seq<u8>>,
    sigs: Seq<PartialSigView>,
    path: Path,
    script: Seq<u8>,
) -> Seq<Seq<u8>> {
    let signatures = Seq::new(keys.len(), |k: int| signature_of(sigs, keys[k]));
    match selector_of(path) {
        Some(selector) => signatures.push(selector).push(script),
        None => signatures.push(script),
    }
}

/// The witness that satisfies `condition` on a script with the given
/// instructions, or the reason why the input cannot be finalized yet:
///
/// - `PublicKeyNotFound` where the path names fewer keys than the condition
///   needs;
/// - else `MissingSignature` where fewer signatures are collected than the
///   path names keys;
/// - else `PublicKeyNotFound` where a signature is by a key that the path
///   does not name;
/// - else `MissingSignature` where a key of the path has no signature;
/// - else `MissingSigHashType` where the input records no sighash type, or a
///   signature does not end with its flag.
pub open spec fn spend_witness(
    condition: SpendCondition,
    input: InputView,
    script: Seq<u8>,
    program: Seq<InstructionView>,
) -> Result<Seq<Seq<u8>>, TxError> {
    let keys = signers(program, condition.path);
    let sigs = input.partial_sigs;
    if keys.len() < condition.min_signers {
        Err(TxError::PublicKeyNotFound)
    } else if sigs.len() < keys.len() {
        Err(TxError::MissingSignature)
    } else if !all_matched(keys, sigs) {
        Err(TxError::PublicKeyNotFound)
    } else if !all_signed(keys, sigs) {
        Err(TxError::MissingSignature)
    } else if input.sighash_type is None || !all_flagged(sigs, input.sighash_type->0) {
        Err(TxError::MissingSigHashType)
    } else {
        Ok(witness_of(keys, sigs, condition.path, script))
    }
}

/// Among signatures of distinct signers, a key has at most one.
pub proof fn lemma_signature_unique(sigs: Seq<PartialSigView>, key: Seq<u8>, i: int)
    requires
        distinct_signers(sigs),
        signed_at(sigs, key, i),
    ensures
        has_signed(sigs, key),
        signature_of(sigs, key) == sigs[i].signature,
{
    let c = choose|j: int| signed_at(sigs, key, j);
    assert(signed_at(sigs, key, c));
    if c < i {
        assert(sigs[c].pubkey != sigs[i].pubkey);
    }
    if i < c {
        assert(sigs[i].pubkey != sigs[c].pubkey);
    }
}

/// Finds the signature collected for `key`.
pub fn find_signer(sigs: &Vec<PartialSig>, key: &Vec<u8>) -> (found: Option<usize>)
    ensures
        match found {
            Some(i) => {
                &&& signed_at(sigs_view(sigs@), key@, i as int)
                &&& forall|j: int| 0 <= j < i ==> !signed_at(sigs_view(sigs@), key@, j)
            },
            None => !has_signed(sigs_view(sigs@), key@),
        },
{
    let ghost view = sigs_view(sigs@);
    let mut i: usize = 0;
    while i < sigs.len()
        invariant
            i <= sigs.len(),
            view == sigs_view(sigs@),
            forall|j: int| 0 <= j < i ==> !signed_at(view, key@, j),
        decreases sigs.len() - i,
    {
        if same_bytes(&sigs[i].pubkey, key) {
            assert(view[i as int] == sigs@[i as int]@);
            return Some(i);
        }
        assert(view[i as int] == sigs@[i as int]@);
        i = i + 1;
    }
    None
}

/// Tells whether `key` is one of `keys`.
pub fn names_key(keys: &Vec<Vec<u8>>, key: &Vec<u8>) -> (named: bool)
    ensures
        named == stack_view(keys@).contains(key@),
{
    let ghost view = stack_view(keys@);
    let mut k: usize = 0;
    while k < keys.len()
        invariant
            k <= keys.len(),
            view == stack_view(keys@),
            forall|j: int| 0 <= j < k ==> view[j] != key@,
        decreases keys.len() - k,
    {
        if same_bytes(&keys[k], key) {
            assert(view[k as int] == key@);
            return true;
        }
        assert(view[k as int] == keys@[k as int]@);
        k = k + 1;
    }
    false
}

/// Tells whether the signature ends with the flag of the sighash type.
pub fn has_flag(signature: &Vec<u8>, sighash_type: SigHashType) -> (flagged: bool)
    ensures
        flagged == carries_flag(signature@, sighash_type),
{
    signature.len() > 0 && signature[signature.len() - 1] == sighash_type.as_byte()
}

/// Assembles the witness stack that satisfies `condition` from the
/// signatures collected for `input`, given the instructions that `script`
/// decodes to. Nothing is written: the caller stores the stack once it is
/// complete.
#[verifier::loop_isolation(false)]
pub fn assemble_witness(
    condition: SpendCondition,
    input: &Input,
    script: &Vec<u8>,
    program: &Vec<Instruction>,
) -> (assembled: Result<Vec<Vec<u8>>, TxError>)
    requires
        distinct_signers(input@.partial_sigs),
    ensures
        match assembled {
            Ok(witness) => spend_witness(condition, input@, script@, program_view(program@)) == Ok::<
                Seq<Seq<u8>>,
                TxError,
            >(stack_view(witness@)),
            Err(e) => spend_witness(condition, input@, script@, program_view(program@)) == Err::<
                Seq<Seq<u8>>,
                TxError,
            >(e),
        },
{
    let ghost sigs = input@.partial_sigs;
    let keys = signing_keys(program, condition.path);
    let ghost key_views = stack_view(keys@);
    if keys.len() < condition.min_signers {
        return Err(TxError::PublicKeyNotFound);
    }
    // The signatures have to be as many as the keys of the path, at least.
    if input.partial_sigs.len() < keys.len() {
        return Err(TxError::MissingSignature);
    }
    // Every signature needs a key of the path.
    let mut i: usize = 0;
    while i < input.partial_sigs.len()
        invariant
            i <= input.partial_sigs.len(),
            sigs == sigs_view(input.partial_sigs@),
            key_views == stack_view(keys@),
            forall|j: int| 0 <= j < i ==> key_views.contains((#[trigger] sigs[j]).pubkey),
        decreases input.partial_sigs.len() - i,
    {
        assert(sigs[i as int] == input.partial_sigs@[i as int]@);
        if !names_key(&keys, &input.partial_sigs[i].pubkey) {
            assert(!all_matched(key_views, sigs));
            return Err(TxError::PublicKeyNotFound);
        }
        i = i + 1;
    }
    assert(all_matched(key_views, sigs));
    // Every key of the path needs a signature.
    let mut witness: Vec<Vec<u8>> = Vec::new();
    let mut k: usize = 0;
    while k < keys.len()
        invariant
            k <= keys.len(),
            sigs == input@.partial_sigs,
            sigs == sigs_view(input.partial_sigs@),
            distinct_signers(sigs),
            key_views == stack_view(keys@),
            witness@.len() == k,
            forall|j: int| 0 <= j < k ==> has_signed(sigs, #[trigger] key_views[j]),
            forall|j: int|
                0 <= j < k ==> (#[trigger] witness@[j])@ == signature_of(sigs, key_views[j]),
        decreases keys.len() - k,
    {
        match find_signer(&input.partial_sigs, &keys[k]) {
            Some(i) => {
                proof {
                    assert(key_views[k as int] == keys@[k as int]@);
                    lemma_signature_unique(sigs, key_views[k as int], i as int);
                    assert(sigs[i as int] == input.partial_sigs@[i as int]@);
                }
                witness.push(copy_bytes(&input.partial_sigs[i].signature));
            },
            None => {
                proof {
                    assert(key_views[k as int] == keys@[k as int]@);
                    assert(!all_signed(key_views, sigs));
                }
                return Err(TxError::MissingSignature);
            },
        }
        k = k + 1;
    }
    assert(all_signed(key_views, sigs));
    // Every signature has to end with the flag of the input's sighash type.
    let sighash_type = match input.sighash_type {
        Some(t) => t,
        None => {
            return Err(TxError::MissingSigHashType);
        },
    };
    let mut i: usize = 0;
    while i < input.partial_sigs.len()
        invariant
            i <= input.partial_sigs.len(),
            sigs == sigs_view(input.partial_sigs@),
            forall|j: int| 0 <= j < i ==> carries_flag((#[trigger] sigs[j]).signature, sighash_type),
        decreases input.partial_sigs.len() - i,
    {
        assert(sigs[i as int] == input.partial_sigs@[i as int]@);
        if !has_flag(&input.partial_sigs[i].signature, sighash_type) {
            assert(!all_flagged(sigs, sighash_type));
            return Err(TxError::MissingSigHashType);
        }
        i = i + 1;
    }
    assert(all_flagged(sigs, sighash_type));
    let ghost signatures = stack_view(witness@);
    proof {
        assert(signatures =~= Seq::new(key_views.len(), |k: int| signature_of(sigs, key_views[k])));
    }
    match condition.path {
        Path::Whole => {},
        Path::First => {
            let mut selector: Vec<u8> = Vec::new();
            selector.push(1u8);
            proof {
                assert(selector@ =~= seq![1u8]);
            }
            witness.push(selector);
            proof {
                assert(stack_view(witness@) =~= signatures.push(seq![1u8]));
            }
        },
        Path::Second => {
            let selector: Vec<u8> = Vec::new();
            proof {
                assert(selector@ =~= Seq::<u8>::empty());
            }
            witness.push(selector);
            proof {
                assert(stack_view(witness@) =~= signatures.push(Seq::<u8>::empty()));
            }
        },
    }
    let ghost below = stack_view(witness@);
    witness.push(copy_bytes(script));
    proof {
        assert(stack_view(witness@) =~= below.push(script@));
    }
    Ok(witness)
}

} // verus!
