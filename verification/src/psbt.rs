//! Plain-data model of a partially signed transaction: the unsigned skeleton
//! with, for each input and output, the metadata that signers accumulate.

use crate::transaction::{
    copy_bytes, copy_stack, stack_view, Transaction, TransactionView, TxOut, TxOutView,
};
use vstd::prelude::*;

verus! {

/// Which parts of a transaction a signature commits to.
#[derive(Debug, Clone, Copy, PartialEq, Eq, Structural)]
pub enum SigHashType {
    /// All inputs and all outputs.
    All,
    /// All inputs, no output.
    NoOutput,
    /// All inputs, and the output at the signed input's position.
    Single,
    /// Only the signed input, all outputs.
    AllPlusAnyoneCanPay,
    /// Only the signed input, no output.
    NoOutputPlusAnyoneCanPay,
    /// Only the signed input, and the output at its position.
    SinglePlusAnyoneCanPay,
}

impl SigHashType {
    /// The flag byte that stands for this type at the end of a signature.
    pub open spec fn flag(self) -> u8 {
        match self {
            SigHashType::All => 0x01,
            SigHashType::NoOutput => 0x02,
            SigHashType::Single => 0x03,
            SigHashType::AllPlusAnyoneCanPay => 0x81,
            SigHashType::NoOutputPlusAnyoneCanPay => 0x82,
            SigHashType::SinglePlusAnyoneCanPay => 0x83,
        }
    }

    /// Returns the flag byte of this type.
    pub fn as_byte(&self) -> (byte: u8)
        ensures
            byte == self.flag(),
    {
        match self {
            SigHashType::All => 0x01,
            SigHashType::NoOutput => 0x02,
            SigHashType::Single => 0x03,
            SigHashType::AllPlusAnyoneCanPay => 0x81,
            SigHashType::NoOutputPlusAnyoneCanPay => 0x82,
            SigHashType::SinglePlusAnyoneCanPay => 0x83,
        }
    }
}

/// Tells whether two byte strings hold the same bytes.
pub fn same_bytes(a: &Vec<u8>, b: &Vec<u8>) -> (same: bool)
    ensures
        same == (a@ == b@),
{
    if a.len() != b.len() {
        return false;
    }
    let mut i: usize = 0;
    while i < a.len()
        invariant
            i <= a.len(),
            a.len() == b.len(),
            forall|k: int| 0 <= k < i ==> a@[k] == b@[k],
        decreases a.len() - i,
    {
        if a[i] != b[i] {
            return false;
        }
        i = i + 1;
    }
    proof {
        assert(a@ =~= b@);
    }
    true
}

/// The view of an optional byte string.
pub open spec fn bytes_view(bytes: Option<Vec<u8>>) -> Option<Seq<u8>> {
    match bytes {
        Some(b) => Some(b@),
        None => None,
    }
}

/// Copies an optional byte string.
pub fn copy_optional_bytes(bytes: &Option<Vec<u8>>) -> (copy: Option<Vec<u8>>)
    ensures
        bytes_view(copy) == bytes_view(*bytes),
{
    match bytes {
        Some(b) => Some(copy_bytes(b)),
        None => None,
    }
}

/// One signature collected for an input, with the public key of its signer.
#[derive(Debug, PartialEq, Eq)]
pub struct PartialSig {
    /// Serialized public key of the signer.
    pub pubkey: Vec<u8>,
    /// The signature as it goes on the witness stack: the encoded signature
    /// followed by its sighash flag byte.
    pub signature: Vec<u8>,
}

/// Mathematical view of a [`PartialSig`].
pub struct PartialSigView {
    pub pubkey: Seq<u8>,
    pub signature: Seq<u8>,
}

impl View for PartialSig {
    type V = PartialSigView;

    open spec fn view(&self) -> PartialSigView {
        PartialSigView { pubkey: self.pubkey@, signature: self.signature@ }
    }
}

impl Clone for PartialSig {
    fn clone(&self) -> (copy: Self)
        ensures
            copy@ == self@,
    {
        PartialSig { pubkey: copy_bytes(&self.pubkey), signature: copy_bytes(&self.signature) }
    }
}

/// The views of a list of collected signatures.
pub open spec fn sigs_view(sigs: Seq<PartialSig>) -> Seq<PartialSigView> {
    Seq::new(sigs.len(), |i: int| sigs[i]@)
}

/// No public key occurs twice among the collected signatures.
pub open spec fn distinct_signers(sigs: Seq<PartialSigView>) -> bool {
    forall|i: int, j: int|
        0 <= i < j < sigs.len() ==> (#[trigger] sigs[i]).pubkey != (#[trigger] sigs[j]).pubkey
}

/// Copies a list of collected signatures.
pub fn copy_sigs(sigs: &Vec<PartialSig>) -> (copy: Vec<PartialSig>)
    ensures
        sigs_view(copy@) == sigs_view(sigs@),
{
    let mut copy: Vec<PartialSig> = Vec::new();
    let mut i: usize = 0;
    while i < sigs.len()
        invariant
            i <= sigs.len(),
            copy@.len() == i,
            forall|k: int| 0 <= k < i ==> (#[trigger] copy@[k])@ == sigs@[k]@,
        decreases sigs.len() - i,
    {
        copy.push(sigs[i].clone());
        i = i + 1;
    }
    proof {
        assert(sigs_view(copy@) =~= sigs_view(sigs@));
    }
    copy
}

/// Tells whether no public key occurs twice in `sigs`.
pub fn has_distinct_signers(sigs: &Vec<PartialSig>) -> (distinct: bool)
    ensures
        distinct == distinct_signers(sigs_view(sigs@)),
{
    let ghost view = sigs_view(sigs@);
    let mut j: usize = 0;
    while j < sigs.len()
        invariant
            j <= sigs.len(),
            view == sigs_view(sigs@),
            forall|a: int, b: int|
                0 <= a < b < j ==> (#[trigger] view[a]).pubkey != (#[trigger] view[b]).pubkey,
        decreases sigs.len() - j,
    {
        let mut i: usize = 0;
        while i < j
            invariant
                i <= j,
                j < sigs.len(),
                view == sigs_view(sigs@),
                forall|a: int| 0 <= a < i ==> (#[trigger] view[a]).pubkey != view[j as int].pubkey,
            decreases j - i,
        {
            if same_bytes(&sigs[i].pubkey, &sigs[j].pubkey) {
                assert(view[i as int].pubkey == view[j as int].pubkey);
                return false;
            }
            i = i + 1;
        }
        j = j + 1;
    }
    true
}

/// Metadata of one input of a partially signed transaction.
#[derive(Debug, PartialEq, Eq)]
pub struct Input {
    /// The output that the input spends, for segwit spends.
    pub witness_utxo: Option<TxOut>,
    /// Signatures collected so far, at most one for each public key.
    pub partial_sigs: Vec<PartialSig>,
    /// Sighash type that the signatures of this input use.
    pub sighash_type: Option<SigHashType>,
    /// Script whose hash the spent output commits to.
    pub witness_script: Option<Vec<u8>>,
    /// Finished signature script, once the input is finalized.
    pub final_script_sig: Option<Vec<u8>>,
    /// Finished witness stack, once the input is finalized.
    pub final_script_witness: Option<Vec<Vec<u8>>>,
}

/// Mathematical view of an [`Input`].
pub struct InputView {
    pub witness_utxo: Option<TxOutView>,
    pub partial_sigs: Seq<PartialSigView>,
    pub sighash_type: Option<SigHashType>,
    pub witness_script: Option<Seq<u8>>,
    pub final_script_sig: Option<Seq<u8>>,
    pub final_script_witness: Option<Seq<Seq<u8>>>,
}

impl View for Input {
    type V = InputView;

    open spec fn view(&self) -> InputView {
        InputView {
            witness_utxo: match self.witness_utxo {
                Some(utxo) => Some(utxo@),
                None => None,
            },
            partial_sigs: sigs_view(self.partial_sigs@),
            sighash_type: self.sighash_type,
            witness_script: bytes_view(self.witness_script),
            final_script_sig: bytes_view(self.final_script_sig),
            final_script_witness: match self.final_script_witness {
                Some(stack) => Some(stack_view(stack@)),
                None => None,
            },
        }
    }
}

impl Clone for Input {
    fn clone(&self) -> (copy: Self)
        ensures
            copy@ == self@,
    {
        Input {
            witness_utxo: match &self.witness_utxo {
                Some(utxo) => Some(utxo.clone()),
                None => None,
            },
            partial_sigs: copy_sigs(&self.partial_sigs),
            sighash_type: self.sighash_type,
            witness_script: copy_optional_bytes(&self.witness_script),
            final_script_sig: copy_optional_bytes(&self.final_script_sig),
            final_script_witness: match &self.final_script_witness {
                Some(stack) => Some(copy_stack(stack)),
                None => None,
            },
        }
    }
}

/// Metadata of one output of a partially signed transaction.
#[derive(Debug, PartialEq, Eq)]
pub struct Output {
    /// Script whose hash the output commits to, where it is known.
    pub witness_script: Option<Vec<u8>>,
}

/// Mathematical view of an [`Output`].
pub struct OutputView {
    pub witness_script: Option<Seq<u8>>,
}

impl View for Output {
    type V = OutputView;

    open spec fn view(&self) -> OutputView {
        OutputView { witness_script: bytes_view(self.witness_script) }
    }
}

impl Clone for Output {
    fn clone(&self) -> (copy: Self)
        ensures
            copy@ == self@,
    {
        Output { witness_script: copy_optional_bytes(&self.witness_script) }
    }
}

/// The views of a list of input metadata.
pub open spec fn input_maps_view(inputs: Seq<Input>) -> Seq<InputView> {
    Seq::new(inputs.len(), |i: int| inputs[i]@)
}

/// The views of a list of output metadata.
pub open spec fn output_maps_view(outputs: Seq<Output>) -> Seq<OutputView> {
    Seq::new(outputs.len(), |i: int| outputs[i]@)
}

/// A partially signed transaction.
#[derive(Debug, PartialEq, Eq)]
pub struct PartiallySignedTransaction {
    /// The transaction being signed, without any unlocking data.
    pub unsigned_tx: Transaction,
    /// Metadata of each input of `unsigned_tx`, in the same order.
    pub inputs: Vec<Input>,
    /// Metadata of each output of `unsigned_tx`, in the same order.
    pub outputs: Vec<Output>,
}

/// Mathematical view of a [`PartiallySignedTransaction`].
pub struct PsbtView {
    pub unsigned_tx: TransactionView,
    pub inputs: Seq<InputView>,
    pub outputs: Seq<OutputView>,
}

impl View for PartiallySignedTransaction {
    type V = PsbtView;

    open spec fn view(&self) -> PsbtView {
        PsbtView {
            unsigned_tx: self.unsigned_tx@,
            inputs: input_maps_view(self.inputs@),
            outputs: output_maps_view(self.outputs@),
        }
    }
}

impl PsbtView {
    /// Well-formedness: one metadata record for each input and each output of
    /// the skeleton, a skeleton without unlocking data, and at most one
    /// collected signature for each public key.
    pub open spec fn wf(self) -> bool {
        &&& self.inputs.len() == self.unsigned_tx.input.len()
        &&& self.outputs.len() == self.unsigned_tx.output.len()
        &&& self.unsigned_tx.is_unsigned()
        &&& forall|i: int|
            0 <= i < self.inputs.len() ==> distinct_signers((#[trigger] self.inputs[i]).partial_sigs)
    }
}

impl Clone for PartiallySignedTransaction {
    fn clone(&self) -> (copy: Self)
        ensures
            copy@ == self@,
    {
        let mut inputs: Vec<Input> = Vec::new();
        let mut i: usize = 0;
        while i < self.inputs.len()
            invariant
                i <= self.inputs.len(),
                inputs@.len() == i,
                forall|k: int| 0 <= k < i ==> (#[trigger] inputs@[k])@ == self.inputs@[k]@,
            decreases self.inputs.len() - i,
        {
            inputs.push(self.inputs[i].clone());
            i = i + 1;
        }
        let mut outputs: Vec<Output> = Vec::new();
        let mut j: usize = 0;
        while j < self.outputs.len()
            invariant
                j <= self.outputs.len(),
                outputs@.len() == j,
                forall|k: int| 0 <= k < j ==> (#[trigger] outputs@[k])@ == self.outputs@[k]@,
            decreases self.outputs.len() - j,
        {
            outputs.push(self.outputs[j].clone());
            j = j + 1;
        }
        proof {
            assert(input_maps_view(inputs@) =~= input_maps_view(self.inputs@));
            assert(output_maps_view(outputs@) =~= output_maps_view(self.outputs@));
        }
        PartiallySignedTransaction { unsigned_tx: self.unsigned_tx.clone(), inputs, outputs }
    }
}

impl PartiallySignedTransaction {
    /// Tells whether the container is well-formed.
    pub fn is_well_formed(&self) -> (ok: bool)
        ensures
            ok == self@.wf(),
    {
        if self.inputs.len() != self.unsigned_tx.input.len() {
            return false;
        }
        if self.outputs.len() != self.unsigned_tx.output.len() {
            return false;
        }
        if !self.unsigned_tx.is_unsigned() {
            return false;
        }
        let mut i: usize = 0;
        while i < self.inputs.len()
            invariant
                i <= self.inputs.len(),
                forall|k: int| 0 <= k < i ==> distinct_signers((#[trigger] self@.inputs[k]).partial_sigs),
            decreases self.inputs.len() - i,
        {
            if !has_distinct_signers(&self.inputs[i].partial_sigs) {
                assert(!distinct_signers(self@.inputs[i as int].partial_sigs));
                return false;
            }
            assert(distinct_signers(self@.inputs[i as int].partial_sigs));
            i = i + 1;
        }
        true
    }
}

} // verus!
