//! The typed transaction: a partially signed transaction together with its
//! kind and its state, partial or finalized.

use crate::error::TxError;
use crate::finalize::{
    finalized_as, outcome_of, Buy, Cancel, Finalization, Funding, Lock, Punish, Refund,
    SubTransaction, TxKind,
};
use crate::psbt::{
    bytes_view, copy_optional_bytes, PartiallySignedTransaction, PsbtView,
};
use crate::transaction::{
    copy_bytes, copy_stack, inputs_view, OutPoint, OutPointView, Transaction, TransactionView,
    TxIn, TxInView, TxOut, TxOutView,
};
use bitcoin::{
    OutPoint as LedgerOutPoint, Transaction as LedgerTransaction, TxIn as LedgerTxIn,
    TxOut as LedgerTxOut,
};
use vstd::prelude::*;

verus! {

/// What `bitcoin::Transaction::txid` returns for a transaction: the double
/// SHA-256 of its serialization.
pub uninterp spec fn transaction_id(tx: TransactionView) -> Seq<u8>;

/// The identifier of a transaction. It is computed from the transaction
/// without its witnesses, so attaching a witness does not change it.
pub open spec fn identifier(tx: TransactionView) -> Seq<u8> {
    transaction_id(tx.without_witnesses())
}

/// Computes the identifier of a transaction with `bitcoin::Transaction::txid`.
///
/// Trusted: the result is that function's, on the same version, lock time,
/// inputs and outputs. Nothing more is claimed of it than that it is a
/// function of the transaction, named [`transaction_id`].
#[verifier::external_body]
pub(crate) fn compute_txid(tx: Transaction) -> (id: [u8; 32])
    ensures
        id@ == transaction_id(tx@),
{
    let input = tx.input.into_iter().map(|i| LedgerTxIn {
        previous_output: LedgerOutPoint::new(
            bitcoin::hashes::Hash::from_inner(i.previous_output.txid),
            i.previous_output.vout,
        ),
        script_sig: i.script_sig.into(),
        sequence: i.sequence,
        witness: i.witness,
    }).collect();
    let output = tx.output.into_iter()
        .map(|o| LedgerTxOut { value: o.value, script_pubkey: o.script_pubkey.into() }).collect();
    let tx = LedgerTransaction { version: tx.version, lock_time: tx.lock_time, input, output };
    bitcoin::hashes::Hash::into_inner(tx.txid())
}

impl Transaction {
    /// Computes the identifier of the transaction.
    pub fn txid(&self) -> (id: [u8; 32])
        ensures
            id@ == identifier(self@),
    {
        compute_txid(self.without_witnesses())
    }
}

/// The output of a transaction that the next transaction of the chain
/// spends, with what is needed to spend it.
#[derive(Debug, PartialEq, Eq)]
pub struct MetadataOutput {
    /// Where the output is: the transaction's identifier and the position.
    pub out_point: OutPoint,
    /// The output itself: its value and its locking script.
    pub tx_out: TxOut,
    /// The witness script behind the locking script, where it is recorded.
    pub script_pubkey: Option<Vec<u8>>,
}

/// Mathematical view of a [`MetadataOutput`].
pub struct MetadataOutputView {
    pub out_point: OutPointView,
    pub tx_out: TxOutView,
    pub script_pubkey: Option<Seq<u8>>,
}

impl View for MetadataOutput {
    type V = MetadataOutputView;

    open spec fn view(&self) -> MetadataOutputView {
        MetadataOutputView {
            out_point: self.out_point@,
            tx_out: self.tx_out@,
            script_pubkey: bytes_view(self.script_pubkey),
        }
    }
}

impl Clone for MetadataOutput {
    fn clone(&self) -> (copy: Self)
        ensures
            copy@ == self@,
    {
        MetadataOutput {
            out_point: self.out_point.clone(),
            tx_out: self.tx_out.clone(),
            script_pubkey: copy_optional_bytes(&self.script_pubkey),
        }
    }
}

/// The record that links the first output of a container's transaction into
/// the next step of the chain.
pub open spec fn consumable_output(psbt: PsbtView) -> MetadataOutputView {
    MetadataOutputView {
        out_point: OutPointView { txid: identifier(psbt.unsigned_tx), vout: 0 },
        tx_out: psbt.unsigned_tx.output[0],
        script_pubkey: psbt.outputs[0].witness_script,
    }
}

/// The transaction that a container yields: its skeleton, each input filled
/// with the final signature script and the final witness recorded for it,
/// and left empty where none is.
pub open spec fn extracted(psbt: PsbtView) -> TransactionView {
    TransactionView {
        input: Seq::new(
            psbt.unsigned_tx.input.len(),
            |i: int|
                if i < psbt.inputs.len() {
                    TxInView {
                        script_sig: match psbt.inputs[i].final_script_sig {
                            Some(script) => script,
                            None => Seq::empty(),
                        },
                        witness: match psbt.inputs[i].final_script_witness {
                            Some(witness) => witness,
                            None => Seq::empty(),
                        },
                        ..psbt.unsigned_tx.input[i]
                    }
                } else {
                    psbt.unsigned_tx.input[i]
                },
        ),
        ..psbt.unsigned_tx
    }
}

impl PartiallySignedTransaction {
    /// Builds the transaction that this container yields.
    pub fn extract_tx(&self) -> (tx: Transaction)
        ensures
            tx@ == extracted(self@),
    {
        let mut input: Vec<TxIn> = Vec::new();
        let mut i: usize = 0;
        while i < self.unsigned_tx.input.len()
            invariant
                i <= self.unsigned_tx.input.len(),
                input@.len() == i,
                forall|k: int| 0 <= k < i ==> (#[trigger] input@[k])@ == extracted(self@).input[k],
            decreases self.unsigned_tx.input.len() - i,
        {
            let skeleton = &self.unsigned_tx.input[i];
            assert(self@.unsigned_tx.input[i as int] == skeleton@);
            if i < self.inputs.len() {
                assert(self@.inputs[i as int] == self.inputs@[i as int]@);
                let script_sig = match &self.inputs[i].final_script_sig {
                    Some(script) => copy_bytes(script),
                    None => Vec::new(),
                };
                let witness = match &self.inputs[i].final_script_witness {
                    Some(witness) => copy_stack(witness),
                    None => Vec::new(),
                };
                proof {
                    if self.inputs[i as int].final_script_witness is None {
                        assert(crate::transaction::stack_view(witness@) =~= Seq::<Seq<u8>>::empty());
                    }
                    if self.inputs[i as int].final_script_sig is None {
                        assert(script_sig@ =~= Seq::<u8>::empty());
                    }
                }
                input.push(
                    TxIn {
                        previous_output: skeleton.previous_output.clone(),
                        script_sig,
                        sequence: skeleton.sequence,
                        witness,
                    },
                );
            } else {
                input.push(skeleton.clone());
            }
            i = i + 1;
        }
        let skeleton = self.unsigned_tx.clone();
        proof {
            assert(inputs_view(input@) =~= extracted(self@).input);
        }
        Transaction {
            version: skeleton.version,
            lock_time: skeleton.lock_time,
            input,
            output: skeleton.output,
        }
    }
}

/// The transaction of the given kind that `psbt` holds is complete: the
/// finalizer of its kind accepts it, and the first input's final witness is
/// the one that the finalizer assembles.
pub open spec fn is_complete(kind: TxKind, psbt: PsbtView) -> bool {
    match outcome_of(kind, psbt) {
        Finalization::Accepted => true,
        Finalization::Witness(witness) => psbt.inputs.len() > 0
            && psbt.inputs[0].final_script_witness == Some(witness),
        Finalization::Rejected(_) => false,
    }
}

/// Storing the witness that a finalizer assembled keeps the container
/// well-formed, changes nothing that the finalizer reads, and so makes the
/// transaction complete.
pub proof fn lemma_witness_completes(kind: TxKind, psbt: PsbtView, witness: Seq<Seq<u8>>)
    requires
        psbt.wf(),
        outcome_of(kind, psbt) == Finalization::Witness(witness),
    ensures
        psbt.with_witness(witness).wf(),
        outcome_of(kind, psbt.with_witness(witness)) == outcome_of(kind, psbt),
        is_complete(kind, psbt.with_witness(witness)),
{
    let after = psbt.with_witness(witness);
    assert(psbt.inputs.len() > 0);
    assert forall|i: int| 0 <= i < after.inputs.len() implies crate::psbt::distinct_signers(
        (#[trigger] after.inputs[i]).partial_sigs,
    ) by {
        assert(after.inputs[i].partial_sigs == psbt.inputs[i].partial_sigs);
    }
}

/// A transaction of the swap: a partially signed transaction, the kind that
/// decides how it is finalized, and whether it has been.
#[derive(Debug)]
pub struct Tx {
    kind: TxKind,
    psbt: PartiallySignedTransaction,
    finalized: bool,
}

/// Mathematical view of a [`Tx`].
pub struct TxView {
    pub kind: TxKind,
    pub psbt: PsbtView,
    pub finalized: bool,
}

impl View for Tx {
    type V = TxView;

    closed spec fn view(&self) -> TxView {
        TxView { kind: self.kind, psbt: self.psbt@, finalized: self.finalized }
    }
}

impl TxView {
    /// What holds of every typed transaction: its container is well-formed,
    /// and in the finalized state the transaction is complete.
    pub open spec fn wf(self) -> bool {
        &&& self.psbt.wf()
        &&& self.finalized ==> is_complete(self.kind, self.psbt)
    }
}

impl Tx {
    #[verifier::type_invariant]
    spec fn well_formed(self) -> bool {
        self@.wf()
    }

    /// Wraps a partially signed transaction as a transaction of the given
    /// kind, in the partial state. A container that is not well-formed is
    /// refused.
    pub fn from_partial(kind: TxKind, psbt: PartiallySignedTransaction) -> (wrapped: Option<Tx>)
        ensures
            match wrapped {
                Some(tx) => {
                    &&& psbt@.wf()
                    &&& tx@ == (TxView { kind, psbt: psbt@, finalized: false })
                    &&& tx@.wf()
                },
                None => !psbt@.wf(),
            },
    {
        if psbt.is_well_formed() {
            Some(Tx { kind, psbt, finalized: false })
        } else {
            None
        }
    }

    /// Returns the kind of this transaction.
    pub fn kind(&self) -> (kind: TxKind)
        ensures
            kind == self@.kind,
    {
        self.kind
    }

    /// Tells whether this transaction has been finalized.
    pub fn is_finalized(&self) -> (finalized: bool)
        ensures
            finalized == self@.finalized,
    {
        self.finalized
    }

    /// Returns a copy of the partially signed transaction, to hand to the
    /// other party.
    pub fn to_partial(&self) -> (partial: Option<PartiallySignedTransaction>)
        ensures
            self@.wf(),
            partial matches Some(psbt) && psbt@ == self@.psbt,
    {
        proof {
            use_type_invariant(self);
        }
        Some(self.psbt.clone())
    }

    /// Finalizes the transaction with the strategy of its kind. On success
    /// the transaction is in the finalized state; on failure it is unchanged.
    /// A transaction that is finalized already is left as it is, and the
    /// call succeeds.
    pub fn finalize(&mut self) -> (result: Result<(), TxError>)
        ensures
            old(self)@.wf(),
            final(self)@.wf(),
            final(self)@.kind == old(self)@.kind,
            old(self)@.finalized ==> result is Ok && final(self)@ == old(self)@,
            !old(self)@.finalized ==> {
                &&& finalized_as(
                    outcome_of(old(self)@.kind, old(self)@.psbt),
                    old(self)@.psbt,
                    final(self)@.psbt,
                    result,
                )
                &&& final(self)@.finalized == (result is Ok)
            },
    {
        proof {
            use_type_invariant(&*self);
        }
        if self.finalized {
            return Ok(());
        }
        let mut psbt = self.psbt.clone();
        let result = match self.kind {
            TxKind::Funding => Funding::finalize(&mut psbt),
            TxKind::Lock => Lock::finalize(&mut psbt),
            TxKind::Buy => Buy::finalize(&mut psbt),
            TxKind::Cancel => Cancel::finalize(&mut psbt),
            TxKind::Punish => Punish::finalize(&mut psbt),
            TxKind::Refund => Refund::finalize(&mut psbt),
        };
        if result.is_ok() {
            proof {
                match outcome_of(self.kind, self.psbt@) {
                    Finalization::Witness(witness) => {
                        lemma_witness_completes(self.kind, self.psbt@, witness);
                    },
                    _ => {},
                }
            }
            self.psbt = psbt;
            self.finalized = true;
        }
        result
    }

    /// Builds the transaction to broadcast. The transaction must have been
    /// finalized: before that its witness is not there.
    pub fn extract(&self) -> (tx: Transaction)
        requires
            self@.finalized,
        ensures
            tx@ == extracted(self@.psbt),
    {
        self.psbt.extract_tx()
    }

    /// Returns the record of the single output that the next transaction of
    /// the chain spends. It depends on the skeleton alone, so it is the same
    /// before and after finalization.
    pub fn get_consumable_output(&self) -> (linked: Result<MetadataOutput, TxError>)
        ensures
            match linked {
                Ok(output) => self@.psbt.unsigned_tx.has_consumable_output() && output@
                    == consumable_output(self@.psbt),
                Err(e) => !self@.psbt.unsigned_tx.has_consumable_output() && e
                    == TxError::MultiUTXOUnsupported,
            },
    {
        proof {
            use_type_invariant(self);
        }
        if !self.psbt.unsigned_tx.has_consumable_output() {
            return Err(TxError::MultiUTXOUnsupported);
        }
        assert(self.psbt@.unsigned_tx.output[0] == self.psbt.unsigned_tx.output@[0]@);
        assert(self.psbt@.outputs[0] == self.psbt.outputs@[0]@);
        Ok(
            MetadataOutput {
                out_point: OutPoint { txid: self.psbt.unsigned_tx.txid(), vout: 0 },
                tx_out: self.psbt.unsigned_tx.output[0].clone(),
                script_pubkey: copy_optional_bytes(&self.psbt.outputs[0].witness_script),
            },
        )
    }
}

} // verus!
