//! Plain-data model of a ledger transaction: out-points, inputs, outputs and
//! the transaction skeleton, each with its mathematical view.

use vstd::prelude::*;

verus! {

/// Copies a byte string.
pub fn copy_bytes(bytes: &Vec<u8>) -> (copy: Vec<u8>)
    ensures
        copy@ == bytes@,
{
    let mut copy: Vec<u8> = Vec::new();
    let mut i: usize = 0;
    while i < bytes.len()
        invariant
            i <= bytes.len(),
            copy@ == bytes@.take(i as int),
        decreases bytes.len() - i,
    {
        copy.push(bytes[i]);
        proof {
            assert(bytes@.take(i + 1) == bytes@.take(i as int).push(bytes@[i as int]));
        }
        i = i + 1;
    }
    proof {
        assert(bytes@.take(bytes@.len() as int) == bytes@);
    }
    copy
}

/// The view of a list of byte strings: each element by its own view.
pub open spec fn stack_view(stack: Seq<Vec<u8>>) -> Seq<Seq<u8>> {
    Seq::new(stack.len(), |i: int| stack[i]@)
}

/// Copies a list of byte strings, such as a witness stack.
pub fn copy_stack(stack: &Vec<Vec<u8>>) -> (copy: Vec<Vec<u8>>)
    ensures
        stack_view(copy@) == stack_view(stack@),
{
    let mut copy: Vec<Vec<u8>> = Vec::new();
    let mut i: usize = 0;
    while i < stack.len()
        invariant
            i <= stack.len(),
            copy@.len() == i,
            forall|k: int| 0 <= k < i ==> (#[trigger] copy@[k])@ == stack@[k]@,
        decreases stack.len() - i,
    {
        copy.push(copy_bytes(&stack[i]));
        i = i + 1;
    }
    proof {
        assert(stack_view(copy@) =~= stack_view(stack@));
    }
    copy
}

/// A reference to one output of a transaction.
#[derive(Debug, PartialEq, Eq)]
pub struct OutPoint {
    /// Identifier of the transaction that holds the output.
    pub txid: [u8; 32],
    /// Position of the output in that transaction.
    pub vout: u32,
}

/// Mathematical view of an [`OutPoint`].
pub struct OutPointView {
    pub txid: Seq<u8>,
    pub vout: u32,
}

impl View for OutPoint {
    type V = OutPointView;

    open spec fn view(&self) -> OutPointView {
        OutPointView { txid: self.txid@, vout: self.vout }
    }
}

impl OutPointView {
    /// The out-point that refers to no output: the all-zero identifier with
    /// the largest index. Coinbase inputs carry it.
    pub open spec fn is_null(self) -> bool {
        &&& self.vout == u32::MAX
        &&& self.txid.len() == 32
        &&& forall|i: int| 0 <= i < 32 ==> self.txid[i] == 0u8
    }
}

impl Clone for OutPoint {
    fn clone(&self) -> (copy: Self)
        ensures
            copy@ == self@,
    {
        OutPoint { txid: self.txid, vout: self.vout }
    }
}

impl OutPoint {
    /// Tells whether this is the null out-point.
    pub fn is_null(&self) -> (null: bool)
        ensures
            null == self@.is_null(),
    {
        if self.vout != u32::MAX {
            return false;
        }
        let mut i: usize = 0;
        while i < 32
            invariant
                i <= 32,
                forall|k: int| 0 <= k < i ==> self.txid@[k] == 0u8,
            decreases 32 - i,
        {
            if self.txid[i] != 0 {
                return false;
            }
            i = i + 1;
        }
        true
    }
}

/// A transaction output: an amount locked by a script.
#[derive(Debug, PartialEq, Eq)]
pub struct TxOut {
    /// Amount held by the output, in the ledger's smallest unit.
    pub value: u64,
    /// Script that a spender has to satisfy.
    pub script_pubkey: Vec<u8>,
}

/// Mathematical view of a [`TxOut`].
pub struct TxOutView {
    pub value: u64,
    pub script_pubkey: Seq<u8>,
}

impl View for TxOut {
    type V = TxOutView;

    open spec fn view(&self) -> TxOutView {
        TxOutView { value: self.value, script_pubkey: self.script_pubkey@ }
    }
}

impl Clone for TxOut {
    fn clone(&self) -> (copy: Self)
        ensures
            copy@ == self@,
    {
        TxOut { value: self.value, script_pubkey: copy_bytes(&self.script_pubkey) }
    }
}

/// A transaction input: the output it consumes and the data that satisfies
/// that output's script.
#[derive(Debug, PartialEq, Eq)]
pub struct TxIn {
    /// The output being spent.
    pub previous_output: OutPoint,
    /// Legacy unlocking script; empty for segwit spends.
    pub script_sig: Vec<u8>,
    /// Sequence number, which also encodes a relative timelock.
    pub sequence: u32,
    /// Witness stack; empty until the transaction is finalized.
    pub witness: Vec<Vec<u8>>,
}

/// Mathematical view of a [`TxIn`].
pub struct TxInView {
    pub previous_output: OutPointView,
    pub script_sig: Seq<u8>,
    pub sequence: u32,
    pub witness: Seq<Seq<u8>>,
}

impl View for TxIn {
    type V = TxInView;

    open spec fn view(&self) -> TxInView {
        TxInView {
            previous_output: self.previous_output@,
            script_sig: self.script_sig@,
            sequence: self.sequence,
            witness: stack_view(self.witness@),
        }
    }
}

impl TxInView {
    /// The input without its witness.
    pub open spec fn without_witness(self) -> TxInView {
        TxInView { witness: Seq::empty(), ..self }
    }

    /// The input without its signature script and witness.
    pub open spec fn without_unlocking_data(self) -> TxInView {
        TxInView { script_sig: Seq::empty(), witness: Seq::empty(), ..self }
    }
}

impl Clone for TxIn {
    fn clone(&self) -> (copy: Self)
        ensures
            copy@ == self@,
    {
        TxIn {
            previous_output: self.previous_output.clone(),
            script_sig: copy_bytes(&self.script_sig),
            sequence: self.sequence,
            witness: copy_stack(&self.witness),
        }
    }
}

/// The views of a list of inputs.
pub open spec fn inputs_view(inputs: Seq<TxIn>) -> Seq<TxInView> {
    Seq::new(inputs.len(), |i: int| inputs[i]@)
}

/// The views of a list of outputs.
pub open spec fn outputs_view(outputs: Seq<TxOut>) -> Seq<TxOutView> {
    Seq::new(outputs.len(), |i: int| outputs[i]@)
}

/// A transaction: version, lock time, inputs and outputs.
#[derive(Debug, PartialEq, Eq)]
pub struct Transaction {
    /// Protocol version.
    pub version: i32,
    /// Absolute lock time.
    pub lock_time: u32,
    /// Inputs, in order.
    pub input: Vec<TxIn>,
    /// Outputs, in order.
    pub output: Vec<TxOut>,
}

/// Mathematical view of a [`Transaction`].
pub struct TransactionView {
    pub version: i32,
    pub lock_time: u32,
    pub input: Seq<TxInView>,
    pub output: Seq<TxOutView>,
}

impl View for Transaction {
    type V = TransactionView;

    open spec fn view(&self) -> TransactionView {
        TransactionView {
            version: self.version,
            lock_time: self.lock_time,
            input: inputs_view(self.input@),
            output: outputs_view(self.output@),
        }
    }
}

impl TransactionView {
    /// A coinbase transaction has exactly one input, and that input spends
    /// the null out-point.
    pub open spec fn is_coin_base(self) -> bool {
        self.input.len() == 1 && self.input[0].previous_output.is_null()
    }

    /// The transaction creates exactly one output that a successor can
    /// spend. Two outputs are tolerated in a coinbase transaction only.
    pub open spec fn has_consumable_output(self) -> bool {
        self.output.len() == 1 || (self.output.len() == 2 && self.is_coin_base())
    }

    /// The transaction without the witnesses of its inputs: what its
    /// identifier is computed from.
    pub open spec fn without_witnesses(self) -> TransactionView {
        TransactionView {
            input: Seq::new(self.input.len(), |i: int| self.input[i].without_witness()),
            ..self
        }
    }

    /// The transaction without the signature scripts and witnesses of its
    /// inputs: what a segwit signature digest is computed from.
    pub open spec fn without_unlocking_data(self) -> TransactionView {
        TransactionView {
            input: Seq::new(self.input.len(), |i: int| self.input[i].without_unlocking_data()),
            ..self
        }
    }

    /// The skeleton carries no unlocking data: every input has an empty
    /// signature script and an empty witness.
    pub open spec fn is_unsigned(self) -> bool {
        forall|i: int|
            0 <= i < self.input.len() ==> (#[trigger] self.input[i]).script_sig.len() == 0
                && self.input[i].witness.len() == 0
    }
}

/// Copies a list of outputs.
pub fn copy_outputs(outputs: &Vec<TxOut>) -> (copy: Vec<TxOut>)
    ensures
        outputs_view(copy@) == outputs_view(outputs@),
{
    let mut copy: Vec<TxOut> = Vec::new();
    let mut j: usize = 0;
    while j < outputs.len()
        invariant
            j <= outputs.len(),
            copy@.len() == j,
            forall|k: int| 0 <= k < j ==> (#[trigger] copy@[k])@ == outputs@[k]@,
        decreases outputs.len() - j,
    {
        copy.push(outputs[j].clone());
        j = j + 1;
    }
    proof {
        assert(outputs_view(copy@) =~= outputs_view(outputs@));
    }
    copy
}

impl Clone for Transaction {
    fn clone(&self) -> (copy: Self)
        ensures
            copy@ == self@,
    {
        let mut input: Vec<TxIn> = Vec::new();
        let mut i: usize = 0;
        while i < self.input.len()
            invariant
                i <= self.input.len(),
                input@.len() == i,
                forall|k: int| 0 <= k < i ==> (#[trigger] input@[k])@ == self.input@[k]@,
            decreases self.input.len() - i,
        {
            input.push(self.input[i].clone());
            i = i + 1;
        }
        proof {
            assert(inputs_view(input@) =~= inputs_view(self.input@));
        }
        Transaction {
            version: self.version,
            lock_time: self.lock_time,
            input,
            output: copy_outputs(&self.output),
        }
    }
}

impl Transaction {
    /// Copies the transaction, leaving the witnesses of its inputs out.
    pub fn without_witnesses(&self) -> (stripped: Transaction)
        ensures
            stripped@ == self@.without_witnesses(),
            stripped.input.len() == self.input.len(),
    {
        let mut input: Vec<TxIn> = Vec::new();
        let mut i: usize = 0;
        while i < self.input.len()
            invariant
                i <= self.input.len(),
                input@.len() == i,
                forall|k: int|
                    0 <= k < i ==> (#[trigger] input@[k])@ == self.input@[k]@.without_witness(),
            decreases self.input.len() - i,
        {
            let witness: Vec<Vec<u8>> = Vec::new();
            proof {
                assert(stack_view(witness@) =~= Seq::<Seq<u8>>::empty());
            }
            input.push(
                TxIn {
                    previous_output: self.input[i].previous_output.clone(),
                    script_sig: copy_bytes(&self.input[i].script_sig),
                    sequence: self.input[i].sequence,
                    witness,
                },
            );
            i = i + 1;
        }
        proof {
            assert(inputs_view(input@) =~= self@.without_witnesses().input);
        }
        Transaction {
            version: self.version,
            lock_time: self.lock_time,
            input,
            output: copy_outputs(&self.output),
        }
    }

    /// Copies the transaction, leaving the signature scripts and the
    /// witnesses of its inputs out.
    pub fn without_unlocking_data(&self) -> (stripped: Transaction)
        ensures
            stripped@ == self@.without_unlocking_data(),
            stripped.input.len() == self.input.len(),
    {
        let mut input: Vec<TxIn> = Vec::new();
        let mut i: usize = 0;
        while i < self.input.len()
            invariant
                i <= self.input.len(),
                input@.len() == i,
                forall|k: int|
                    0 <= k < i ==> (#[trigger] input@[k])@
                        == self.input@[k]@.without_unlocking_data(),
            decreases self.input.len() - i,
        {
            let script_sig: Vec<u8> = Vec::new();
            let witness: Vec<Vec<u8>> = Vec::new();
            proof {
                assert(script_sig@ =~= Seq::<u8>::empty());
                assert(stack_view(witness@) =~= Seq::<Seq<u8>>::empty());
            }
            input.push(
                TxIn {
                    previous_output: self.input[i].previous_output.clone(),
                    script_sig,
                    sequence: self.input[i].sequence,
                    witness,
                },
            );
            i = i + 1;
        }
        proof {
            assert(inputs_view(input@) =~= self@.without_unlocking_data().input);
        }
        Transaction {
            version: self.version,
            lock_time: self.lock_time,
            input,
            output: copy_outputs(&self.output),
        }
    }

    /// Tells whether this is a coinbase transaction.
    pub fn is_coin_base(&self) -> (coin_base: bool)
        ensures
            coin_base == self@.is_coin_base(),
    {
        self.input.len() == 1 && self.input[0].previous_output.is_null()
    }

    /// Tells whether the transaction creates exactly one spendable output.
    pub fn has_consumable_output(&self) -> (single: bool)
        ensures
            single == self@.has_consumable_output(),
    {
        self.output.len() == 1 || (self.output.len() == 2 && self.is_coin_base())
    }

    /// Tells whether no input carries unlocking data yet.
    pub fn is_unsigned(&self) -> (unsigned: bool)
        ensures
            unsigned == self@.is_unsigned(),
    {
        let mut i: usize = 0;
        while i < self.input.len()
            invariant
                i <= self.input.len(),
                forall|k: int|
                    0 <= k < i ==> (#[trigger] self@.input[k]).script_sig.len() == 0
                        && self@.input[k].witness.len() == 0,
            decreases self.input.len() - i,
        {
            if self.input[i].script_sig.len() != 0 || self.input[i].witness.len() != 0 {
                assert(self@.input[i as int].script_sig.len() != 0 || self@.input[i as int].witness.len() != 0);
                return false;
            }
            i = i + 1;
        }
        true
    }
}

} // verus!
