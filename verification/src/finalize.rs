//! Finalizing a partially signed transaction: one strategy for each kind of
//! transaction of the swap. A finalizer validates first and writes last, so
//! a transaction that it rejects is left as it was.

use crate::error::TxError;
use crate::psbt::{InputView, PartiallySignedTransaction, PsbtView};
use crate::script::{parse_script, script_instructions, Path};
use crate::transaction::copy_bytes;
use crate::witness::{assemble_witness, spend_witness, SpendCondition};
use vstd::prelude::*;

verus! {

/// The kinds of transaction of a swap. Funding is the root of the chain; Lock
/// spends Funding; Buy and Cancel spend Lock; Punish and Refund spend Cancel.
#[derive(Debug, Clone, Copy, PartialEq, Eq, Structural)]
pub enum TxKind {
    /// Brings the funds into the swap.
    Funding,
    /// Locks the funds under the lock script.
    Lock,
    /// Pays the locked funds out on the cooperative branch.
    Buy,
    /// Moves the locked funds under the cancel script once the first
    /// timelock has run out.
    Cancel,
    /// Takes the cancelled funds once the second timelock has run out.
    Punish,
    /// Returns the cancelled funds on the cooperative branch.
    Refund,
}

impl TxKind {
    /// What a transaction of this kind satisfies to spend its predecessor.
    /// Funding spends no output of the chain.
    ///
    /// - Lock: the single condition of the funding script, at least one
    ///   signer.
    /// - Buy: the first, cooperative branch of the lock script, both parties.
    /// - Cancel: the second, timelocked branch of the lock script.
    /// - Refund: the first, cooperative branch of the cancel script, both
    ///   parties.
    /// - Punish: the second, timelocked branch of the cancel script.
    pub open spec fn spend_condition(self) -> Option<SpendCondition> {
        match self {
            TxKind::Funding => None,
            TxKind::Lock => Some(SpendCondition { path: Path::Whole, min_signers: 1 }),
            TxKind::Buy => Some(SpendCondition { path: Path::First, min_signers: 2 }),
            TxKind::Cancel => Some(SpendCondition { path: Path::Second, min_signers: 1 }),
            TxKind::Punish => Some(SpendCondition { path: Path::Second, min_signers: 1 }),
            TxKind::Refund => Some(SpendCondition { path: Path::First, min_signers: 2 }),
        }
    }

    /// Returns the spending condition of this kind.
    pub fn condition(&self) -> (condition: Option<SpendCondition>)
        ensures
            condition == self.spend_condition(),
    {
        match self {
            TxKind::Funding => None,
            TxKind::Lock => Some(SpendCondition { path: Path::Whole, min_signers: 1 }),
            TxKind::Buy => Some(SpendCondition { path: Path::First, min_signers: 2 }),
            TxKind::Cancel => Some(SpendCondition { path: Path::Second, min_signers: 1 }),
            TxKind::Punish => Some(SpendCondition { path: Path::Second, min_signers: 1 }),
            TxKind::Refund => Some(SpendCondition { path: Path::First, min_signers: 2 }),
        }
    }
}

/// What finalizing a transaction comes to.
pub enum Finalization {
    /// The transaction is accepted as it stands; nothing is written.
    Accepted,
    /// The transaction is accepted, and its first input gets this witness.
    Witness(Seq<Seq<u8>>),
    /// The transaction is rejected with this error.
    Rejected(TxError),
}

impl PsbtView {
    /// The same container with `witness` as the final witness of its first
    /// input.
    pub open spec fn with_witness(self, witness: Seq<Seq<u8>>) -> PsbtView {
        PsbtView {
            inputs: self.inputs.update(
                0,
                InputView { final_script_witness: Some(witness), ..self.inputs[0] },
            ),
            ..self
        }
    }
}

/// A finalizer that met `outcome` on `before` left `after` and returned
/// `result`.
pub open spec fn finalized_as(
    outcome: Finalization,
    before: PsbtView,
    after: PsbtView,
    result: Result<(), TxError>,
) -> bool {
    match outcome {
        Finalization::Accepted => result is Ok && after == before,
        Finalization::Witness(witness) => {
            &&& result is Ok
            &&& before.inputs.len() > 0
            &&& after == before.with_witness(witness)
        },
        Finalization::Rejected(e) => result == Err::<(), TxError>(e) && after == before,
    }
}

/// Why a transaction cannot spend its predecessor's output, whatever its
/// signatures: it has more than one input or no single spendable output, or
/// its input does not record the output it spends, or not that output's
/// witness script.
pub open spec fn spend_obstacle(psbt: PsbtView) -> Option<TxError> {
    if psbt.unsigned_tx.input.len() > 1 || !psbt.unsigned_tx.has_consumable_output() {
        Some(TxError::MultiUTXOUnsupported)
    } else if psbt.unsigned_tx.input.len() == 0 || psbt.inputs[0].witness_utxo is None {
        Some(TxError::MissingWitnessUTXO)
    } else if psbt.inputs[0].witness_script is None {
        Some(TxError::MissingWitnessScript)
    } else {
        None
    }
}

/// What finalizing a transaction that spends under `condition` comes to. A
/// witness script that does not decode is rejected with the script
/// interpreter's error.
pub open spec fn spend_outcome(condition: SpendCondition, psbt: PsbtView) -> Finalization {
    match spend_obstacle(psbt) {
        Some(e) => Finalization::Rejected(e),
        None => {
            let script = psbt.inputs[0].witness_script->0;
            match script_instructions(script) {
                Err(e) => Finalization::Rejected(TxError::BitcoinScript(e)),
                Ok(program) => match spend_witness(condition, psbt.inputs[0], script, program) {
                    Ok(witness) => Finalization::Witness(witness),
                    Err(e) => Finalization::Rejected(e),
                },
            }
        },
    }
}

/// What finalizing a funding transaction comes to: it needs a single
/// spendable output whose witness script is recorded, and gets no witness.
pub open spec fn funding_outcome(psbt: PsbtView) -> Finalization {
    if !psbt.unsigned_tx.has_consumable_output() {
        Finalization::Rejected(TxError::MultiUTXOUnsupported)
    } else if psbt.outputs[0].witness_script is None {
        Finalization::Rejected(TxError::MissingWitnessScript)
    } else {
        Finalization::Accepted
    }
}

/// What finalizing a transaction of the given kind comes to.
pub open spec fn outcome_of(kind: TxKind, psbt: PsbtView) -> Finalization {
    match kind.spend_condition() {
        Some(condition) => spend_outcome(condition, psbt),
        None => funding_outcome(psbt),
    }
}

/// Finalizes a transaction that spends its predecessor's output under
/// `condition`: checks its shape and metadata, decodes the witness script,
/// matches the collected signatures to the script's keys, and only then
/// stores the witness of the first input.
pub fn finalize_spend(condition: SpendCondition, psbt: &mut PartiallySignedTransaction) -> (result:
    Result<(), TxError>)
    requires
        old(psbt)@.wf(),
    ensures
        finalized_as(spend_outcome(condition, old(psbt)@), old(psbt)@, final(psbt)@, result),
{
    if psbt.unsigned_tx.input.len() > 1 || !psbt.unsigned_tx.has_consumable_output() {
        return Err(TxError::MultiUTXOUnsupported);
    }
    if psbt.unsigned_tx.input.len() == 0 {
        return Err(TxError::MissingWitnessUTXO);
    }
    assert(psbt@.inputs[0] == psbt.inputs@[0]@);
    if psbt.inputs[0].witness_utxo.is_none() {
        return Err(TxError::MissingWitnessUTXO);
    }
    let script = match &psbt.inputs[0].witness_script {
        Some(script) => copy_bytes(script),
        None => {
            return Err(TxError::MissingWitnessScript);
        },
    };
    let program = match parse_script(&script) {
        Ok(program) => program,
        Err(e) => {
            return Err(TxError::BitcoinScript(e));
        },
    };
    let witness = match assemble_witness(condition, &psbt.inputs[0], &script, &program) {
        Ok(witness) => witness,
        Err(e) => {
            return Err(e);
        },
    };
    let mut input = psbt.inputs[0].clone();
    input.final_script_witness = Some(witness);
    psbt.inputs.set(0, input);
    proof {
        assert(psbt@.inputs =~= old(psbt)@.with_witness(crate::transaction::stack_view(witness@)).inputs);
    }
    Ok(())
}

/// Finalizes a funding transaction, which is funded from outside the swap:
/// a validation of its shape that writes nothing.
pub fn finalize_funding(psbt: &mut PartiallySignedTransaction) -> (result: Result<(), TxError>)
    requires
        old(psbt)@.wf(),
    ensures
        finalized_as(funding_outcome(old(psbt)@), old(psbt)@, final(psbt)@, result),
{
    if !psbt.unsigned_tx.has_consumable_output() {
        return Err(TxError::MultiUTXOUnsupported);
    }
    assert(psbt@.outputs[0] == psbt.outputs@[0]@);
    if psbt.outputs[0].witness_script.is_none() {
        return Err(TxError::MissingWitnessScript);
    }
    Ok(())
}

/// The finalizing strategy of one kind of transaction.
pub trait SubTransaction {
    /// What finalizing the given container comes to under this strategy.
    spec fn outcome(psbt: PsbtView) -> Finalization;

    /// Turns the signatures collected in `psbt` into the final witness, or
    /// says why that cannot be done yet and leaves `psbt` as it was.
    fn finalize(psbt: &mut PartiallySignedTransaction) -> (result: Result<(), TxError>)
        requires
            old(psbt)@.wf(),
        ensures
            finalized_as(Self::outcome(old(psbt)@), old(psbt)@, final(psbt)@, result),
    ;
}

/// The root of the chain, funded from outside the swap.
#[derive(Debug)]
pub struct Funding;

/// Locks the funding output under the swap's lock script.
#[derive(Debug)]
pub struct Lock;

/// Spends the lock output on its cooperative branch.
#[derive(Debug)]
pub struct Buy;

/// Spends the lock output on its timelocked branch.
#[derive(Debug)]
pub struct Cancel;

/// Spends the cancel output on its timelocked branch.
#[derive(Debug)]
pub struct Punish;

/// Spends the cancel output on its cooperative branch.
#[derive(Debug)]
pub struct Refund;

impl SubTransaction for Funding {
    open spec fn outcome(psbt: PsbtView) -> Finalization {
        outcome_of(TxKind::Funding, psbt)
    }

    fn finalize(psbt: &mut PartiallySignedTransaction) -> (result: Result<(), TxError>) {
        finalize_funding(psbt)
    }
}

impl SubTransaction for Lock {
    open spec fn outcome(psbt: PsbtView) -> Finalization {
        outcome_of(TxKind::Lock, psbt)
    }

    fn finalize(psbt: &mut PartiallySignedTransaction) -> (result: Result<(), TxError>) {
        finalize_spend(SpendCondition { path: Path::Whole, min_signers: 1 }, psbt)
    }
}

impl SubTransaction for Buy {
    open spec fn outcome(psbt: PsbtView) -> Finalization {
        outcome_of(TxKind::Buy, psbt)
    }

    fn finalize(psbt: &mut PartiallySignedTransaction) -> (result: Result<(), TxError>) {
        finalize_spend(SpendCondition { path: Path::First, min_signers: 2 }, psbt)
    }
}

impl SubTransaction for Cancel {
    open spec fn outcome(psbt: PsbtView) -> Finalization {
        outcome_of(TxKind::Cancel, psbt)
    }

    fn finalize(psbt: &mut PartiallySignedTransaction) -> (result: Result<(), TxError>) {
        finalize_spend(SpendCondition { path: Path::Second, min_signers: 1 }, psbt)
    }
}

impl SubTransaction for Punish {
    open spec fn outcome(psbt: PsbtView) -> Finalization {
        outcome_of(TxKind::Punish, psbt)
    }

    fn finalize(psbt: &mut PartiallySignedTransaction) -> (result: Result<(), TxError>) {
        finalize_spend(SpendCondition { path: Path::Second, min_signers: 1 }, psbt)
    }
}

impl SubTransaction for Refund {
    open spec fn outcome(psbt: PsbtView) -> Finalization {
        outcome_of(TxKind::Refund, psbt)
    }

    fn finalize(psbt: &mut PartiallySignedTransaction) -> (result: Result<(), TxError>) {
        finalize_spend(SpendCondition { path: Path::First, min_signers: 2 }, psbt)
    }
}

} // verus!
