//! Transaction layer of a two-party atomic swap on a UTXO ledger.
//!
//! The swap moves through a fixed chain of transactions: a funding
//! transaction, a lock, then either a buy or a cancel, and after a cancel
//! either a punish or a refund. Each step spends the single output of its
//! predecessor. This crate models the partially signed form of such a
//! transaction as plain data, assembles the witness that each kind of
//! transaction needs, links the output of one step into the next, and
//! computes the segwit signature digest and low-S signatures over it.

pub mod error;
pub mod finalize;
pub mod laws;
pub mod psbt;
pub mod script;
pub mod sighash;
pub mod transaction;
pub mod tx;
pub mod witness;

pub use crate::error::TxError;
pub use crate::finalize::{Buy, Cancel, Funding, Lock, Punish, Refund, SubTransaction, TxKind};
pub use crate::sighash::{sign_input, signature_hash, Signature, TxInRef};
pub use crate::tx::{MetadataOutput, Tx};
