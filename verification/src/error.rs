//! The failures that building, linking and finalizing a swap transaction
//! can report.

use vstd::prelude::*;

verus! {

/// Error of the partially-signed-transaction format, as the `bitcoin` crate
/// reports it. Its content is not inspected here.
#[verifier::external_type_specification]
#[verifier::external_body]
pub struct ExPsbtError(bitcoin::util::psbt::Error);

/// Error of the address encoding, as the `bitcoin` crate reports it. Its
/// content is not inspected here.
#[verifier::external_type_specification]
#[verifier::external_body]
pub struct ExAddressError(bitcoin::util::address::Error);

/// Error of the elliptic-curve library, as `secp256k1` reports it. Its
/// content is not inspected here.
#[verifier::external_type_specification]
#[verifier::external_body]
pub struct ExSecpError(bitcoin::secp256k1::Error);

/// Error of the script interpreter, as the `bitcoin` crate reports it. Its
/// content is not inspected here.
#[verifier::external_type_specification]
#[verifier::external_body]
pub struct ExScriptError(bitcoin::blockdata::script::Error);

/// What can go wrong with a swap transaction. Each failure is a kind of its
/// own; none is folded into another.
#[derive(Debug, PartialEq)]
pub enum TxError {
    /// The transaction spends more than one output, or creates more than one
    /// where a single one is expected.
    MultiUTXOUnsupported,
    /// The witness script of the spent output is not recorded.
    MissingWitnessScript,
    /// The spent output is not recorded.
    MissingWitnessUTXO,
    /// A signer that the spending condition names has not signed yet.
    MissingSignature,
    /// A collected signature does not carry the sighash type of its input.
    MissingSigHashType,
    /// The transaction has not been seen on the ledger yet.
    TransactionNotSeen,
    /// A public key is not found in the script.
    PublicKeyNotFound,
    /// Error of the partially-signed-transaction format, passed on unchanged.
    PSBT(bitcoin::util::psbt::Error),
    /// Error of the address encoding, passed on unchanged.
    Address(bitcoin::util::address::Error),
    /// Message of a fee strategy that refused the transaction.
    Fee(String),
    /// Error of the elliptic-curve library, passed on unchanged.
    Secp256k1(bitcoin::secp256k1::Error),
    /// Error of the script interpreter, passed on unchanged.
    BitcoinScript(bitcoin::blockdata::script::Error),
}

impl From<bitcoin::util::psbt::Error> for TxError {
    fn from(e: bitcoin::util::psbt::Error) -> (wrapped: TxError) {
        TxError::PSBT(e)
    }
}

impl vstd::std_specs::convert::FromSpecImpl<bitcoin::util::psbt::Error> for TxError {
    open spec fn obeys_from_spec() -> bool {
        true
    }

    open spec fn from_spec(e: bitcoin::util::psbt::Error) -> TxError {
        TxError::PSBT(e)
    }
}

impl From<bitcoin::util::address::Error> for TxError {
    fn from(e: bitcoin::util::address::Error) -> (wrapped: TxError) {
        TxError::Address(e)
    }
}

impl vstd::std_specs::convert::FromSpecImpl<bitcoin::util::address::Error> for TxError {
    open spec fn obeys_from_spec() -> bool {
        true
    }

    open spec fn from_spec(e: bitcoin::util::address::Error) -> TxError {
        TxError::Address(e)
    }
}

impl From<bitcoin::secp256k1::Error> for TxError {
    fn from(e: bitcoin::secp256k1::Error) -> (wrapped: TxError) {
        TxError::Secp256k1(e)
    }
}

impl vstd::std_specs::convert::FromSpecImpl<bitcoin::secp256k1::Error> for TxError {
    open spec fn obeys_from_spec() -> bool {
        true
    }

    open spec fn from_spec(e: bitcoin::secp256k1::Error) -> TxError {
        TxError::Secp256k1(e)
    }
}

impl From<bitcoin::blockdata::script::Error> for TxError {
    fn from(e: bitcoin::blockdata::script::Error) -> (wrapped: TxError) {
        TxError::BitcoinScript(e)
    }
}

impl vstd::std_specs::convert::FromSpecImpl<bitcoin::blockdata::script::Error> for TxError {
    open spec fn obeys_from_spec() -> bool {
        true
    }

    open spec fn from_spec(e: bitcoin::blockdata::script::Error) -> TxError {
        TxError::BitcoinScript(e)
    }
}

} // verus!
