//! The signature digest of a segwit input, and low-S signatures over it.

use crate::psbt::SigHashType;
use crate::transaction::{copy_bytes, Transaction, TransactionView, TxIn};
use bitcoin::util::bip143::SigHashCache;
use bitcoin::{
    OutPoint as LedgerOutPoint, SigHashType as LedgerSigHashType,
    Transaction as LedgerTransaction, TxIn as LedgerTxIn, TxOut as LedgerTxOut,
};
use vstd::prelude::*;

verus! {

/// A view of one input of a transaction: the transaction and the position of
/// the input in it. The position is always in range.
#[derive(Debug, Clone, Copy)]
pub struct TxInRef<'a> {
    transaction: &'a Transaction,
    index: usize,
}

/// Mathematical view of a [`TxInRef`].
pub struct TxInRefView {
    pub transaction: TransactionView,
    pub index: nat,
}

impl<'a> View for TxInRef<'a> {
    type V = TxInRefView;

    closed spec fn view(&self) -> TxInRefView {
        TxInRefView { transaction: self.transaction@, index: self.index as nat }
    }
}

impl<'a> TxInRef<'a> {
    #[verifier::type_invariant]
    spec fn in_range(self) -> bool {
        self.index < self.transaction.input.len()
    }

    /// Refers to the input at position `index` of `transaction`. The position
    /// has to be in range.
    pub fn new(transaction: &'a Transaction, index: usize) -> (input_ref: TxInRef<'a>)
        requires
            index < transaction.input.len(),
        ensures
            input_ref@.transaction == transaction@,
            input_ref@.index == index,
    {
        TxInRef { transaction, index }
    }

    /// Returns the transaction.
    pub fn transaction(&self) -> (transaction: &Transaction)
        ensures
            transaction@ == self@.transaction,
    {
        self.transaction
    }

    /// Returns the input.
    pub fn input(&self) -> (input: &TxIn)
        ensures
            self@.index < self@.transaction.input.len(),
            input@ == self@.transaction.input[self@.index as int],
    {
        proof {
            use_type_invariant(self);
        }
        &self.transaction.input[self.index]
    }

    /// Returns the position of the input.
    pub fn index(&self) -> (index: usize)
        ensures
            index == self@.index,
            index < self@.transaction.input.len(),
    {
        proof {
            use_type_invariant(self);
        }
        self.index
    }
}

impl<'a> AsRef<TxIn> for TxInRef<'a> {
    fn as_ref(&self) -> (input: &TxIn)
        ensures
            input@ == self@.transaction.input[self@.index as int],
    {
        self.input()
    }
}

/// What `bitcoin::util::bip143::SigHashCache::signature_hash` returns: the
/// BIP-143 digest, a double SHA-256 over the transaction's version and lock
/// time, its inputs' out-points and sequence numbers and its outputs as far
/// as the sighash flag covers them, and the signed input's out-point,
/// script, spent value and sequence number.
pub uninterp spec fn segwit_digest(
    tx: TransactionView,
    index: nat,
    script: Seq<u8>,
    value: u64,
    flag: u8,
) -> Seq<u8>;

/// The digest that a signature of the input at `index` commits to. It is
/// computed from the transaction without signature scripts and witnesses, so
/// it is the same before and after the transaction is finalized.
pub open spec fn signature_digest(
    tx: TransactionView,
    index: nat,
    script: Seq<u8>,
    value: u64,
    flag: u8,
) -> Seq<u8> {
    segwit_digest(tx.without_unlocking_data(), index, script, value, flag)
}

/// Computes the digest with `bitcoin::util::bip143::SigHashCache::signature_hash`.
///
/// Trusted: the result is that function's, for the same transaction, input
/// position, script, value and sighash flag. Nothing more is claimed of it
/// than that it is a function of these, named [`segwit_digest`]. The position
/// has to be in range, since the outside function indexes the inputs with it.
#[verifier::external_body]
pub(crate) fn compute_digest(
    tx: Transaction,
    index: usize,
    script: Vec<u8>,
    value: u64,
    flag: u8,
) -> (digest: [u8; 32])
    requires
        index < tx.input.len(),
    ensures
        digest@ == segwit_digest(tx@, index as nat, script@, value, flag),
{
    let input = tx.input.into_iter().map(|i| LedgerTxIn {
        previous_output: LedgerOutPoint::new(
            bitcoin::hashes::Hash::from_inner(i.previous_output.txid),
            i.previous_output.vout,
        ),
        script_sig: i.script_sig.into(),
        sequence: i.sequence,
        witness: i.witness,
    }).collect();
    let output = tx.output.into_iter()
        .map(|o| LedgerTxOut { value: o.value, script_pubkey: o.script_pubkey.into() }).collect();
    let tx = LedgerTransaction { version: tx.version, lock_time: tx.lock_time, input, output };
    let flag = LedgerSigHashType::from_u32_consensus(flag.into());
    bitcoin::hashes::Hash::into_inner(SigHashCache::new(&tx).signature_hash(index, &script.into(), value, flag))
}

/// Computes the digest that a signature of the given input commits to, for
/// the script and the value of the output that the input spends.
pub fn signature_hash<'a>(
    txin: TxInRef<'a>,
    script: &Vec<u8>,
    value: u64,
    sighash_type: SigHashType,
) -> (digest: [u8; 32])
    ensures
        digest@ == signature_digest(
            txin@.transaction,
            txin@.index,
            script@,
            value,
            sighash_type.flag(),
        ),
{
    let index = txin.index();
    let whole = txin.transaction();
    let transaction = whole.without_unlocking_data();
    assert(whole@.input.len() == whole.input.len());
    compute_digest(transaction, index, copy_bytes(script), value, sighash_type.as_byte())
}

/// The order of the secp256k1 group.
pub open spec fn curve_order() -> nat {
    0xFFFFFFFF_FFFFFFFF_FFFFFFFF_FFFFFFFE_BAAEDCE6_AF48A03B_BFD25E8C_D0364141nat
}

/// The number that a byte string encodes, most significant byte first.
pub open spec fn be_value(bytes: Seq<u8>) -> nat
    decreases bytes.len(),
{
    if bytes.len() == 0 {
        0
    } else {
        be_value(bytes.drop_last()) * 256 + bytes.last() as nat
    }
}

/// A secret key is 32 bytes that encode a number from 1 up to, but not
/// including, the group order.
pub open spec fn is_valid_secret_key(key: Seq<u8>) -> bool {
    key.len() == 32 && 0 < be_value(key) < curve_order()
}

/// The `r` of a signature in compact form, its first 32 bytes.
pub open spec fn r_of(signature: Seq<u8>) -> nat {
    be_value(signature.subrange(0, 32))
}

/// The `s` of a signature in compact form, its last 32 bytes.
pub open spec fn s_of(signature: Seq<u8>) -> nat {
    be_value(signature.subrange(32, 64))
}

/// A signature in compact form is 64 bytes whose halves both encode a number
/// below the group order.
pub open spec fn is_canonical(signature: Seq<u8>) -> bool {
    signature.len() == 64 && r_of(signature) < curve_order() && s_of(signature) < curve_order()
}

/// The lower of `s` and its negation modulo the group order.
pub open spec fn low_s(s: nat) -> nat {
    if s > curve_order() / 2 {
        (curve_order() - s) as nat
    } else {
        s
    }
}

/// `normal` is the low-S form of `signature`: the same `r`, and the lower of
/// `s` and its negation.
pub open spec fn is_normal_form_of(normal: Seq<u8>, signature: Seq<u8>) -> bool {
    &&& normal.len() == 64
    &&& normal.subrange(0, 32) == signature.subrange(0, 32)
    &&& s_of(normal) == low_s(s_of(signature))
}

/// What signing a 32-byte digest under a secret key gives: the deterministic
/// ECDSA signature in compact form, with the nonce of RFC 6979, or the
/// curve library's error where the key is refused.
pub uninterp spec fn ecdsa_signature(digest: Seq<u8>, key: Seq<u8>) -> Result<
    Seq<u8>,
    bitcoin::secp256k1::Error,
>;

/// Signs a digest with `secp256k1::Secp256k1::sign`, on a signing context of
/// its own.
///
/// Trusted: the call fails exactly where `SecretKey::from_slice` refuses the
/// key, that is where the key is not valid, and the error is then that
/// function's; a 32-byte digest is always accepted as a message. The
/// signature is that function's, which depends on the digest and the key
/// alone, in the compact form that `serialize_compact` gives, whose halves
/// are reduced modulo the group order.
#[verifier::external_body]
pub(crate) fn ecdsa_sign(digest: &[u8; 32], key: &[u8; 32]) -> (signed: Result<
    [u8; 64],
    bitcoin::secp256k1::Error,
>)
    ensures
        signed is Ok <==> is_valid_secret_key(key@),
        match signed {
            Ok(signature) => is_canonical(signature@) && ecdsa_signature(digest@, key@) == Ok::<
                Seq<u8>,
                bitcoin::secp256k1::Error,
            >(signature@),
            Err(e) => ecdsa_signature(digest@, key@) == Err::<Seq<u8>, bitcoin::secp256k1::Error>(
                e,
            ),
        },
{
    let key = bitcoin::secp256k1::SecretKey::from_slice(key)?;
    let message = bitcoin::secp256k1::Message::from_slice(digest)?;
    Ok(bitcoin::secp256k1::Secp256k1::signing_only().sign(&message, &key).serialize_compact())
}

/// Brings a signature in compact form to its low-S form with
/// `secp256k1::Signature::normalize_s`.
///
/// Trusted: `Signature::from_compact` accepts exactly the canonical
/// encodings; on those, the outside function keeps `r` and replaces `s` by
/// its negation modulo the group order where `s` is above half the order.
#[verifier::external_body]
pub(crate) fn normalize_compact(signature: &[u8; 64]) -> (normal: Option<[u8; 64]>)
    ensures
        match normal {
            Some(bytes) => is_canonical(signature@) && is_normal_form_of(bytes@, signature@),
            None => !is_canonical(signature@),
        },
{
    let mut signature = bitcoin::secp256k1::Signature::from_compact(signature).ok()?;
    signature.normalize_s();
    Some(signature.serialize_compact())
}

/// An ECDSA signature in compact form: `r` then `s`, 32 bytes each, most
/// significant byte first.
#[derive(Debug, Clone, Copy, PartialEq, Eq)]
pub struct Signature {
    pub bytes: [u8; 64],
}

impl Signature {
    /// Both halves are below the group order.
    pub open spec fn is_canonical(self) -> bool {
        is_canonical(self.bytes@)
    }

    /// `s` is at most half the group order, as the ledger's policy asks.
    pub open spec fn is_low_s(self) -> bool {
        s_of(self.bytes@) <= curve_order() / 2
    }

    /// Returns the low-S form of this signature, or `None` where the
    /// signature is not canonical.
    pub fn normalize_s(&self) -> (normal: Option<Signature>)
        ensures
            match normal {
                Some(signature) => {
                    &&& self.is_canonical()
                    &&& is_normal_form_of(signature.bytes@, self.bytes@)
                    &&& signature.is_low_s()
                },
                None => !self.is_canonical(),
            },
    {
        match normalize_compact(&self.bytes) {
            Some(bytes) => Some(Signature { bytes }),
            None => None,
        }
    }
}

/// What signing the digest of the given input under the key gives, before
/// the signature is brought to its low-S form.
pub open spec fn signed_digest(
    txin: TxInRefView,
    script: Seq<u8>,
    value: u64,
    sighash_type: SigHashType,
    key: Seq<u8>,
) -> Result<Seq<u8>, bitcoin::secp256k1::Error> {
    ecdsa_signature(
        signature_digest(txin.transaction, txin.index, script, value, sighash_type.flag()),
        key,
    )
}

/// Signs the given input: computes its digest for the script and the value
/// of the spent output, signs the digest with the secret key, and brings the
/// signature to its low-S form. Fails exactly where the key is not valid,
/// with the curve library's error.
pub fn sign_input<'a>(
    txin: TxInRef<'a>,
    script: &Vec<u8>,
    value: u64,
    sighash_type: SigHashType,
    secret_key: &[u8; 32],
) -> (signed: Result<Signature, bitcoin::secp256k1::Error>)
    ensures
        signed is Ok <==> is_valid_secret_key(secret_key@),
        match signed {
            Ok(signature) => {
                &&& signed_digest(txin@, script@, value, sighash_type, secret_key@) matches Ok(raw)
                &&& is_normal_form_of(signature.bytes@, raw)
                &&& signature.is_low_s()
            },
            Err(e) => signed_digest(txin@, script@, value, sighash_type, secret_key@) == Err::<
                Seq<u8>,
                bitcoin::secp256k1::Error,
            >(e),
        },
{
    let digest = signature_hash(txin, script, value, sighash_type);
    match ecdsa_sign(&digest, secret_key) {
        Ok(raw) => match (Signature { bytes: raw }).normalize_s() {
            Some(signature) => Ok(signature),
            None => vstd::pervasive::unreached(),
        },
        Err(e) => Err(e),
    }
}

} // verus!
