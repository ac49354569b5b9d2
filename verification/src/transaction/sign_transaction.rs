//! Signing of an assembled transaction.

use vstd::prelude::*;
use crate::errors::{parse_error, ErrorView, OfflineTransactionResult};
use crate::keys::{PrivateKey, PublicKey};
use crate::primitives::{secp256k1_public_key, wif_decoding};
use crate::script::{script_class, ScriptClass};
use crate::signing_service::sign_input::{
    lemma_signable_prefix_is_first, lemma_signable_prefix_reads_length,
    lemma_signing_keeps_unsigned_form, sign_inputs, signable_prefix, signed_through,
    signing_error, unlocks_with_signature_and_key,
};
use crate::transaction::{TransactionData, TransactionDataView};

verus! {

/// The error for a signing key that is not in wallet import format.
pub open spec fn private_key_error(reason: Seq<char>) -> ErrorView {
    parse_error("WIF string"@, "PrivateKey"@, reason)
}

/// What signing makes of an assembled transaction, and how it ends.
///
/// A key that does not decode ends it before any input is touched. Otherwise the inputs
/// are signed in order, each with the public key derived from the key. If every one can
/// be signed, the transaction is marked as signed. If one cannot, signing ends there with
/// its error: the inputs before it stay signed, the mark is not set.
pub open spec fn signing_outcome(data: TransactionDataView) -> (
    TransactionDataView,
    Result<(), ErrorView>,
) {
    match wif_decoding(data.private_key) {
        Err(reason) => (data, Err(private_key_error(reason))),
        Ok(key) => {
            let stop = signable_prefix(data.raw_transaction, data.input_data, 0);
            let raw_transaction = signed_through(
                data.raw_transaction,
                data.input_data,
                key.0,
                secp256k1_public_key(key.0, key.1),
                stop,
            );
            if stop == data.input_data.len() {
                (TransactionDataView { raw_transaction, signed: true, ..data }, Ok(()))
            } else {
                (
                    TransactionDataView { raw_transaction, ..data },
                    Err(signing_error(data.input_data[stop].1)),
                )
            }
        },
    }
}

/// The public key of a signing key in wallet import format, where the key decodes.
pub open spec fn derived_public_key(private_key: Seq<char>) -> Seq<u8> {
    match wif_decoding(private_key) {
        Ok(key) => secp256k1_public_key(key.0, key.1),
        Err(_) => Seq::empty(),
    }
}

/// The index of the input at which signing ends: that of the first input that cannot be
/// signed, the number of entries in the input data where all can, and 0 where the key
/// does not decode.
pub open spec fn signing_stop(data: TransactionDataView) -> int {
    match wif_decoding(data.private_key) {
        Err(_) => 0,
        Ok(_) => signable_prefix(data.raw_transaction, data.input_data, 0),
    }
}

/// The value of a result that carries nothing on success.
pub open spec fn outcome_view(r: OfflineTransactionResult<()>) -> Result<(), ErrorView> {
    match r {
        Ok(()) => Ok(()),
        Err(e) => Err(e@),
    }
}

impl TransactionData {
    /// Signs every input with the key that the transaction carries, in input order, and
    /// marks the transaction as signed once all of them are.
    ///
    /// A transaction that is signed already is signed again: the digests do not read
    /// unlocking data and the signatures are deterministic, so the same unlocking data
    /// comes out.
    pub fn sign_transaction(&mut self) -> (r: OfflineTransactionResult<()>)
        ensures
            (final(self)@, outcome_view(r)) == signing_outcome(old(self)@),
            r is Ok ==> final(self)@.signed,
            r is Err ==> final(self)@.signed == old(self)@.signed,
            r is Err ==> forall|j: int|
                signing_stop(old(self)@) <= j < old(self)@.raw_transaction.input.len()
                    ==> #[trigger] final(self)@.raw_transaction.input[j] == old(
                    self,
                )@.raw_transaction.input[j],
            forall|j: int|
                0 <= j < signing_stop(old(self)@) && script_class(old(self)@.input_data[j].1)
                    == ScriptClass::LegacyPubkeyHash ==> unlocks_with_signature_and_key(
                    #[trigger] final(self)@.raw_transaction.input[j],
                    derived_public_key(old(self)@.private_key),
                ),
    {
        match self {
            TransactionData::BitcoinTransaction {
                raw_transaction,
                input_data,
                private_key,
                signed,
            } => {
                let key = PrivateKey::parse(private_key.as_str())?;
                let public_key = PublicKey::from_private_key(&key);
                sign_inputs(raw_transaction, input_data, &key, &public_key)?;
                *signed = true;
            },
        }
        Ok(())
    }
}

/// Signing is idempotent on success: signing once more a transaction that was signed
/// derives the same unlocking data again, and leaves the transaction as it is.
pub proof fn lemma_signing_is_idempotent(data: TransactionDataView)
    requires
        signing_outcome(data).1 is Ok,
    ensures
        signing_outcome(signing_outcome(data).0) == signing_outcome(data),
{
    let key = wif_decoding(data.private_key)->Ok_0;
    let public_key = secp256k1_public_key(key.0, key.1);
    let tx = data.raw_transaction;
    let count = data.input_data.len() as int;
    let once = signing_outcome(data).0;
    lemma_signable_prefix_reads_length(tx, once.raw_transaction, data.input_data, 0);
    lemma_signable_prefix_is_first(tx, data.input_data, 0);
    lemma_signing_keeps_unsigned_form(tx, data.input_data, key.0, public_key, count);
    let twice = signed_through(once.raw_transaction, data.input_data, key.0, public_key, count);
    assert(twice.input =~= once.raw_transaction.input);
}

/// Where signing fails, it leaves the failing input and every input after it as they
/// were, and does not set the mark.
pub proof fn lemma_failed_signing_spares_later_inputs(data: TransactionDataView, j: int)
    requires
        signing_outcome(data).1 is Err,
        signing_stop(data) <= j < data.raw_transaction.input.len(),
    ensures
        signing_outcome(data).0.raw_transaction.input[j] == data.raw_transaction.input[j],
        signing_outcome(data).0.signed == data.signed,
{
    lemma_signable_prefix_is_first(data.raw_transaction, data.input_data, 0);
}

} // verus!
