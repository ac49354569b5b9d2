//! The pipeline from a signing request to a signed transaction.

pub mod estimator;
pub mod sign_input;

use vstd::prelude::*;
use crate::errors::{ErrorView, OfflineTransactionResult};
use crate::keys::{PrivateKey, PublicKey};
use crate::primitives::{secp256k1_public_key, wif_decoding};
use crate::script::{script_class, ScriptClass};
use crate::signing_service::sign_input::{
    lemma_signable_prefix_is_first, sign_inputs, signable, signable_prefix, signed_through,
    unsupported_script_error,
};
use crate::transaction::generate_transaction::{assemble, assembly, locking_script};
use crate::transaction::raw::{Transaction, TransactionView};
use crate::transaction::sign_transaction::{private_key_error, signing_outcome};
use crate::transaction::TransactionData;
use crate::types::bitcoin::{BitcoinTransactionData, SigningRequest};

verus! {

/// What the whole pipeline makes of a request.
///
/// The signing key is decoded first: a key that does not decode ends the run before
/// anything is assembled. Then the transaction is assembled, then every input is signed
/// in order. The first error ends the run.
pub open spec fn signed_transaction(request: SigningRequest) -> Result<TransactionView, ErrorView> {
    match wif_decoding(request.private_key) {
        Err(reason) => Err(private_key_error(reason)),
        Ok(_) => match assembly(request) {
            Err(e) => Err(e),
            Ok(data) => match signing_outcome(data).1 {
                Err(e) => Err(e),
                Ok(()) => Ok(signing_outcome(data).0.raw_transaction),
            },
        },
    }
}

/// The pipeline signs a request whose key decodes, whose transaction assembles and whose
/// inputs all spend locking scripts of a supported class: every input of the transaction
/// that comes out is signed. Where an input spends a script of another class, the
/// pipeline ends with the error of the first such input.
pub proof fn lemma_pipeline_signs_supported_inputs(request: SigningRequest)
    requires
        wif_decoding(request.private_key) is Ok,
        assembly(request) is Ok,
    ensures
        ({
            let key = wif_decoding(request.private_key)->Ok_0;
            let data = assembly(request)->Ok_0;
            let all_supported = forall|i: int|
                0 <= i < request.inputs.len() ==> script_class(
                    #[trigger] locking_script(request.inputs[i].address),
                ) != ScriptClass::Unsupported;
            &&& all_supported <==> signed_transaction(request) is Ok
            &&& all_supported ==> signed_transaction(request) == Ok::<TransactionView, ErrorView>(
                signed_through(
                    data.raw_transaction,
                    data.input_data,
                    key.0,
                    secp256k1_public_key(key.0, key.1),
                    request.inputs.len() as int,
                ),
            )
            &&& !all_supported ==> signed_transaction(request) == Err::<TransactionView, ErrorView>(
                unsupported_script_error(),
            )
        }),
{
    let data = assembly(request)->Ok_0;
    let stop = signable_prefix(data.raw_transaction, data.input_data, 0);
    lemma_signable_prefix_is_first(data.raw_transaction, data.input_data, 0);
    assert(data.input_data.len() == request.inputs.len());
    assert(data.raw_transaction.input.len() == request.inputs.len());
    assert(forall|i: int|
        0 <= i < request.inputs.len() ==> (#[trigger] data.input_data[i]).1 == locking_script(
            request.inputs[i].address,
        ));
    if stop < data.input_data.len() {
        assert(!signable(data.raw_transaction, stop, data.input_data[stop].1));
        assert(script_class(locking_script(request.inputs[stop].address))
            == ScriptClass::Unsupported);
    } else {
        assert forall|i: int| 0 <= i < request.inputs.len() implies script_class(
            #[trigger] locking_script(request.inputs[i].address),
        ) != ScriptClass::Unsupported by {
            assert(signable(data.raw_transaction, i, data.input_data[i].1));
        }
    }
}

/// Assembles the transaction of a request and signs every input of it.
pub fn create_signed_transaction(params: &BitcoinTransactionData) -> (r: OfflineTransactionResult<
    Transaction,
>)
    ensures
        match r {
            Ok(tx) => signed_transaction(params@) == Ok::<TransactionView, ErrorView>(tx@),
            Err(e) => signed_transaction(params@) == Err::<TransactionView, ErrorView>(e@),
        },
{
    let private_key = PrivateKey::parse(params.private_key())?;
    let public_key = PublicKey::from_private_key(&private_key);
    let data = assemble(params)?;
    match data {
        TransactionData::BitcoinTransaction { raw_transaction, input_data, .. } => {
            let mut tx = raw_transaction;
            sign_inputs(&mut tx, &input_data, &private_key, &public_key)?;
            Ok(tx)
        },
    }
}

} // verus!
