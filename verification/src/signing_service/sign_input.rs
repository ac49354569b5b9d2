//! Signing of one input.

use vstd::prelude::*;
use crate::errors::{ErrorView, OfflineTransactionError, OfflineTransactionResult};
use crate::keys::{PrivateKey, PublicKey};
use crate::primitives::{
    ecdsa_signature_der, legacy_digest, legacy_sighash, p2wpkh_digest, segwit_v0_sighash,
};
use crate::script::{
    classify, decode_pushes, lemma_two_pushes_decode, push_encoding, push_slice, script_class,
    ScriptClass,
};
use crate::transaction::input_contexts;
use crate::transaction::raw::{Transaction, TransactionView, TxInView};

verus! {

/// The signature hash type of every signature: it commits to all inputs and all outputs.
pub const SIGHASH_ALL: u32 = 0x01;

/// A DER signature followed by the byte of the signature hash type.
pub open spec fn signature_with_hash_type(signature: Seq<u8>) -> Seq<u8> {
    signature.push(SIGHASH_ALL as u8)
}

/// The unlocking script of a legacy input: a push of the signature with its hash type,
/// then a push of the public key.
pub open spec fn legacy_unlocking_script(signature: Seq<u8>, public_key: Seq<u8>) -> Seq<u8> {
    push_encoding(signature_with_hash_type(signature)) + push_encoding(public_key)
}

/// The witness of a witness input: the signature with its hash type, then the public key.
pub open spec fn p2wpkh_witness(signature: Seq<u8>, public_key: Seq<u8>) -> Seq<Seq<u8>> {
    seq![signature_with_hash_type(signature), public_key]
}

/// Input `index` of `tx` after it has been signed for the output that it spends.
///
/// A legacy input gets its unlocking script and keeps its witness. A witness input gets
/// its witness and an empty unlocking script. An input that spends a script of another
/// class stays as it is.
pub open spec fn signed_input(
    tx: TransactionView,
    index: int,
    amount: u64,
    script_pubkey: Seq<u8>,
    secret: Seq<u8>,
    public_key: Seq<u8>,
) -> TxInView {
    match script_class(script_pubkey) {
        ScriptClass::LegacyPubkeyHash => TxInView {
            script_sig: legacy_unlocking_script(
                ecdsa_signature_der(
                    secret,
                    legacy_sighash(tx.unsigned(), index as nat, script_pubkey, SIGHASH_ALL),
                ),
                public_key,
            ),
            ..tx.input[index]
        },
        ScriptClass::SegwitV0PubkeyHash => TxInView {
            script_sig: Seq::empty(),
            witness: p2wpkh_witness(
                ecdsa_signature_der(
                    secret,
                    segwit_v0_sighash(
                        tx.unsigned(),
                        index as nat,
                        script_pubkey,
                        amount,
                        SIGHASH_ALL,
                    ),
                ),
                public_key,
            ),
            ..tx.input[index]
        },
        ScriptClass::Unsupported => tx.input[index],
    }
}

/// Whether the unlocking script of an input reads as exactly two pushes: a signature
/// that ends in the byte of the signature hash type, then the public key.
pub open spec fn unlocks_with_signature_and_key(input: TxInView, public_key: Seq<u8>) -> bool {
    decode_pushes(input.script_sig, 2) matches Some(pushes) && pushes.len() == 2
        && pushes[0].len() > 0 && pushes[0].last() == SIGHASH_ALL as u8 && pushes[1]
        == public_key
}

/// The unlocking script of a legacy input decodes as two pushes: the signature with its
/// hash type, then the public key.
pub proof fn lemma_unlocking_script_decodes(signature: Seq<u8>, public_key: Seq<u8>)
    requires
        signature.len() < 0xFFFF_FFFF,
        public_key.len() < 0x1_0000_0000,
    ensures
        decode_pushes(legacy_unlocking_script(signature, public_key), 2) == Some(
            seq![signature_with_hash_type(signature), public_key],
        ),
{
    lemma_two_pushes_decode(signature_with_hash_type(signature), public_key);
}

/// A signed legacy input keeps its witness and carries the unlocking script. A signed
/// witness input has an empty unlocking script and a witness of exactly two elements:
/// the signature with its hash type, then the public key. Signing changes nothing else.
pub proof fn lemma_signed_input_shape(
    tx: TransactionView,
    index: int,
    amount: u64,
    script_pubkey: Seq<u8>,
    secret: Seq<u8>,
    public_key: Seq<u8>,
)
    ensures
        ({
            let signed = signed_input(tx, index, amount, script_pubkey, secret, public_key);
            &&& signed.previous_output == tx.input[index].previous_output
            &&& signed.sequence == tx.input[index].sequence
            &&& script_class(script_pubkey) == ScriptClass::LegacyPubkeyHash ==> {
                &&& signed.witness == tx.input[index].witness
                &&& signed.script_sig == legacy_unlocking_script(
                    ecdsa_signature_der(
                        secret,
                        legacy_sighash(tx.unsigned(), index as nat, script_pubkey, SIGHASH_ALL),
                    ),
                    public_key,
                )
            }
            &&& script_class(script_pubkey) == ScriptClass::SegwitV0PubkeyHash ==> {
                &&& signed.script_sig.len() == 0
                &&& signed.witness.len() == 2
                &&& signed.witness[0] == signature_with_hash_type(
                    ecdsa_signature_der(
                        secret,
                        segwit_v0_sighash(
                            tx.unsigned(),
                            index as nat,
                            script_pubkey,
                            amount,
                            SIGHASH_ALL,
                        ),
                    ),
                )
                &&& signed.witness[1] == public_key
            }
        }),
{
}

/// The error for a locking script that is neither of the two supported classes.
pub open spec fn unsupported_script_error() -> ErrorView {
    ErrorView::UnsupportedError {
        component: "script_pubkey type"@,
        input: "unknown"@,
        expected: "p2pkh, p2wpkh"@,
    }
}

/// The error for an input index that the transaction does not have.
pub open spec fn missing_input_error() -> ErrorView {
    ErrorView::HasherError("input index out of range"@)
}

/// Whether input `index` can be signed: the transaction has it, and it spends a locking
/// script of a supported class.
pub open spec fn signable(tx: TransactionView, index: int, script_pubkey: Seq<u8>) -> bool {
    script_class(script_pubkey) != ScriptClass::Unsupported && 0 <= index < tx.input.len()
}

/// The error that signing ends with at an input that cannot be signed. The script class
/// is looked at first.
pub open spec fn signing_error(script_pubkey: Seq<u8>) -> ErrorView {
    if script_class(script_pubkey) == ScriptClass::Unsupported {
        unsupported_script_error()
    } else {
        missing_input_error()
    }
}

/// The transaction with input `index` signed for the output that it spends, and nothing
/// else changed.
pub open spec fn with_signed_input(
    tx: TransactionView,
    index: int,
    amount: u64,
    script_pubkey: Seq<u8>,
    secret: Seq<u8>,
    public_key: Seq<u8>,
) -> TransactionView {
    TransactionView {
        input: tx.input.update(
            index,
            signed_input(tx, index, amount, script_pubkey, secret, public_key),
        ),
        ..tx
    }
}

/// Signs input `input_index` of `tx`, which spends `amount` minor units locked by
/// `script_pubkey`, and writes the unlocking data into the input.
///
/// Nothing but that input changes, and on an error nothing changes at all.
pub fn sign_input(
    tx: &mut Transaction,
    input_index: usize,
    amount: u64,
    script_pubkey: &Vec<u8>,
    private_key: &PrivateKey,
    public_key: &PublicKey,
) -> (r: OfflineTransactionResult<()>)
    ensures
        match r {
            Ok(()) => {
                &&& signable(old(tx)@, input_index as int, script_pubkey@)
                &&& final(tx)@ == with_signed_input(
                    old(tx)@,
                    input_index as int,
                    amount,
                    script_pubkey@,
                    private_key.secret(),
                    public_key@,
                )
            },
            Err(e) => {
                &&& !signable(old(tx)@, input_index as int, script_pubkey@)
                &&& e@ == signing_error(script_pubkey@)
                &&& final(tx)@ == old(tx)@
            },
        },
        r is Ok && script_class(script_pubkey@) == ScriptClass::LegacyPubkeyHash
            ==> unlocks_with_signature_and_key(final(tx)@.input[input_index as int], public_key@),
{
    match classify(script_pubkey) {
        ScriptClass::LegacyPubkeyHash => {
            let digest = match legacy_digest(tx, input_index, script_pubkey, SIGHASH_ALL) {
                Some(digest) => digest,
                None => {
                    return Err(
                        OfflineTransactionError::HasherError("input index out of range".to_owned()),
                    );
                },
            };
            let key_bytes = public_key.serialized();
            let mut signature = private_key.sign(&digest);
            proof {
                lemma_unlocking_script_decodes(signature@, key_bytes@);
            }
            signature.push(SIGHASH_ALL as u8);
            let mut script_sig: Vec<u8> = Vec::new();
            push_slice(&mut script_sig, &signature);
            push_slice(&mut script_sig, key_bytes);
            tx.input[input_index].script_sig = script_sig;
            proof {
                let signed = signed_input(
                    old(tx)@,
                    input_index as int,
                    amount,
                    script_pubkey@,
                    private_key.secret(),
                    public_key@,
                );
                assert(tx@.input[input_index as int].witness =~= signed.witness);
                assert(tx@.input =~= old(tx)@.input.update(input_index as int, signed));
                assert(tx@.output =~= old(tx)@.output);
            }
            Ok(())
        },
        ScriptClass::SegwitV0PubkeyHash => {
            let digest = match p2wpkh_digest(tx, input_index, script_pubkey, amount, SIGHASH_ALL) {
                Some(digest) => digest,
                None => {
                    return Err(
                        OfflineTransactionError::HasherError("input index out of range".to_owned()),
                    );
                },
            };
            let mut signature = private_key.sign(&digest);
            signature.push(SIGHASH_ALL as u8);
            let mut witness: Vec<Vec<u8>> = Vec::new();
            witness.push(signature);
            witness.push(public_key.serialized().clone());
            tx.input[input_index].witness = witness;
            tx.input[input_index].script_sig = Vec::new();
            proof {
                let signed = signed_input(
                    old(tx)@,
                    input_index as int,
                    amount,
                    script_pubkey@,
                    private_key.secret(),
                    public_key@,
                );
                assert(tx@.input[input_index as int].witness =~= signed.witness);
                assert(tx@.input =~= old(tx)@.input.update(input_index as int, signed));
                assert(tx@.output =~= old(tx)@.output);
            }
            Ok(())
        },
        ScriptClass::Unsupported => Err(
            OfflineTransactionError::UnsupportedError {
                component: "script_pubkey type".to_owned(),
                input: "unknown".to_owned(),
                expected: "p2pkh, p2wpkh".to_owned(),
            },
        ),
    }
}

/// The number of inputs that signing gets through, counted from input `from`: the index
/// of the first input that cannot be signed, or the number of entries in `input_data`
/// where there is none.
pub open spec fn signable_prefix(
    tx: TransactionView,
    input_data: Seq<(u64, Seq<u8>)>,
    from: int,
) -> int
    decreases input_data.len() - from,
{
    if from < 0 || from >= input_data.len() || !signable(tx, from, input_data[from].1) {
        from
    } else {
        signable_prefix(tx, input_data, from + 1)
    }
}

/// The prefix that signing gets through starts at `from`, ends within the input data, and
/// holds only inputs that can be signed; the input at its end, if there is one, cannot.
pub proof fn lemma_signable_prefix_is_first(
    tx: TransactionView,
    input_data: Seq<(u64, Seq<u8>)>,
    from: int,
)
    requires
        0 <= from <= input_data.len(),
    ensures
        from <= signable_prefix(tx, input_data, from) <= input_data.len(),
        forall|j: int|
            from <= j < signable_prefix(tx, input_data, from) ==> signable(
                tx,
                j,
                #[trigger] input_data[j].1,
            ),
        signable_prefix(tx, input_data, from) < input_data.len() ==> !signable(
            tx,
            signable_prefix(tx, input_data, from),
            input_data[signable_prefix(tx, input_data, from)].1,
        ),
    decreases input_data.len() - from,
{
    if from < input_data.len() && signable(tx, from, input_data[from].1) {
        lemma_signable_prefix_is_first(tx, input_data, from + 1);
    }
}

/// Whether an input can be signed depends on the transaction only through the number of
/// its inputs.
pub proof fn lemma_signable_prefix_reads_length(
    tx: TransactionView,
    other: TransactionView,
    input_data: Seq<(u64, Seq<u8>)>,
    from: int,
)
    requires
        tx.input.len() == other.input.len(),
    ensures
        signable_prefix(tx, input_data, from) == signable_prefix(other, input_data, from),
    decreases input_data.len() - from,
{
    if 0 <= from < input_data.len() && signable(tx, from, input_data[from].1) {
        lemma_signable_prefix_reads_length(tx, other, input_data, from + 1);
    }
}

/// The transaction after its first `count` inputs have been signed, each for the entry
/// of `input_data` at its index. The other inputs are as they were.
pub open spec fn signed_through(
    tx: TransactionView,
    input_data: Seq<(u64, Seq<u8>)>,
    secret: Seq<u8>,
    public_key: Seq<u8>,
    count: int,
) -> TransactionView {
    TransactionView {
        input: Seq::new(
            tx.input.len(),
            |j: int|
                if j < count {
                    signed_input(tx, j, input_data[j].0, input_data[j].1, secret, public_key)
                } else {
                    tx.input[j]
                },
        ),
        ..tx
    }
}

/// Signing writes unlocking data and nothing else: without it, the transaction is the
/// one that signing started from.
pub proof fn lemma_signing_keeps_unsigned_form(
    tx: TransactionView,
    input_data: Seq<(u64, Seq<u8>)>,
    secret: Seq<u8>,
    public_key: Seq<u8>,
    count: int,
)
    ensures
        signed_through(tx, input_data, secret, public_key, count).unsigned() == tx.unsigned(),
{
    let signed = signed_through(tx, input_data, secret, public_key, count);
    assert(signed.unsigned().input =~= tx.unsigned().input);
}

/// Signs the inputs of `tx` in order, input `i` for entry `i` of `input_data`, and stops
/// at the first one that cannot be signed.
///
/// The inputs before that one are signed, and that one and those after it are untouched.
pub fn sign_inputs(
    tx: &mut Transaction,
    input_data: &Vec<(u64, Vec<u8>)>,
    private_key: &PrivateKey,
    public_key: &PublicKey,
) -> (r: OfflineTransactionResult<()>)
    ensures
        final(tx)@ == signed_through(
            old(tx)@,
            input_contexts(input_data@),
            private_key.secret(),
            public_key@,
            signable_prefix(old(tx)@, input_contexts(input_data@), 0),
        ),
        match r {
            Ok(()) => signable_prefix(old(tx)@, input_contexts(input_data@), 0)
                == input_data@.len(),
            Err(e) => {
                let stop = signable_prefix(old(tx)@, input_contexts(input_data@), 0);
                &&& 0 <= stop < input_data@.len()
                &&& e@ == signing_error(input_data@[stop].1@)
            },
        },
        forall|j: int|
            0 <= j < signable_prefix(old(tx)@, input_contexts(input_data@), 0) && script_class(
                input_data@[j].1@,
            ) == ScriptClass::LegacyPubkeyHash ==> unlocks_with_signature_and_key(
                #[trigger] final(tx)@.input[j],
                public_key@,
            ),
{
    let ghost contexts = input_contexts(input_data@);
    let mut i: usize = 0;
    proof {
        assert(tx@.input =~= signed_through(
            old(tx)@,
            contexts,
            private_key.secret(),
            public_key@,
            0,
        ).input);
    }
    while i < input_data.len()
        invariant
            0 <= i <= input_data@.len(),
            contexts == input_contexts(input_data@),
            signable_prefix(old(tx)@, contexts, 0) == signable_prefix(old(tx)@, contexts, i as int),
            tx@ == signed_through(old(tx)@, contexts, private_key.secret(), public_key@, i as int),
            forall|j: int|
                0 <= j < i && script_class(input_data@[j].1@) == ScriptClass::LegacyPubkeyHash
                    ==> unlocks_with_signature_and_key(#[trigger] tx@.input[j], public_key@),
        decreases input_data@.len() - i,
    {
        proof {
            lemma_signing_keeps_unsigned_form(
                old(tx)@,
                contexts,
                private_key.secret(),
                public_key@,
                i as int,
            );
        }
        match sign_input(tx, i, input_data[i].0, &input_data[i].1, private_key, public_key) {
            Ok(()) => {
                proof {
                    assert(tx@.input =~= signed_through(
                        old(tx)@,
                        contexts,
                        private_key.secret(),
                        public_key@,
                        i + 1,
                    ).input);
                }
            },
            Err(e) => {
                return Err(e);
            },
        }
        i += 1;
    }
    Ok(())
}

} // verus!
