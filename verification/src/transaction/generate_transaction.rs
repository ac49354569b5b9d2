//! Assembly of the unsigned transaction from a signing request.

use vstd::prelude::*;
use crate::errors::{
    new_parse_error, parse_error, ErrorView, OfflineTransactionError, OfflineTransactionResult,
};
use crate::primitives::{
    address_decoding, consensus_encoding, hex_text, is_txid_text, parse_txid, txid_bytes,
    txid_error_text,
};
use crate::transaction::raw::{
    OutPoint, OutPointView, Transaction, TransactionView, TxIn, TxInView, TxOut, TxOutView,
    SEQUENCE_MAX, TX_LOCK_TIME, TX_VERSION,
};
use crate::transaction::{input_contexts, TransactionData, TransactionDataView};
use crate::types::bitcoin::{
    input_specs, output_specs, BitcoinTransactionData, InputSpec, OutputSpec, SigningRequest,
};
use crate::utils::fee_calculator::{any_segwit, estimated_fee, fee_calculator};
use crate::utils::str_to_address::str_to_address_unchecked;
use crate::Platform;

verus! {

/// Largest change, in minor units, that is left to the fee instead of getting an output.
pub const DUST_THRESHOLD: u64 = 546;

/// The locking script that an address pays to, where the address decodes.
pub open spec fn locking_script(address: Seq<char>) -> Seq<u8> {
    match address_decoding(address) {
        Ok(script) => script,
        Err(_) => Seq::empty(),
    }
}

/// The error for an address that does not decode.
pub open spec fn address_failure(address: Seq<char>) -> Option<ErrorView> {
    match address_decoding(address) {
        Ok(_) => None,
        Err(reason) => Some(parse_error("string"@, "Address"@, reason)),
    }
}

/// The error of an input that cannot be taken into a transaction: its transaction id is
/// looked at first, then its address.
pub open spec fn input_failure(input: InputSpec) -> Option<ErrorView> {
    if !is_txid_text(input.txid) {
        Some(parse_error("string"@, "Txid"@, txid_error_text(input.txid)))
    } else {
        address_failure(input.address)
    }
}

/// The error of the first input, from index `from` on, that cannot be taken.
pub open spec fn first_input_failure(inputs: Seq<InputSpec>, from: int) -> Option<ErrorView>
    decreases inputs.len() - from,
{
    if from < 0 || from >= inputs.len() {
        None
    } else if input_failure(inputs[from]) is Some {
        input_failure(inputs[from])
    } else {
        first_input_failure(inputs, from + 1)
    }
}

/// The error of the first output, from index `from` on, whose address does not decode.
pub open spec fn first_output_failure(outputs: Seq<OutputSpec>, from: int) -> Option<ErrorView>
    decreases outputs.len() - from,
{
    if from < 0 || from >= outputs.len() {
        None
    } else if address_failure(outputs[from].address) is Some {
        address_failure(outputs[from].address)
    } else {
        first_output_failure(outputs, from + 1)
    }
}

/// Sum of the amounts of the first `count` inputs.
pub open spec fn total_input_amount(inputs: Seq<InputSpec>, count: int) -> nat
    decreases count,
{
    if count <= 0 {
        0
    } else {
        total_input_amount(inputs, count - 1) + inputs[count - 1].amount as nat
    }
}

/// Sum of the amounts of the first `count` outputs.
pub open spec fn total_output_amount(outputs: Seq<OutputSpec>, count: int) -> nat
    decreases count,
{
    if count <= 0 {
        0
    } else {
        total_output_amount(outputs, count - 1) + outputs[count - 1].amount as nat
    }
}

/// The transaction input that spends what an input of the request names: no unlocking
/// data yet, and the sequence number that opts out of relative lock time.
pub open spec fn assembled_input(input: InputSpec) -> TxInView {
    TxInView {
        previous_output: OutPointView { txid: txid_bytes(input.txid), vout: input.vout },
        script_sig: Seq::empty(),
        sequence: SEQUENCE_MAX,
        witness: Seq::empty(),
    }
}

/// What signing needs to know of the output that an input spends: its amount and its
/// locking script.
pub open spec fn input_context(input: InputSpec) -> (u64, Seq<u8>) {
    (input.amount, locking_script(input.address))
}

/// The transaction output that makes a payment of the request.
pub open spec fn assembled_output(output: OutputSpec) -> TxOutView {
    TxOutView { value: output.amount, script_pubkey: locking_script(output.address) }
}

/// The inputs of the assembled transaction: those of the request, in the same order.
pub open spec fn assembled_inputs(inputs: Seq<InputSpec>) -> Seq<TxInView> {
    Seq::new(inputs.len(), |i: int| assembled_input(inputs[i]))
}

/// What signing needs to know of each input, in the order of the request.
pub open spec fn assembled_contexts(inputs: Seq<InputSpec>) -> Seq<(u64, Seq<u8>)> {
    Seq::new(inputs.len(), |i: int| input_context(inputs[i]))
}

/// The payments of the assembled transaction: those of the request, in the same order.
pub open spec fn assembled_outputs(outputs: Seq<OutputSpec>) -> Seq<TxOutView> {
    Seq::new(outputs.len(), |i: int| assembled_output(outputs[i]))
}

/// Sum of the amounts of all inputs of a request.
pub open spec fn request_input_total(request: SigningRequest) -> nat {
    total_input_amount(request.inputs, request.inputs.len() as int)
}

/// Sum of the amounts of all outputs of a request.
pub open spec fn request_output_total(request: SigningRequest) -> nat {
    total_output_amount(request.outputs, request.outputs.len() as int)
}

/// The fee of a request: the size estimated for its inputs, its outputs and one output
/// for the change, times its fee rate.
pub open spec fn request_fee(request: SigningRequest) -> nat {
    estimated_fee(
        request.inputs.len(),
        request.outputs.len(),
        any_segwit(assembled_contexts(request.inputs)),
        request.fee_rate,
    )
}

/// What is left of the inputs once the outputs and the fee are paid.
pub open spec fn request_change(request: SigningRequest) -> int {
    request_input_total(request) - request_output_total(request) - request_fee(request)
}

/// The number of outputs of the assembled transaction: the payments of the request, and
/// one more for the change where it is above the dust threshold.
pub open spec fn assembled_output_count(request: SigningRequest) -> nat {
    if request_change(request) > DUST_THRESHOLD {
        request.outputs.len() + 1
    } else {
        request.outputs.len()
    }
}

/// The error for inputs that together hold more than the largest amount.
pub open spec fn input_total_error() -> ErrorView {
    parse_error("input amounts"@, "total amount"@, "sum exceeds the largest amount"@)
}

/// The assembled transaction of a request whose parts all decode, with the change
/// output, if there is one, after the payments.
pub open spec fn assembled(
    request: SigningRequest,
    change: Option<TxOutView>,
) -> TransactionDataView {
    TransactionDataView {
        raw_transaction: TransactionView {
            version: TX_VERSION,
            lock_time: TX_LOCK_TIME,
            input: assembled_inputs(request.inputs),
            output: match change {
                Some(output) => assembled_outputs(request.outputs).push(output),
                None => assembled_outputs(request.outputs),
            },
        },
        signed: false,
        input_data: assembled_contexts(request.inputs),
        private_key: request.private_key,
    }
}

/// What assembly makes of a request.
///
/// The inputs are decoded in order, then the outputs. The first part that does not decode
/// ends the assembly with its error. Inputs that hold more than the largest amount are an
/// error too. Outputs and fee that the inputs do not cover are insufficient funds. The
/// change gets an output, the last one, exactly when it is above the dust threshold; the
/// change address is decoded only then.
pub open spec fn assembly(request: SigningRequest) -> Result<TransactionDataView, ErrorView> {
    if first_input_failure(request.inputs, 0) is Some {
        Err(first_input_failure(request.inputs, 0)->0)
    } else if request_input_total(request) > u64::MAX {
        Err(input_total_error())
    } else if first_output_failure(request.outputs, 0) is Some {
        Err(first_output_failure(request.outputs, 0)->0)
    } else if request_change(request) < 0 {
        Err(ErrorView::InsufficientFunds)
    } else if request_change(request) <= DUST_THRESHOLD {
        Ok(assembled(request, None))
    } else {
        match address_decoding(request.change_address) {
            Err(reason) => Err(parse_error("string"@, "Address"@, reason)),
            Ok(script) => Ok(
                assembled(
                    request,
                    Some(TxOutView { value: request_change(request) as u64, script_pubkey: script }),
                ),
            ),
        }
    }
}

/// The sum of `count` amounts is at most `count` times the largest amount.
proof fn lemma_input_total_bound(inputs: Seq<InputSpec>, count: int)
    requires
        0 <= count,
    ensures
        total_input_amount(inputs, count) <= count * u64::MAX,
    decreases count,
{
    if count > 0 {
        lemma_input_total_bound(inputs, count - 1);
        assert((count - 1) * u64::MAX + u64::MAX == count * u64::MAX) by (nonlinear_arith);
    }
}

/// The sum of `count` amounts is at most `count` times the largest amount.
proof fn lemma_output_total_bound(outputs: Seq<OutputSpec>, count: int)
    requires
        0 <= count,
    ensures
        total_output_amount(outputs, count) <= count * u64::MAX,
    decreases count,
{
    if count > 0 {
        lemma_output_total_bound(outputs, count - 1);
        assert((count - 1) * u64::MAX + u64::MAX == count * u64::MAX) by (nonlinear_arith);
    }
}

/// Whether every input and every output of a request decodes, and the inputs together
/// hold no more than the largest amount.
pub open spec fn parts_decode(request: SigningRequest) -> bool {
    &&& first_input_failure(request.inputs, 0) is None
    &&& request_input_total(request) <= u64::MAX
    &&& first_output_failure(request.outputs, 0) is None
}

/// Every assembled transaction has inputs that cover its outputs and its fee. Where the
/// parts of a request decode and the inputs do not cover outputs and fee, assembly ends
/// with insufficient funds.
pub proof fn lemma_inputs_cover_outputs_and_fee(request: SigningRequest)
    ensures
        assembly(request) is Ok ==> request_input_total(request) >= request_output_total(request)
            + request_fee(request),
        parts_decode(request) && request_input_total(request) < request_output_total(request)
            + request_fee(request) ==> assembly(request) == Err::<TransactionDataView, ErrorView>(
            ErrorView::InsufficientFunds,
        ),
{
}

/// An assembled transaction has a change output exactly when the change is above the
/// dust threshold. The change output is the last one, holds the whole change and pays to
/// the change address. The outputs before it are the payments of the request.
pub proof fn lemma_change_output_iff_above_dust(request: SigningRequest)
    requires
        assembly(request) is Ok,
    ensures
        ({
            let outputs = assembly(request)->Ok_0.raw_transaction.output;
            let payments = request.outputs.len() as int;
            &&& outputs.len() == assembled_output_count(request)
            &&& outputs.len() == payments + 1 <==> request_change(request) > DUST_THRESHOLD
            &&& outputs.len() == payments <==> request_change(request) <= DUST_THRESHOLD
            &&& outputs.subrange(0, payments) == assembled_outputs(request.outputs)
            &&& request_change(request) > DUST_THRESHOLD ==> outputs[payments] == (TxOutView {
                value: request_change(request) as u64,
                script_pubkey: locking_script(request.change_address),
            })
        }),
{
    let outputs = assembly(request)->Ok_0.raw_transaction.output;
    assert(outputs.subrange(0, request.outputs.len() as int) =~= assembled_outputs(
        request.outputs,
    ));
}

/// Assembly is a function of the request: two runs on the same request give the same
/// transaction, and so the same bytes and the same text.
pub proof fn lemma_assembly_is_deterministic(
    request: SigningRequest,
    first: TransactionDataView,
    second: TransactionDataView,
)
    requires
        assembly(request) == Ok::<TransactionDataView, ErrorView>(first),
        assembly(request) == Ok::<TransactionDataView, ErrorView>(second),
    ensures
        first == second,
        consensus_encoding(first.raw_transaction) == consensus_encoding(second.raw_transaction),
        hex_text(consensus_encoding(first.raw_transaction)) == hex_text(
            consensus_encoding(second.raw_transaction),
        ),
{
}

/// Assembly does not read the signing key: with another key in the request, the same
/// transaction comes out, or the same error.
pub proof fn lemma_assembly_does_not_read_the_key(request: SigningRequest, other_key: Seq<char>)
    ensures
        ({
            let other = SigningRequest { private_key: other_key, ..request };
            match assembly(request) {
                Ok(data) => assembly(other) == Ok::<TransactionDataView, ErrorView>(
                    TransactionDataView { private_key: other_key, ..data },
                ),
                Err(e) => assembly(other) == Err::<TransactionDataView, ErrorView>(e),
            }
        }),
{
}

/// Assembly keeps the order of the request: input `i` of the transaction spends what
/// input `i` of the request names, and output `i` makes payment `i`.
pub proof fn lemma_assembly_keeps_order(request: SigningRequest)
    requires
        assembly(request) is Ok,
    ensures
        ({
            let tx = assembly(request)->Ok_0.raw_transaction;
            &&& tx.version == TX_VERSION
            &&& tx.lock_time == TX_LOCK_TIME
            &&& tx.input.len() == request.inputs.len()
            &&& forall|i: int|
                0 <= i < request.inputs.len() ==> #[trigger] tx.input[i] == assembled_input(
                    request.inputs[i],
                )
            &&& forall|i: int|
                0 <= i < request.outputs.len() ==> #[trigger] tx.output[i] == assembled_output(
                    request.outputs[i],
                )
        }),
{
}

/// Assembles the unsigned transaction of a request, with what signing needs.
///
/// The inputs and the outputs keep the order of the request. The transaction has version
/// 2 and lock time 0. The change, if it gets an output, is the last output.
pub fn assemble(params: &BitcoinTransactionData) -> (r: OfflineTransactionResult<TransactionData>)
    ensures
        match r {
            Ok(data) => assembly(params@) == Ok::<TransactionDataView, ErrorView>(data@),
            Err(e) => assembly(params@) == Err::<TransactionDataView, ErrorView>(e@),
        },
        r is Ok ==> request_input_total(params@) >= request_output_total(params@)
            + request_fee(params@),
        r matches Ok(data) ==> !data@.signed,
        r matches Ok(data) ==> data@.raw_transaction.input.len() == params@.inputs.len(),
        r matches Ok(data) ==> data@.raw_transaction.output.len() == assembled_output_count(
            params@,
        ),
{
    let inputs = params.inputs();
    let outputs = params.outputs();
    let ghost request = params@;

    let mut tx_inputs: Vec<TxIn> = Vec::new();
    let mut input_details: Vec<(u64, Vec<u8>)> = Vec::new();
    let mut total_input_amount: u128 = 0;
    let mut i: usize = 0;
    while i < inputs.len()
        invariant
            0 <= i <= inputs@.len(),
            request == params@,
            input_specs(inputs@) == request.inputs,
            first_input_failure(request.inputs, 0) == first_input_failure(request.inputs, i as int),
            total_input_amount == self::total_input_amount(request.inputs, i as int),
            tx_inputs@.len() == i,
            input_details@.len() == i,
            forall|j: int|
                0 <= j < i ==> (#[trigger] tx_inputs@[j])@ == assembled_input(request.inputs[j]),
            forall|j: int|
                0 <= j < i ==> (#[trigger] input_details@[j]).0 == request.inputs[j].amount
                    && input_details@[j].1@ == locking_script(request.inputs[j].address),
        decreases inputs@.len() - i,
    {
        let input = &inputs[i];
        assert(input@ == request.inputs[i as int]);
        let txid = match parse_txid(input.txid.as_str()) {
            Ok(txid) => txid,
            Err(reason) => {
                return Err(new_parse_error("string", "Txid", reason));
            },
        };
        let address = str_to_address_unchecked(input.address.as_str())?;
        tx_inputs.push(
            TxIn {
                previous_output: OutPoint { txid, vout: input.vout },
                script_sig: Vec::new(),
                sequence: SEQUENCE_MAX,
                witness: Vec::new(),
            },
        );
        input_details.push((input.amount, address.script_pubkey));
        proof {
            lemma_input_total_bound(request.inputs, i as int);
            assert(i * u64::MAX + u64::MAX <= u128::MAX) by (nonlinear_arith)
                requires
                    0 <= i <= u64::MAX,
            ;
            assert(tx_inputs@[i as int]@.witness =~= Seq::<Seq<u8>>::empty());
        }
        total_input_amount = total_input_amount + input.amount as u128;
        i += 1;
    }
    if total_input_amount > u64::MAX as u128 {
        return Err(
            new_parse_error(
                "input amounts",
                "total amount",
                "sum exceeds the largest amount".to_owned(),
            ),
        );
    }
    let mut tx_outputs: Vec<TxOut> = Vec::new();
    let mut total_output_amount: u128 = 0;
    let mut k: usize = 0;
    while k < outputs.len()
        invariant
            0 <= k <= outputs@.len(),
            request == params@,
            first_input_failure(request.inputs, 0) is None,
            request_input_total(request) <= u64::MAX,
            output_specs(outputs@) == request.outputs,
            first_output_failure(request.outputs, 0) == first_output_failure(
                request.outputs,
                k as int,
            ),
            total_output_amount == self::total_output_amount(request.outputs, k as int),
            tx_outputs@.len() == k,
            forall|j: int|
                0 <= j < k ==> (#[trigger] tx_outputs@[j])@ == assembled_output(request.outputs[j]),
        decreases outputs@.len() - k,
    {
        let output = &outputs[k];
        assert(output@ == request.outputs[k as int]);
        let address = str_to_address_unchecked(output.address.as_str())?;
        tx_outputs.push(TxOut { value: output.amount, script_pubkey: address.script_pubkey });
        proof {
            lemma_output_total_bound(request.outputs, k as int);
            assert(k * u64::MAX + u64::MAX <= u128::MAX) by (nonlinear_arith)
                requires
                    0 <= k <= u64::MAX,
            ;
        }
        total_output_amount = total_output_amount + output.amount as u128;
        k += 1;
    }
    proof {
        assert(input_contexts(input_details@) =~= assembled_contexts(request.inputs));
        lemma_output_total_bound(request.outputs, outputs@.len() as int);
        assert(outputs@.len() * u64::MAX + u64::MAX <= u128::MAX) by (nonlinear_arith)
            requires
                0 <= outputs@.len() <= u64::MAX,
        ;
    }
    let transaction_fee: u64 = fee_calculator(
        &input_details,
        tx_outputs.len(),
        params.fee_rate(),
    )?;
    if total_output_amount + transaction_fee as u128 > total_input_amount {
        return Err(OfflineTransactionError::InsufficientFunds);
    }
    let change_amount: u64 = (total_input_amount - total_output_amount
        - transaction_fee as u128) as u64;
    let ghost change: Option<TxOutView>;
    if change_amount > DUST_THRESHOLD {
        let change_address = str_to_address_unchecked(params.change_address())?;
        tx_outputs.push(TxOut { value: change_amount, script_pubkey: change_address.script_pubkey });
        proof {
            change = Some(tx_outputs@[outputs@.len() as int]@);
        }
    } else {
        proof {
            change = None;
        }
    }
    let tx = Transaction {
        version: TX_VERSION,
        lock_time: TX_LOCK_TIME,
        input: tx_inputs,
        output: tx_outputs,
    };
    let data = TransactionData::BitcoinTransaction {
        raw_transaction: tx,
        signed: false,
        input_data: input_details,
        private_key: params.private_key().to_owned(),
    };
    proof {
        let expected = assembled(request, change);
        assert(data@.raw_transaction.input =~= expected.raw_transaction.input);
        assert(data@.raw_transaction.output =~= expected.raw_transaction.output);
        assert(data@.input_data =~= expected.input_data);
    }
    Ok(data)
}

impl Platform {
    /// Assembles the unsigned transaction of the request that the platform holds.
    pub fn generate_unsigned_transaction(&self) -> (r: OfflineTransactionResult<TransactionData>)
        ensures
            match r {
                Ok(data) => assembly(self.request()) == Ok::<TransactionDataView, ErrorView>(data@),
                Err(e) => assembly(self.request()) == Err::<TransactionDataView, ErrorView>(e@),
            },
            r is Ok ==> request_input_total(self.request()) >= request_output_total(
                self.request(),
            ) + request_fee(self.request()),
            r matches Ok(data) ==> !data@.signed,
            r matches Ok(data) ==> data@.raw_transaction.input.len()
                == self.request().inputs.len(),
            r matches Ok(data) ==> data@.raw_transaction.output.len() == assembled_output_count(
                self.request(),
            ),
    {
        match self {
            Platform::Bitcoin(params) => assemble(params),
        }
    }
}

} // verus!
