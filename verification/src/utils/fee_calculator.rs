//! The fee of a transaction, from its estimated size and the fee rate.

use vstd::prelude::*;
use crate::errors::{ErrorView, OfflineTransactionError, OfflineTransactionResult};
use crate::script::{is_p2wpkh, is_p2wpkh_script, script_class};
use crate::signing_service::estimator::{tx_size, wide_tx_size, OUTPUT_SIZE};
use crate::transaction::input_contexts;

verus! {

/// Whether any of the inputs spends a version 0 witness program of 20 bytes.
pub open spec fn any_segwit(input_data: Seq<(u64, Seq<u8>)>) -> bool {
    exists|i: int| 0 <= i < input_data.len() && is_p2wpkh_script(#[trigger] input_data[i].1)
}

/// The fee of a transaction with the given inputs and `output_count` outputs besides the
/// change: the size estimated with one more output, for the change, times the fee rate.
pub open spec fn estimated_fee(input_count: nat, output_count: nat, has_segwit: bool, fee_rate: u64) -> nat {
    tx_size(input_count, output_count + 1, has_segwit) * fee_rate as nat
}

/// The fee reads the shape of the transaction and the fee rate, and nothing else: input
/// lists of the same length and the same script classes pay the same fee, whatever the
/// amounts and the keys.
pub proof fn lemma_fee_reads_shape_only(
    first: Seq<(u64, Seq<u8>)>,
    second: Seq<(u64, Seq<u8>)>,
    output_count: nat,
    fee_rate: u64,
)
    requires
        first.len() == second.len(),
        forall|i: int|
            0 <= i < first.len() ==> script_class(#[trigger] first[i].1) == script_class(
                second[i].1,
            ),
    ensures
        estimated_fee(first.len(), output_count, any_segwit(first), fee_rate) == estimated_fee(
            second.len(),
            output_count,
            any_segwit(second),
            fee_rate,
        ),
{
    if any_segwit(first) {
        let i = choose|i: int| 0 <= i < first.len() && is_p2wpkh_script(#[trigger] first[i].1);
        assert(script_class(first[i].1) == script_class(second[i].1));
        assert(is_p2wpkh_script(second[i].1));
    }
    if any_segwit(second) {
        let i = choose|i: int| 0 <= i < second.len() && is_p2wpkh_script(#[trigger] second[i].1);
        assert(script_class(first[i].1) == script_class(second[i].1));
        assert(is_p2wpkh_script(first[i].1));
    }
}

/// Tells whether any of the inputs spends a witness program.
pub fn has_segwit_input(input_data: &Vec<(u64, Vec<u8>)>) -> (found: bool)
    ensures
        found == any_segwit(input_contexts(input_data@)),
{
    let ghost contexts = input_contexts(input_data@);
    let mut i: usize = 0;
    while i < input_data.len()
        invariant
            0 <= i <= input_data@.len(),
            contexts == input_contexts(input_data@),
            forall|j: int| 0 <= j < i ==> !is_p2wpkh_script(#[trigger] contexts[j].1),
        decreases input_data@.len() - i,
    {
        if is_p2wpkh(&input_data[i].1) {
            assert(is_p2wpkh_script(contexts[i as int].1));
            return true;
        }
        i += 1;
    }
    false
}

/// Computes the fee, in minor units, that the transaction has to pay.
///
/// The fee depends on the number of inputs and outputs, on the script classes of the
/// inputs and on the fee rate, and on nothing else. A fee above the largest amount is
/// one that no inputs can cover.
pub fn fee_calculator(input_data: &Vec<(u64, Vec<u8>)>, output_count: usize, fee_rate: u64) -> (r:
    OfflineTransactionResult<u64>)
    ensures
        match r {
            Ok(fee) => fee == estimated_fee(
                input_data@.len(),
                output_count as nat,
                any_segwit(input_contexts(input_data@)),
                fee_rate,
            ),
            Err(e) => e@ == ErrorView::InsufficientFunds && estimated_fee(
                input_data@.len(),
                output_count as nat,
                any_segwit(input_contexts(input_data@)),
                fee_rate,
            ) > u64::MAX,
        },
{
    let has_segwit = has_segwit_input(input_data);
    let size: u128 = wide_tx_size(input_data.len(), output_count, has_segwit) + OUTPUT_SIZE as u128;
    if fee_rate == 0 {
        return Ok(0);
    }
    if size > u64::MAX as u128 {
        assert(size * fee_rate >= size) by (nonlinear_arith)
            requires
                fee_rate >= 1,
                size >= 0,
        ;
        return Err(OfflineTransactionError::InsufficientFunds);
    }
    assert(size * fee_rate <= u64::MAX * u64::MAX) by (nonlinear_arith)
        requires
            0 <= size <= u64::MAX,
            0 <= fee_rate <= u64::MAX,
    ;
    let fee: u128 = size * (fee_rate as u128);
    if fee > u64::MAX as u128 {
        Err(OfflineTransactionError::InsufficientFunds)
    } else {
        Ok(fee as u64)
    }
}

} // verus!
