//! The size of a transaction before it is signed, estimated from its shape alone.
//!
//! The estimate is a closed formula over the number of inputs, the number of outputs and
//! whether any input spends a witness program. It reads neither keys nor signatures, so
//! the fee can be fixed before the change is decided.

use vstd::prelude::*;

verus! {

/// Size units of the version, the two counts and the lock time.
pub const BASE_SIZE: u64 = 10;

/// Size units of the witness marker and flag.
pub const WITNESS_FLAG_SIZE: u64 = 2;

/// Size units of a legacy input, unlocking script included.
pub const LEGACY_INPUT_SIZE: u64 = 148;

/// Size units of a witness input: 41 outside the witness and 68 inside.
pub const WITNESS_INPUT_SIZE: u64 = 109;

/// Size units of an output, of either script class.
pub const OUTPUT_SIZE: u64 = 34;

/// Estimated size of a transaction with the given shape.
pub open spec fn tx_size(input_count: nat, output_count: nat, has_segwit: bool) -> nat {
    if has_segwit {
        BASE_SIZE as nat + WITNESS_FLAG_SIZE as nat + input_count * WITNESS_INPUT_SIZE as nat
            + output_count * OUTPUT_SIZE as nat
    } else {
        BASE_SIZE as nat + input_count * LEGACY_INPUT_SIZE as nat + output_count
            * OUTPUT_SIZE as nat
    }
}

/// The estimate without a bound on the counts.
pub(crate) fn wide_tx_size(input_count: usize, output_count: usize, has_segwit: bool) -> (size: u128)
    ensures
        size == tx_size(input_count as nat, output_count as nat, has_segwit),
{
    let inputs: u128 = input_count as u128;
    let outputs: u128 = output_count as u128;
    assert(inputs * WITNESS_INPUT_SIZE <= u64::MAX * 109 && inputs * LEGACY_INPUT_SIZE <= u64::MAX
        * 148 && outputs * OUTPUT_SIZE <= u64::MAX * 34) by (nonlinear_arith)
        requires
            0 <= inputs <= u64::MAX,
            0 <= outputs <= u64::MAX,
            WITNESS_INPUT_SIZE == 109,
            LEGACY_INPUT_SIZE == 148,
            OUTPUT_SIZE == 34,
    ;
    if has_segwit {
        BASE_SIZE as u128 + WITNESS_FLAG_SIZE as u128 + inputs * (WITNESS_INPUT_SIZE as u128)
            + outputs * (OUTPUT_SIZE as u128)
    } else {
        BASE_SIZE as u128 + inputs * (LEGACY_INPUT_SIZE as u128) + outputs * (OUTPUT_SIZE as u128)
    }
}

/// Estimates the size of a transaction with the given shape.
pub fn estimate_tx_size(input_count: usize, output_count: usize, has_segwit: bool) -> (size: u64)
    requires
        tx_size(input_count as nat, output_count as nat, has_segwit) <= u64::MAX,
    ensures
        size == tx_size(input_count as nat, output_count as nat, has_segwit),
{
    wide_tx_size(input_count, output_count, has_segwit) as u64
}

} // verus!
