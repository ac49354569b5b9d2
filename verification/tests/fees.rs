use offline_transaction::errors::OfflineTransactionError;
use offline_transaction::signing_service::estimator::estimate_tx_size;
use offline_transaction::utils::fee_calculator::{fee_calculator, has_segwit_input};

fn legacy_script() -> Vec<u8> {
    let mut script = vec![0x76, 0xa9, 0x14];
    script.extend_from_slice(&[0x11; 20]);
    script.extend_from_slice(&[0x88, 0xac]);
    script
}

fn witness_script() -> Vec<u8> {
    let mut script = vec![0x00, 0x14];
    script.extend_from_slice(&[0x22; 20]);
    script
}

#[test]
fn size_of_one_legacy_input_and_two_outputs() {
    assert_eq!(estimate_tx_size(1, 2, false), 226);
}

#[test]
fn size_of_two_witness_inputs_and_one_output() {
    assert_eq!(estimate_tx_size(2, 1, true), 10 + 2 + 2 * 109 + 34);
}

#[test]
fn size_of_nothing_is_the_base_size() {
    assert_eq!(estimate_tx_size(0, 0, false), 10);
    assert_eq!(estimate_tx_size(0, 0, true), 12);
}

#[test]
fn size_grows_by_input_and_by_output() {
    assert_eq!(estimate_tx_size(3, 4, false), 10 + 3 * 148 + 4 * 34);
    assert_eq!(estimate_tx_size(3, 4, true), 12 + 3 * 109 + 4 * 34);
}

#[test]
fn fee_counts_one_more_output_for_the_change() {
    let inputs = vec![(100_000_000u64, legacy_script())];
    assert_eq!(fee_calculator(&inputs, 1, 1).unwrap(), 226);
    assert_eq!(fee_calculator(&inputs, 1, 3).unwrap(), 678);
    assert_eq!(fee_calculator(&inputs, 0, 1).unwrap(), 10 + 148 + 34);
}

#[test]
fn fee_of_a_witness_input() {
    let inputs = vec![(100_000_000u64, witness_script())];
    assert_eq!(fee_calculator(&inputs, 1, 1).unwrap(), 12 + 109 + 2 * 34);
}

#[test]
fn one_witness_input_sets_the_rate_of_all_inputs() {
    let inputs = vec![(1u64, legacy_script()), (2u64, witness_script())];
    assert!(has_segwit_input(&inputs));
    assert_eq!(fee_calculator(&inputs, 0, 2).unwrap(), 2 * (12 + 2 * 109 + 34));
}

#[test]
fn no_witness_input_among_legacy_inputs() {
    let inputs = vec![(1u64, legacy_script()), (2u64, vec![0x51])];
    assert!(!has_segwit_input(&inputs));
    assert!(!has_segwit_input(&Vec::new()));
}

#[test]
fn fee_rate_zero_gives_fee_zero() {
    let inputs = vec![(1u64, legacy_script())];
    assert_eq!(fee_calculator(&inputs, 5, 0).unwrap(), 0);
}

#[test]
fn fee_above_the_largest_amount_is_insufficient_funds() {
    let inputs = vec![(1u64, legacy_script())];
    let result = fee_calculator(&inputs, 1, u64::MAX);
    assert!(matches!(result, Err(OfflineTransactionError::InsufficientFunds)));
}

#[test]
fn fee_does_not_read_amounts() {
    let small = vec![(1u64, legacy_script())];
    let large = vec![(u64::MAX, legacy_script())];
    assert_eq!(fee_calculator(&small, 2, 7).unwrap(), fee_calculator(&large, 2, 7).unwrap());
}
