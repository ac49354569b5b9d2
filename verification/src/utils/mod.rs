//! Helpers of the assembler.

pub mod fee_calculator;
pub mod str_to_address;
