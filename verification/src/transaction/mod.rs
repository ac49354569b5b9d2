//! A transaction on its way from assembly to its signed, serialized form.

pub mod generate_transaction;
pub mod raw;
pub mod sign_transaction;

use vstd::prelude::*;
use crate::primitives::{consensus_encoding, hex_encode, hex_text, serialize_transaction};
use crate::transaction::raw::{Transaction, TransactionView};

verus! {

/// An assembled transaction with what signing needs, for one of the supported networks.
pub enum TransactionData {
    /// A Bitcoin transaction.
    BitcoinTransaction {
        /// The transaction itself.
        raw_transaction: Transaction,
        /// Whether every input has been signed.
        signed: bool,
        /// For each input, in order, the amount that it spends in minor units and the
        /// locking script of the output that it spends.
        input_data: Vec<(u64, Vec<u8>)>,
        /// The signing key, in wallet import format.
        private_key: String,
    },
}

/// Mathematical value of a [`TransactionData`].
pub ghost struct TransactionDataView {
    pub raw_transaction: TransactionView,
    pub signed: bool,
    pub input_data: Seq<(u64, Seq<u8>)>,
    pub private_key: Seq<char>,
}

/// The values of a list of spent amounts and locking scripts, in order.
pub open spec fn input_contexts(input_data: Seq<(u64, Vec<u8>)>) -> Seq<(u64, Seq<u8>)> {
    Seq::new(input_data.len(), |i: int| (input_data[i].0, input_data[i].1@))
}

impl View for TransactionData {
    type V = TransactionDataView;

    open spec fn view(&self) -> TransactionDataView {
        match self {
            TransactionData::BitcoinTransaction {
                raw_transaction,
                signed,
                input_data,
                private_key,
            } => TransactionDataView {
                raw_transaction: raw_transaction@,
                signed: *signed,
                input_data: input_contexts(input_data@),
                private_key: private_key@,
            },
        }
    }
}

impl TransactionData {
    /// Marks the transaction as signed.
    pub fn signed(&mut self)
        ensures
            final(self)@ == (TransactionDataView { signed: true, ..old(self)@ }),
    {
        match self {
            TransactionData::BitcoinTransaction { signed, .. } => {
                *signed = true;
            },
        }
    }

    /// Whether the transaction is marked as signed.
    pub fn is_signed(&self) -> (signed: bool)
        ensures
            signed == self@.signed,
    {
        match self {
            TransactionData::BitcoinTransaction { signed, .. } => *signed,
        }
    }

    /// The serialized transaction as hexadecimal text, signed or not.
    ///
    /// An unsigned transaction is not fit for broadcast: ask [`TransactionData::is_signed`]
    /// before handing the text on.
    pub fn get_raw_transaction(&self) -> (text: String)
        ensures
            text@ == hex_text(consensus_encoding(self@.raw_transaction)),
    {
        match self {
            TransactionData::BitcoinTransaction { raw_transaction, .. } => {
                let bytes = serialize_transaction(raw_transaction);
                hex_encode(&bytes)
            },
        }
    }
}

} // verus!
