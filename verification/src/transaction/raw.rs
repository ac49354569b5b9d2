//! The transaction under construction, held as plain values.
//!
//! Every field that the assembly and signing rules read or write is an integer or a
//! byte vector here, so that the rules can be stated over sequences of bytes.

use vstd::prelude::*;

verus! {

/// Sequence number of an input that opts out of relative lock time and replacement.
pub const SEQUENCE_MAX: u32 = 0xFFFF_FFFF;

/// Version number written into every assembled transaction.
pub const TX_VERSION: i32 = 2;

/// Lock time written into every assembled transaction.
pub const TX_LOCK_TIME: u32 = 0;

/// Reference to one output of an earlier transaction.
#[derive(Debug, Clone, Copy, PartialEq, Eq)]
pub struct OutPoint {
    /// Hash of the earlier transaction, in the byte order used on the wire.
    pub txid: [u8; 32],
    /// Index of the output within that transaction.
    pub vout: u32,
}

/// One input of a transaction.
#[derive(Debug, PartialEq, Eq)]
pub struct TxIn {
    pub previous_output: OutPoint,
    /// Unlocking script; empty until a legacy input is signed.
    pub script_sig: Vec<u8>,
    pub sequence: u32,
    /// Witness stack; empty until a segregated-witness input is signed.
    pub witness: Vec<Vec<u8>>,
}

/// One output of a transaction.
#[derive(Debug, PartialEq, Eq)]
pub struct TxOut {
    /// Amount in minor units.
    pub value: u64,
    /// Locking script.
    pub script_pubkey: Vec<u8>,
}

/// A transaction: fixed metadata, ordered inputs, ordered outputs.
#[derive(Debug, PartialEq, Eq)]
pub struct Transaction {
    pub version: i32,
    pub lock_time: u32,
    pub input: Vec<TxIn>,
    pub output: Vec<TxOut>,
}

/// Mathematical value of an [`OutPoint`].
pub ghost struct OutPointView {
    pub txid: Seq<u8>,
    pub vout: u32,
}

/// Mathematical value of a [`TxIn`].
pub ghost struct TxInView {
    pub previous_output: OutPointView,
    pub script_sig: Seq<u8>,
    pub sequence: u32,
    pub witness: Seq<Seq<u8>>,
}

/// Mathematical value of a [`TxOut`].
pub ghost struct TxOutView {
    pub value: u64,
    pub script_pubkey: Seq<u8>,
}

/// Mathematical value of a [`Transaction`].
pub ghost struct TransactionView {
    pub version: i32,
    pub lock_time: u32,
    pub input: Seq<TxInView>,
    pub output: Seq<TxOutView>,
}

impl View for OutPoint {
    type V = OutPointView;

    open spec fn view(&self) -> OutPointView {
        OutPointView { txid: self.txid@, vout: self.vout }
    }
}

impl View for TxIn {
    type V = TxInView;

    open spec fn view(&self) -> TxInView {
        TxInView {
            previous_output: self.previous_output@,
            script_sig: self.script_sig@,
            sequence: self.sequence,
            witness: Seq::new(self.witness@.len(), |i: int| self.witness@[i]@),
        }
    }
}

impl View for TxOut {
    type V = TxOutView;

    open spec fn view(&self) -> TxOutView {
        TxOutView { value: self.value, script_pubkey: self.script_pubkey@ }
    }
}

impl View for Transaction {
    type V = TransactionView;

    open spec fn view(&self) -> TransactionView {
        TransactionView {
            version: self.version,
            lock_time: self.lock_time,
            input: Seq::new(self.input@.len(), |i: int| self.input@[i]@),
            output: Seq::new(self.output@.len(), |i: int| self.output@[i]@),
        }
    }
}

impl TxInView {
    /// The input without its unlocking data.
    pub open spec fn unsigned(self) -> TxInView {
        TxInView { script_sig: Seq::empty(), witness: Seq::empty(), ..self }
    }
}

impl TransactionView {
    /// The transaction with the unlocking data of every input removed.
    pub open spec fn unsigned(self) -> TransactionView {
        TransactionView {
            input: Seq::new(self.input.len(), |i: int| self.input[i].unsigned()),
            ..self
        }
    }
}

} // verus!
