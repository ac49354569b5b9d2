//! The codec and cryptographic primitives that the pipeline consumes.
//!
//! Each function here hands plain values to the `bitcoin` crate, the `hex` crate or the
//! standard library and takes plain values back. Verus does not look inside them: their
//! contracts are taken on trust, and everything proved about assembly and signing rests
//! on them.

use vstd::prelude::*;
use crate::script::is_p2wpkh_script;
use crate::transaction::raw::{Transaction, TransactionView};
use bitcoin::absolute::LockTime;
use bitcoin::consensus::encode::serialize;
use bitcoin::hashes::Hash as HashBytes;
use bitcoin::secp256k1::{Message, Secp256k1, SecretKey};
use bitcoin::sighash::SighashCache;
use bitcoin::transaction::Version;
use bitcoin::Transaction as RawTransaction;
use bitcoin::{
    Address, Amount, EcdsaSighashType, OutPoint, Script, Sequence, TxIn, TxOut, Txid, Witness,
};
use std::str::FromStr;

verus! {

/// Value of a hexadecimal digit, upper or lower case.
pub open spec fn hex_digit_value(c: char) -> Option<int> {
    if '0' <= c <= '9' {
        Some(c as int - '0' as int)
    } else if 'a' <= c <= 'f' {
        Some(c as int - 'a' as int + 10)
    } else if 'A' <= c <= 'F' {
        Some(c as int - 'A' as int + 10)
    } else {
        None
    }
}

/// A transaction id in text: 64 hexadecimal digits.
pub open spec fn is_txid_text(text: Seq<char>) -> bool {
    &&& text.len() == 64
    &&& forall|i: int| 0 <= i < 64 ==> hex_digit_value(#[trigger] text[i]) is Some
}

/// The 32 bytes of a transaction id given in text. The text shows them last byte first.
pub open spec fn txid_bytes(text: Seq<char>) -> Seq<u8> {
    Seq::new(
        32,
        |k: int|
            (hex_digit_value(text[62 - 2 * k])->0 * 16 + hex_digit_value(
                text[63 - 2 * k],
            )->0) as u8,
    )
}

/// The sixteen hexadecimal digits, lower case.
pub open spec fn hex_digits() -> Seq<char> {
    seq!['0', '1', '2', '3', '4', '5', '6', '7', '8', '9', 'a', 'b', 'c', 'd', 'e', 'f']
}

/// Lower-case hexadecimal text of a byte string, two digits per byte.
pub open spec fn hex_text(bytes: Seq<u8>) -> Seq<char> {
    Seq::new(
        2 * bytes.len(),
        |i: int|
            if i % 2 == 0 {
                hex_digits()[bytes[i / 2] as int / 16]
            } else {
                hex_digits()[bytes[i / 2] as int % 16]
            },
    )
}

/// What the parser of transaction ids says of a text that it refuses.
pub uninterp spec fn txid_error_text(text: Seq<char>) -> Seq<char>;

/// The locking script that an address in text pays to, or why the text is no address.
pub uninterp spec fn address_decoding(text: Seq<char>) -> Result<Seq<u8>, Seq<char>>;

/// The 32 secret bytes and the compression flag that a private key in wallet import
/// format holds, or why the text is no such key.
pub uninterp spec fn wif_decoding(text: Seq<char>) -> Result<(Seq<u8>, bool), Seq<char>>;

/// The serialized secp256k1 public key of a secret key.
pub uninterp spec fn secp256k1_public_key(secret: Seq<u8>, compressed: bool) -> Seq<u8>;

/// The DER encoding of the ECDSA signature of a 32-byte digest under a secret key, with
/// the nonce derived from both.
pub uninterp spec fn ecdsa_signature_der(secret: Seq<u8>, digest: Seq<u8>) -> Seq<u8>;

/// The legacy signature digest for one input of a transaction that carries no unlocking
/// data.
pub uninterp spec fn legacy_sighash(
    tx: TransactionView,
    index: nat,
    script_pubkey: Seq<u8>,
    sighash_type: u32,
) -> Seq<u8>;

/// The version 0 witness signature digest for one input, spending a pay-to-witness-
/// public-key-hash output of the given amount, of a transaction that carries no unlocking
/// data.
pub uninterp spec fn segwit_v0_sighash(
    tx: TransactionView,
    index: nat,
    script_pubkey: Seq<u8>,
    amount: u64,
    sighash_type: u32,
) -> Seq<u8>;

/// Consensus serialization of a transaction, with the witnesses where an input has one.
pub uninterp spec fn consensus_encoding(tx: TransactionView) -> Seq<u8>;

/// A text with every character in lower case, by the rules of Unicode.
pub uninterp spec fn lowercase_text(text: Seq<char>) -> Seq<char>;

/// A text without the white space at its two ends, by the rules of Unicode.
pub uninterp spec fn trimmed_text(text: Seq<char>) -> Seq<char>;

/// Secret bytes that some private key in wallet import format holds. Every such secret
/// is one that secp256k1 accepts.
pub open spec fn is_secret_key(secret: Seq<u8>) -> bool {
    exists|text: Seq<char>| (#[trigger] wif_decoding(text)) matches Ok(key) && key.0 == secret
}

/// `Txid::from_str`: accepts exactly the texts of 64 hexadecimal digits and returns the
/// bytes they spell, in reverse order. For any other text, the error's message.
#[verifier::external_body]
pub(crate) fn parse_txid(text: &str) -> (r: Result<[u8; 32], String>)
    ensures
        match r {
            Ok(bytes) => is_txid_text(text@) && bytes@ == txid_bytes(text@),
            Err(reason) => !is_txid_text(text@) && reason@ == txid_error_text(text@),
        },
{
    Txid::from_str(text).map(|t| t.to_byte_array()).map_err(|e| e.to_string())
}

/// `Address::from_str`, then `Address::script_pubkey` on the address taken as valid for
/// any network: the locking script, or the parse error's message.
#[verifier::external_body]
pub(crate) fn parse_address(text: &str) -> (r: Result<Vec<u8>, String>)
    ensures
        match r {
            Ok(script) => address_decoding(text@) == Ok::<Seq<u8>, Seq<char>>(script@),
            Err(reason) => address_decoding(text@) == Err::<Seq<u8>, Seq<char>>(reason@),
        },
{
    Address::from_str(text).map(|a| a.assume_checked().script_pubkey().into_bytes()).map_err(
        |e| e.to_string(),
    )
}

/// `PrivateKey::from_wif`: the secret bytes and the compression flag of the key, or the
/// parse error's message.
#[verifier::external_body]
pub(crate) fn parse_wif(text: &str) -> (r: Result<([u8; 32], bool), String>)
    ensures
        match r {
            Ok(key) => wif_decoding(text@) == Ok::<(Seq<u8>, bool), Seq<char>>((key.0@, key.1)),
            Err(reason) => wif_decoding(text@) == Err::<(Seq<u8>, bool), Seq<char>>(reason@),
        },
{
    bitcoin::PrivateKey::from_wif(text).map(|k| (k.inner.secret_bytes(), k.compressed)).map_err(
        |e| e.to_string(),
    )
}

/// `secp256k1::PublicKey::from_secret_key`, serialized by `bitcoin::PublicKey::to_bytes`:
/// 33 bytes in compressed form, 65 otherwise.
#[verifier::external_body]
pub(crate) fn derive_public_key(secret: &[u8; 32], compressed: bool) -> (bytes: Vec<u8>)
    requires
        is_secret_key(secret@),
    ensures
        bytes@ == secp256k1_public_key(secret@, compressed),
        bytes@.len() == if compressed { 33nat } else { 65nat },
{
    let secret_key = SecretKey::from_slice(secret).expect("a secret that a key held");
    let inner = bitcoin::secp256k1::PublicKey::from_secret_key(&Secp256k1::signing_only(), &secret_key);
    bitcoin::PublicKey { compressed, inner }.to_bytes()
}

/// `Secp256k1::sign_ecdsa` on the digest, serialized by `Signature::serialize_der`: the
/// same signature for the same key and digest, at most 72 bytes long.
#[verifier::external_body]
pub(crate) fn sign_digest(secret: &[u8; 32], digest: &[u8; 32]) -> (signature: Vec<u8>)
    requires
        is_secret_key(secret@),
    ensures
        signature@ == ecdsa_signature_der(secret@, digest@),
        signature@.len() <= 72,
{
    let secret_key = SecretKey::from_slice(secret).expect("a secret that a key held");
    let message = Message::from_digest(*digest);
    Secp256k1::signing_only().sign_ecdsa(&message, &secret_key).serialize_der().to_vec()
}

/// `SighashCache::legacy_signature_hash` on the transaction with the same version, lock
/// time, previous outputs, sequence numbers and outputs, and no unlocking data: the
/// digest reads none. `None` exactly when the index names no input.
#[verifier::external_body]
pub(crate) fn legacy_digest(
    tx: &Transaction,
    index: usize,
    script_pubkey: &Vec<u8>,
    sighash_type: u32,
) -> (r: Option<[u8; 32]>)
    ensures
        (r is Some) == (index < tx.input@.len()),
        r matches Some(digest) ==> digest@ == legacy_sighash(
            tx@.unsigned(),
            index as nat,
            script_pubkey@,
            sighash_type,
        ),
{
    let raw = RawTransaction {
        version: Version(tx.version),
        lock_time: LockTime::from_consensus(tx.lock_time),
        input: tx.input.iter().map(|i| TxIn {
            previous_output: OutPoint::new(Txid::from_byte_array(i.previous_output.txid), i.previous_output.vout),
            sequence: Sequence(i.sequence), ..Default::default()
        }).collect(),
        output: tx.output.iter().map(|o| TxOut { value: Amount::from_sat(o.value), script_pubkey: o.script_pubkey.clone().into() }).collect(),
    };
    let digest = SighashCache::new(&raw).legacy_signature_hash(index, Script::from_bytes(script_pubkey), sighash_type);
    Some(digest.ok()?.to_byte_array())
}

/// `SighashCache::p2wpkh_signature_hash` on the transaction with the same version, lock
/// time, previous outputs, sequence numbers and outputs, and no unlocking data: the
/// digest reads none. `None` exactly when the index names no input or the script is not
/// a version 0 witness program of 20 bytes.
#[verifier::external_body]
pub(crate) fn p2wpkh_digest(
    tx: &Transaction,
    index: usize,
    script_pubkey: &Vec<u8>,
    amount: u64,
    sighash_type: u32,
) -> (r: Option<[u8; 32]>)
    ensures
        (r is Some) == (index < tx.input@.len() && is_p2wpkh_script(script_pubkey@)),
        r matches Some(digest) ==> digest@ == segwit_v0_sighash(
            tx@.unsigned(),
            index as nat,
            script_pubkey@,
            amount,
            sighash_type,
        ),
{
    let raw = RawTransaction {
        version: Version(tx.version),
        lock_time: LockTime::from_consensus(tx.lock_time),
        input: tx.input.iter().map(|i| TxIn {
            previous_output: OutPoint::new(Txid::from_byte_array(i.previous_output.txid), i.previous_output.vout),
            sequence: Sequence(i.sequence), ..Default::default()
        }).collect(),
        output: tx.output.iter().map(|o| TxOut { value: Amount::from_sat(o.value), script_pubkey: o.script_pubkey.clone().into() }).collect(),
    };
    let digest = SighashCache::new(&raw).p2wpkh_signature_hash(index, Script::from_bytes(script_pubkey),
        Amount::from_sat(amount), EcdsaSighashType::from_consensus(sighash_type));
    Some(digest.ok()?.to_byte_array())
}

/// `bitcoin::consensus::encode::serialize` on the transaction that holds the same fields:
/// the bytes that go on the wire.
#[verifier::external_body]
pub(crate) fn serialize_transaction(tx: &Transaction) -> (bytes: Vec<u8>)
    ensures
        bytes@ == consensus_encoding(tx@),
{
    let raw = RawTransaction {
        version: Version(tx.version),
        lock_time: LockTime::from_consensus(tx.lock_time),
        input: tx.input.iter().map(|i| TxIn {
            previous_output: OutPoint::new(Txid::from_byte_array(i.previous_output.txid), i.previous_output.vout),
            script_sig: i.script_sig.clone().into(),
            sequence: Sequence(i.sequence),
            witness: Witness::from_slice(&i.witness),
        }).collect(),
        output: tx.output.iter().map(|o| TxOut { value: Amount::from_sat(o.value), script_pubkey: o.script_pubkey.clone().into() }).collect(),
    };
    serialize(&raw)
}

/// `str::to_lowercase`: the text in lower case.
#[verifier::external_body]
pub(crate) fn to_lowercase(text: &str) -> (lower: String)
    ensures
        lower@ == lowercase_text(text@),
{
    text.to_lowercase()
}

/// `str::trim`: the text without leading and trailing white space.
#[verifier::external_body]
pub(crate) fn trim(text: &str) -> (trimmed: &str)
    ensures
        trimmed@ == trimmed_text(text@),
{
    text.trim()
}

/// `hex::encode`: two lower-case hexadecimal digits for each byte, in order.
#[verifier::external_body]
pub(crate) fn hex_encode(bytes: &Vec<u8>) -> (text: String)
    ensures
        text@ == hex_text(bytes@),
{
    hex::encode(bytes)
}

} // verus!
