use bitcoin::consensus::encode::deserialize;
use bitcoin::hashes::Hash as HashBytes;
use bitcoin::secp256k1::ecdsa::Signature;
use bitcoin::secp256k1::{Message, Secp256k1};
use bitcoin::sighash::SighashCache;
use bitcoin::{Amount, EcdsaSighashType, Script};
use offline_transaction::errors::OfflineTransactionError;
use offline_transaction::keys::{PrivateKey, PublicKey};
use offline_transaction::signing_service::create_signed_transaction;
use offline_transaction::signing_service::sign_input::{sign_input, sign_inputs, SIGHASH_ALL};
use offline_transaction::transaction::generate_transaction::assemble;
use offline_transaction::transaction::raw::{OutPoint, Transaction, TxIn, TxOut};
use offline_transaction::transaction::TransactionData;
use offline_transaction::types::bitcoin::{
    BitcoinTransactionData, BitcoinTransactionInput, BitcoinTransactionOutput,
};
use offline_transaction::Platform;

const KEY: &str = "KwDiBf89QgGbjEhKnhXJuH7LrciVrZi3qYjgd9M7rFU73sVHnoWn";
const UNCOMPRESSED_KEY: &str = "5HpHagT65TZzG1PH3CSu63k8DbpvD8s5ip4nEB3kEsreAnchuDf";
const PUBLIC_KEY: &str = "0279be667ef9dcbbac55a06295ce870b07029bfcdb2dce28d959f2815b16f81798";
const UNCOMPRESSED_PUBLIC_KEY: &str = "0479be667ef9dcbbac55a06295ce870b07029bfcdb2dce28d959f2815b16f81798483ada7726a3c4655da4fbfc0e1108a8fd17b448a68554199c47d08ffb10d4b8";
const LEGACY_ADDRESS: &str = "1BgGZ9tcN4rm9KBzDn7KprQz87SZ26SAMH";
const UNCOMPRESSED_ADDRESS: &str = "1EHNa6Q4Jz2uvNExL497mE43ikXhwF6kZm";
const WITNESS_ADDRESS: &str = "bc1qw508d6qejxtdg4y5r3zarvary0c5xw7kv8f3t4";
const SCRIPT_HASH_ADDRESS: &str = "3J98t1WpEZ73CNmQviecrnyiWrnqRhWNLy";
const TXID: &str = "000102030405060708090a0b0c0d0e0f101112131415161718191a1b1c1d1e1f";
const OTHER_TXID: &str = "a1a2a3a4a5a6a7a8a9aaabacadaeafb0b1b2b3b4b5b6b7b8b9babbbcbdbebfc0";

fn from_hex(text: &str) -> Vec<u8> {
    (0..text.len() / 2).map(|i| u8::from_str_radix(&text[2 * i..2 * i + 2], 16).unwrap()).collect()
}

fn legacy_script() -> Vec<u8> {
    from_hex("76a914751e76e8199196d454941c45d1b3a323f1433bd688ac")
}

fn witness_script() -> Vec<u8> {
    from_hex("0014751e76e8199196d454941c45d1b3a323f1433bd6")
}

fn request(source: &str, key: &str) -> BitcoinTransactionData {
    let mut data = BitcoinTransactionData::new(source, key);
    data.push_input(TXID, 1, 100_000_000);
    data.push_output(LEGACY_ADDRESS, 50_000_000);
    data
}

fn copy_of(tx: &Transaction) -> Transaction {
    Transaction {
        version: tx.version,
        lock_time: tx.lock_time,
        input: tx
            .input
            .iter()
            .map(|input| TxIn {
                previous_output: input.previous_output,
                script_sig: input.script_sig.clone(),
                sequence: input.sequence,
                witness: input.witness.clone(),
            })
            .collect(),
        output: tx
            .output
            .iter()
            .map(|output| TxOut { value: output.value, script_pubkey: output.script_pubkey.clone() })
            .collect(),
    }
}

fn transaction_of(data: &TransactionData) -> &Transaction {
    match data {
        TransactionData::BitcoinTransaction { raw_transaction, .. } => raw_transaction,
    }
}

fn outside_transaction(data: &TransactionData) -> bitcoin::Transaction {
    deserialize(&from_hex(&data.get_raw_transaction())).unwrap()
}

fn verifies(digest: [u8; 32], signature_with_type: &[u8], public_key: &[u8]) -> bool {
    let (&hash_type, der) = signature_with_type.split_last().unwrap();
    let signature = Signature::from_der(der).unwrap();
    let key = bitcoin::secp256k1::PublicKey::from_slice(public_key).unwrap();
    hash_type == 0x01
        && Secp256k1::new().verify_ecdsa(&Message::from_digest(digest), &signature, &key).is_ok()
}

fn pushes_of(script: &[u8]) -> (Vec<u8>, Vec<u8>) {
    let first_len = script[0] as usize;
    assert!(first_len < 0x4c);
    let first = script[1..1 + first_len].to_vec();
    let second_len = script[1 + first_len] as usize;
    assert!(second_len < 0x4c);
    let second = script[2 + first_len..].to_vec();
    assert_eq!(second.len(), second_len);
    (first, second)
}

#[test]
fn test_sign_transaction() {
    let platform = Platform::Bitcoin(request(LEGACY_ADDRESS, KEY));
    let mut transaction_data = platform
        .generate_unsigned_transaction()
        .expect("Failed to generate unsigned transaction");
    transaction_data.sign_transaction().expect("Failed to sign transaction");
    match &transaction_data {
        TransactionData::BitcoinTransaction { signed, .. } => {
            assert!(signed, "Transaction should be signed after signing");
        }
    }
    let raw_tx = transaction_data.get_raw_transaction();
    assert!(!raw_tx.is_empty(), "Raw transaction should not be empty");
}

#[test]
fn test_transaction_workflow() {
    let platform = Platform::Bitcoin(request(LEGACY_ADDRESS, KEY));
    let mut transaction_data = platform
        .generate_unsigned_transaction()
        .expect("Failed to generate unsigned transaction");
    match &transaction_data {
        TransactionData::BitcoinTransaction { signed, .. } => {
            assert!(!signed, "Transaction should not be signed initially");
        }
    }
    let unsigned_tx = transaction_data.get_raw_transaction();
    assert!(!unsigned_tx.is_empty(), "Unsigned transaction should not be empty");
    transaction_data.sign_transaction().expect("Failed to sign transaction");
    match &transaction_data {
        TransactionData::BitcoinTransaction { signed, .. } => {
            assert!(signed, "Transaction should be signed after signing");
        }
    }
    let signed_tx = transaction_data.get_raw_transaction();
    assert!(!signed_tx.is_empty(), "Signed transaction should not be empty");
    assert_ne!(
        unsigned_tx, signed_tx,
        "Signed transaction should be different from unsigned transaction"
    );
}

#[test]
fn private_key_decodes_from_wallet_import_format() {
    let key = PrivateKey::parse(KEY).ok().unwrap();
    assert_eq!(PublicKey::from_private_key(&key).serialized(), &from_hex(PUBLIC_KEY));
    let key = PrivateKey::parse(UNCOMPRESSED_KEY).ok().unwrap();
    assert_eq!(PublicKey::from_private_key(&key).serialized(), &from_hex(UNCOMPRESSED_PUBLIC_KEY));
}

#[test]
fn private_key_that_does_not_decode_is_a_parse_error() {
    for text in ["", "not a key", LEGACY_ADDRESS, "KwDiBf89QgGbjEhKnhXJuH7LrciVrZi3qYjgd9M7rFU73sVHnoWm"] {
        match PrivateKey::parse(text).err().unwrap() {
            OfflineTransactionError::ParseError { from, to, reason } => {
                assert_eq!(from, "WIF string");
                assert_eq!(to, "PrivateKey");
                assert!(!reason.is_empty());
            }
            other => panic!("expected a parse error, got {:?}", other),
        }
    }
}

#[test]
fn signature_is_the_same_for_the_same_key_and_digest() {
    let key = PrivateKey::parse(KEY).ok().unwrap();
    let first = key.sign(&[7; 32]);
    let second = key.sign(&[7; 32]);
    let other = key.sign(&[8; 32]);
    assert_eq!(first, second);
    assert_ne!(first, other);
    assert!(first.len() <= 72);
    assert_eq!(first[0], 0x30);
    let mut with_type = first.clone();
    with_type.push(0x01);
    assert!(verifies([7; 32], &with_type, &from_hex(PUBLIC_KEY)));
    assert!(!verifies([8; 32], &with_type, &from_hex(PUBLIC_KEY)));
}

#[test]
fn legacy_input_gets_an_unlocking_script_that_verifies() {
    let mut data = assemble(&request(LEGACY_ADDRESS, KEY)).unwrap();
    data.sign_transaction().unwrap();
    assert!(data.is_signed());
    let tx = transaction_of(&data);
    assert!(tx.input[0].witness.is_empty());
    let (signature, public_key) = pushes_of(&tx.input[0].script_sig);
    assert_eq!(public_key, from_hex(PUBLIC_KEY));
    assert_eq!(*signature.last().unwrap(), 0x01);
    let outside = outside_transaction(&data);
    let digest = SighashCache::new(&outside)
        .legacy_signature_hash(0, Script::from_bytes(&legacy_script()), 1)
        .unwrap()
        .to_byte_array();
    assert!(verifies(digest, &signature, &public_key));
    let instructions: Vec<_> = outside.input[0].script_sig.instructions().collect();
    assert_eq!(instructions.len(), 2);
    assert_eq!(instructions[0].as_ref().unwrap().push_bytes().unwrap().as_bytes(), &signature[..]);
    assert_eq!(instructions[1].as_ref().unwrap().push_bytes().unwrap().as_bytes(), &public_key[..]);
}

#[test]
fn legacy_input_of_an_uncompressed_key_carries_the_long_public_key() {
    let mut data = assemble(&request(UNCOMPRESSED_ADDRESS, UNCOMPRESSED_KEY)).unwrap();
    data.sign_transaction().unwrap();
    let tx = transaction_of(&data);
    let (signature, public_key) = pushes_of(&tx.input[0].script_sig);
    assert_eq!(public_key, from_hex(UNCOMPRESSED_PUBLIC_KEY));
    let script = from_hex("76a91491b24bf9f5288532960ac687abb035127b1d28a588ac");
    let digest = SighashCache::new(&outside_transaction(&data))
        .legacy_signature_hash(0, Script::from_bytes(&script), 1)
        .unwrap()
        .to_byte_array();
    assert!(verifies(digest, &signature, &public_key));
}

#[test]
fn witness_input_gets_a_witness_of_two_elements_that_verifies() {
    let mut request = BitcoinTransactionData::new(WITNESS_ADDRESS, KEY);
    request.push_input(TXID, 0, 1_000_000);
    request.push_output(LEGACY_ADDRESS, 400_000);
    let mut data = assemble(&request).unwrap();
    data.sign_transaction().unwrap();
    assert!(data.is_signed());
    let tx = transaction_of(&data);
    assert!(tx.input[0].script_sig.is_empty());
    assert_eq!(tx.input[0].witness.len(), 2);
    assert_eq!(tx.input[0].witness[1], from_hex(PUBLIC_KEY));
    let outside = outside_transaction(&data);
    assert_eq!(outside.input[0].witness.to_vec(), tx.input[0].witness);
    let digest = SighashCache::new(&outside)
        .p2wpkh_signature_hash(
            0,
            Script::from_bytes(&witness_script()),
            Amount::from_sat(1_000_000),
            EcdsaSighashType::All,
        )
        .unwrap()
        .to_byte_array();
    assert!(verifies(digest, &tx.input[0].witness[0], &tx.input[0].witness[1]));
    let wrong_amount = SighashCache::new(&outside)
        .p2wpkh_signature_hash(
            0,
            Script::from_bytes(&witness_script()),
            Amount::from_sat(1_000_001),
            EcdsaSighashType::All,
        )
        .unwrap()
        .to_byte_array();
    assert!(!verifies(wrong_amount, &tx.input[0].witness[0], &tx.input[0].witness[1]));
}

fn input(txid: &str, vout: u32, amount: u64, address: &str) -> BitcoinTransactionInput {
    BitcoinTransactionInput { txid: txid.to_string(), vout, amount, address: address.to_string() }
}

#[test]
fn legacy_and_witness_inputs_are_signed_side_by_side() {
    let request = BitcoinTransactionData::from_parts(
        vec![input(TXID, 0, 600_000, LEGACY_ADDRESS), input(OTHER_TXID, 1, 500_000, WITNESS_ADDRESS)],
        vec![BitcoinTransactionOutput { address: WITNESS_ADDRESS.to_string(), amount: 700_000 }],
        LEGACY_ADDRESS.to_string(),
        KEY.to_string(),
        1,
    );
    let mut data = assemble(&request).unwrap();
    assert_eq!(transaction_of(&data).output.len(), 2);
    assert_eq!(transaction_of(&data).output[1].value, 1_100_000 - 700_000 - (12 + 2 * 109 + 2 * 34));
    data.sign_transaction().unwrap();
    let tx = transaction_of(&data);
    let outside = outside_transaction(&data);
    let (signature, public_key) = pushes_of(&tx.input[0].script_sig);
    let digest = SighashCache::new(&outside)
        .legacy_signature_hash(0, Script::from_bytes(&legacy_script()), 1)
        .unwrap()
        .to_byte_array();
    assert!(verifies(digest, &signature, &public_key));
    assert!(tx.input[0].witness.is_empty());
    assert!(tx.input[1].script_sig.is_empty());
    let digest = SighashCache::new(&outside)
        .p2wpkh_signature_hash(
            1,
            Script::from_bytes(&witness_script()),
            Amount::from_sat(500_000),
            EcdsaSighashType::All,
        )
        .unwrap()
        .to_byte_array();
    assert!(verifies(digest, &tx.input[1].witness[0], &tx.input[1].witness[1]));
}

#[test]
fn signing_again_derives_the_same_unlocking_data() {
    let mut data = assemble(&request(LEGACY_ADDRESS, KEY)).unwrap();
    data.sign_transaction().unwrap();
    let once = data.get_raw_transaction();
    data.sign_transaction().unwrap();
    assert!(data.is_signed());
    assert_eq!(data.get_raw_transaction(), once);
}

#[test]
fn signing_again_a_witness_input_derives_the_same_witness() {
    let mut request = BitcoinTransactionData::new(WITNESS_ADDRESS, KEY);
    request.push_input(TXID, 0, 1_000_000);
    let mut data = assemble(&request).unwrap();
    data.sign_transaction().unwrap();
    let once = copy_of(transaction_of(&data));
    data.sign_transaction().unwrap();
    assert_eq!(transaction_of(&data), &once);
}

#[test]
fn script_hash_input_is_unsupported_and_later_inputs_stay_untouched() {
    let request = BitcoinTransactionData::from_parts(
        vec![
            input(TXID, 0, 600_000, LEGACY_ADDRESS),
            input(OTHER_TXID, 1, 500_000, SCRIPT_HASH_ADDRESS),
            input(TXID, 2, 400_000, LEGACY_ADDRESS),
        ],
        vec![BitcoinTransactionOutput { address: LEGACY_ADDRESS.to_string(), amount: 700_000 }],
        LEGACY_ADDRESS.to_string(),
        KEY.to_string(),
        1,
    );
    let mut data = assemble(&request).unwrap();
    let before = copy_of(transaction_of(&data));
    match data.sign_transaction() {
        Err(OfflineTransactionError::UnsupportedError { component, input, expected }) => {
            assert_eq!(component, "script_pubkey type");
            assert_eq!(input, "unknown");
            assert_eq!(expected, "p2pkh, p2wpkh");
        }
        other => panic!("expected an unsupported error, got {:?}", other),
    }
    assert!(!data.is_signed());
    let after = transaction_of(&data);
    assert!(!after.input[0].script_sig.is_empty());
    assert_eq!(after.input[1], before.input[1]);
    assert_eq!(after.input[2], before.input[2]);
    assert_eq!(after.output, before.output);
}

#[test]
fn script_hash_source_address_is_unsupported() {
    let mut data = assemble(&request(SCRIPT_HASH_ADDRESS, KEY)).unwrap();
    let before = copy_of(transaction_of(&data));
    assert!(matches!(
        data.sign_transaction(),
        Err(OfflineTransactionError::UnsupportedError { .. })
    ));
    assert!(!data.is_signed());
    assert_eq!(transaction_of(&data), &before);
}

#[test]
fn malformed_private_key_fails_before_any_input_is_touched() {
    let mut data = assemble(&request(LEGACY_ADDRESS, "not a key")).unwrap();
    let before = data.get_raw_transaction();
    match data.sign_transaction() {
        Err(OfflineTransactionError::ParseError { from, to, .. }) => {
            assert_eq!(from, "WIF string");
            assert_eq!(to, "PrivateKey");
        }
        other => panic!("expected a parse error, got {:?}", other),
    }
    assert!(!data.is_signed());
    assert_eq!(data.get_raw_transaction(), before);
}

#[test]
fn input_data_beyond_the_inputs_is_a_hasher_error() {
    let mut data = assemble(&request(LEGACY_ADDRESS, KEY)).unwrap();
    match &mut data {
        TransactionData::BitcoinTransaction { input_data, .. } => {
            input_data.push((5, witness_script()));
        }
    }
    match data.sign_transaction() {
        Err(OfflineTransactionError::HasherError(reason)) => assert!(!reason.is_empty()),
        other => panic!("expected a hasher error, got {:?}", other),
    }
    assert!(!data.is_signed());
    assert!(!transaction_of(&data).input[0].script_sig.is_empty());
}

#[test]
fn fewer_input_data_than_inputs_signs_only_those() {
    let mut request = BitcoinTransactionData::new(LEGACY_ADDRESS, KEY);
    request.push_input(TXID, 0, 600_000);
    request.push_input(OTHER_TXID, 1, 500_000);
    let mut data = assemble(&request).unwrap();
    match &mut data {
        TransactionData::BitcoinTransaction { input_data, .. } => {
            input_data.pop();
        }
    }
    data.sign_transaction().unwrap();
    assert!(data.is_signed());
    assert!(!transaction_of(&data).input[0].script_sig.is_empty());
    assert!(transaction_of(&data).input[1].script_sig.is_empty());
}

#[test]
fn sign_input_changes_only_its_input() {
    let key = PrivateKey::parse(KEY).ok().unwrap();
    let public_key = PublicKey::from_private_key(&key);
    let input = |vout: u32| TxIn {
        previous_output: OutPoint { txid: [vout as u8; 32], vout },
        script_sig: Vec::new(),
        sequence: 0xFFFF_FFFF,
        witness: Vec::new(),
    };
    let mut tx = Transaction {
        version: 2,
        lock_time: 0,
        input: vec![input(0), input(1)],
        output: vec![TxOut { value: 1_000, script_pubkey: legacy_script() }],
    };
    let before = copy_of(&tx);
    assert_eq!(SIGHASH_ALL, 1);
    sign_input(&mut tx, 1, 5_000, &witness_script(), &key, &public_key).unwrap();
    assert_eq!(tx.input[0], before.input[0]);
    assert_eq!(tx.output, before.output);
    assert_eq!(tx.input[1].previous_output, before.input[1].previous_output);
    assert_eq!(tx.input[1].witness.len(), 2);
    let signed = copy_of(&tx);
    assert!(matches!(
        sign_input(&mut tx, 2, 5_000, &legacy_script(), &key, &public_key),
        Err(OfflineTransactionError::HasherError(_))
    ));
    assert!(matches!(
        sign_input(&mut tx, 0, 5_000, &vec![0x51], &key, &public_key),
        Err(OfflineTransactionError::UnsupportedError { .. })
    ));
    assert!(matches!(
        sign_input(&mut tx, 9, 5_000, &vec![0x51], &key, &public_key),
        Err(OfflineTransactionError::UnsupportedError { .. })
    ));
    assert_eq!(tx, signed);
}

#[test]
fn sign_inputs_stops_at_the_first_input_that_cannot_be_signed() {
    let key = PrivateKey::parse(KEY).ok().unwrap();
    let public_key = PublicKey::from_private_key(&key);
    let input = |vout: u32| TxIn {
        previous_output: OutPoint { txid: [7; 32], vout },
        script_sig: Vec::new(),
        sequence: 0xFFFF_FFFF,
        witness: Vec::new(),
    };
    let mut tx = Transaction { version: 2, lock_time: 0, input: vec![input(0), input(1), input(2)], output: Vec::new() };
    let input_data = vec![(1u64, witness_script()), (2u64, Vec::new()), (3u64, legacy_script())];
    assert!(sign_inputs(&mut tx, &input_data, &key, &public_key).is_err());
    assert_eq!(tx.input[0].witness.len(), 2);
    assert_eq!(tx.input[1], input(1));
    assert_eq!(tx.input[2], input(2));
}

#[test]
fn digest_does_not_read_the_unlocking_data_of_other_inputs() {
    let mut request = BitcoinTransactionData::new(LEGACY_ADDRESS, KEY);
    request.push_input(TXID, 0, 600_000);
    request.push_input(OTHER_TXID, 1, 500_000);
    request.push_output(LEGACY_ADDRESS, 700_000);
    let mut data = assemble(&request).unwrap();
    data.sign_transaction().unwrap();
    let in_order = copy_of(transaction_of(&data));
    let key = PrivateKey::parse(KEY).ok().unwrap();
    let public_key = PublicKey::from_private_key(&key);
    let mut tx = copy_of(transaction_of(&assemble(&request).unwrap()));
    sign_input(&mut tx, 1, 500_000, &legacy_script(), &key, &public_key).unwrap();
    sign_input(&mut tx, 0, 600_000, &legacy_script(), &key, &public_key).unwrap();
    assert_eq!(tx, in_order);
}

#[test]
fn pipeline_gives_the_transaction_of_assembly_and_signing() {
    let request = request(LEGACY_ADDRESS, KEY);
    let tx = create_signed_transaction(&request).unwrap();
    let mut data = assemble(&request).unwrap();
    data.sign_transaction().unwrap();
    assert_eq!(&tx, transaction_of(&data));
}

#[test]
fn pipeline_looks_at_the_private_key_first() {
    let mut request = BitcoinTransactionData::new("no address", "not a key");
    request.push_input("no txid", 0, 1);
    match create_signed_transaction(&request) {
        Err(OfflineTransactionError::ParseError { to, .. }) => assert_eq!(to, "PrivateKey"),
        other => panic!("expected a parse error, got {:?}", other),
    }
    let mut request = BitcoinTransactionData::new("no address", KEY);
    request.push_input("no txid", 0, 1);
    match create_signed_transaction(&request) {
        Err(OfflineTransactionError::ParseError { to, .. }) => assert_eq!(to, "Txid"),
        other => panic!("expected a parse error, got {:?}", other),
    }
}

#[test]
fn pipeline_refuses_a_script_hash_input() {
    let request = request(SCRIPT_HASH_ADDRESS, KEY);
    assert!(matches!(
        create_signed_transaction(&request),
        Err(OfflineTransactionError::UnsupportedError { .. })
    ));
}

#[test]
fn pipeline_reports_insufficient_funds() {
    let mut request = BitcoinTransactionData::new(LEGACY_ADDRESS, KEY);
    request.push_input(TXID, 0, 1_000);
    request.push_output(LEGACY_ADDRESS, 1_000);
    assert_eq!(create_signed_transaction(&request), Err(OfflineTransactionError::InsufficientFunds));
}

#[test]
fn one_legacy_input_of_one_coin_end_to_end() {
    let mut request = BitcoinTransactionData::new(LEGACY_ADDRESS, KEY);
    request.push_input(TXID, 1, 100_000_000);
    request.push_output(LEGACY_ADDRESS, 50_000_000);
    request.set_fee_rate(1);
    let mut data = Platform::Bitcoin(request).generate_unsigned_transaction().unwrap();
    assert!(!data.is_signed());
    let unsigned = data.get_raw_transaction();
    assert_eq!(unsigned.len(), 2 * (10 + 41 + 2 * 34));
    data.sign_transaction().unwrap();
    assert!(data.is_signed());
    let tx = transaction_of(&data);
    assert_eq!(tx.output.len(), 2);
    assert_eq!(tx.output[0].value, 50_000_000);
    assert_eq!(tx.output[1].value, 49_999_774);
    let script_sig_len = tx.input[0].script_sig.len();
    assert!((1 + 71 + 1 + 33..=1 + 73 + 1 + 33).contains(&script_sig_len));
    let signed = data.get_raw_transaction();
    assert_eq!(signed.len(), 2 * (10 + 41 + script_sig_len + 2 * 34));
    let outside: bitcoin::Transaction = deserialize(&from_hex(&signed)).unwrap();
    assert_eq!(outside.input[0].script_sig.as_bytes(), &tx.input[0].script_sig[..]);
    assert_eq!(outside.output[1].value.to_sat(), 49_999_774);
}
