use bitcoin::script::PushBytesBuf;
use bitcoin::{Script, ScriptBuf};
use offline_transaction::script::{classify, is_p2pkh, is_p2wpkh, push_slice, ScriptClass};

fn samples() -> Vec<Vec<u8>> {
    let mut p2pkh = vec![0x76, 0xa9, 0x14];
    p2pkh.extend_from_slice(&[0x33; 20]);
    p2pkh.extend_from_slice(&[0x88, 0xac]);
    let mut p2wpkh = vec![0x00, 0x14];
    p2wpkh.extend_from_slice(&[0x44; 20]);
    let mut p2sh = vec![0xa9, 0x14];
    p2sh.extend_from_slice(&[0x55; 20]);
    p2sh.push(0x87);
    let mut p2wsh = vec![0x00, 0x20];
    p2wsh.extend_from_slice(&[0x66; 32]);
    let mut p2tr = vec![0x51, 0x20];
    p2tr.extend_from_slice(&[0x77; 32]);
    let mut wrong_end = p2pkh.clone();
    wrong_end[24] = 0xad;
    let mut wrong_version = p2wpkh.clone();
    wrong_version[0] = 0x51;
    let mut long = p2wpkh.clone();
    long.push(0x00);
    vec![p2pkh, p2wpkh, p2sh, p2wsh, p2tr, wrong_end, wrong_version, long, Vec::new(), vec![0x00]]
}

#[test]
fn pay_to_public_key_hash_is_legacy() {
    let script = &samples()[0];
    assert!(is_p2pkh(script));
    assert!(!is_p2wpkh(script));
    assert_eq!(classify(script), ScriptClass::LegacyPubkeyHash);
}

#[test]
fn witness_program_of_20_bytes_is_segwit() {
    let script = &samples()[1];
    assert!(is_p2wpkh(script));
    assert!(!is_p2pkh(script));
    assert_eq!(classify(script), ScriptClass::SegwitV0PubkeyHash);
}

#[test]
fn other_scripts_are_unsupported() {
    for script in samples().iter().skip(2) {
        assert_eq!(classify(script), ScriptClass::Unsupported);
    }
}

#[test]
fn classes_agree_with_the_bitcoin_crate() {
    for script in samples() {
        let outside = Script::from_bytes(&script);
        assert_eq!(is_p2pkh(&script), outside.is_p2pkh());
        assert_eq!(is_p2wpkh(&script), outside.is_p2wpkh());
    }
}

#[test]
fn short_push_is_length_then_data() {
    let mut script = vec![0xaa];
    push_slice(&mut script, &vec![1, 2, 3]);
    assert_eq!(script, vec![0xaa, 3, 1, 2, 3]);
}

#[test]
fn empty_push_is_a_zero_byte() {
    let mut script = Vec::new();
    push_slice(&mut script, &Vec::new());
    assert_eq!(script, vec![0]);
}

#[test]
fn push_of_76_bytes_uses_pushdata1() {
    let mut script = Vec::new();
    push_slice(&mut script, &vec![9; 76]);
    assert_eq!(script.len(), 78);
    assert_eq!(&script[..2], &[0x4c, 76]);
}

#[test]
fn push_of_256_bytes_uses_pushdata2() {
    let mut script = Vec::new();
    push_slice(&mut script, &vec![9; 256]);
    assert_eq!(script.len(), 259);
    assert_eq!(&script[..3], &[0x4d, 0x00, 0x01]);
}

#[test]
fn push_of_65536_bytes_uses_pushdata4() {
    let mut script = Vec::new();
    push_slice(&mut script, &vec![9; 65536]);
    assert_eq!(script.len(), 65541);
    assert_eq!(&script[..5], &[0x4e, 0x00, 0x00, 0x01, 0x00]);
}

#[test]
fn pushes_agree_with_the_bitcoin_crate() {
    for len in [0usize, 1, 33, 65, 73, 75, 76, 77, 255, 256, 257, 65535, 65536, 70000] {
        let data: Vec<u8> = (0..len).map(|i| (i % 251) as u8).collect();
        let mut ours = Vec::new();
        push_slice(&mut ours, &data);
        let mut theirs = ScriptBuf::new();
        theirs.push_slice(PushBytesBuf::try_from(data).unwrap());
        assert_eq!(ours, theirs.into_bytes());
    }
}
