//! Locking-script classes and the byte-level construction of unlocking scripts.

use vstd::prelude::*;

verus! {

/// `OP_DUP`.
pub const OP_DUP: u8 = 0x76;

/// `OP_HASH160`.
pub const OP_HASH160: u8 = 0xa9;

/// `OP_EQUALVERIFY`.
pub const OP_EQUALVERIFY: u8 = 0x88;

/// `OP_CHECKSIG`.
pub const OP_CHECKSIG: u8 = 0xac;

/// Opcode that pushes the next 20 bytes.
pub const OP_PUSHBYTES_20: u8 = 0x14;

/// Opcode for witness version 0.
pub const OP_0: u8 = 0x00;

/// `OP_PUSHDATA1`: the next byte is the length of the data.
pub const OP_PUSHDATA1: u8 = 0x4c;

/// `OP_PUSHDATA2`: the next two bytes are the length of the data, little-endian.
pub const OP_PUSHDATA2: u8 = 0x4d;

/// `OP_PUSHDATA4`: the next four bytes are the length of the data, little-endian.
pub const OP_PUSHDATA4: u8 = 0x4e;

/// The class of a locking script, as far as this crate can spend it.
#[derive(Debug, Clone, Copy, PartialEq, Eq, Structural)]
pub enum ScriptClass {
    /// Pay to the hash of a public key, unlocked by an unlocking script.
    LegacyPubkeyHash,
    /// Pay to a version 0 witness program of 20 bytes, unlocked by a witness.
    SegwitV0PubkeyHash,
    /// Anything else.
    Unsupported,
}

/// `OP_DUP OP_HASH160 <20 bytes> OP_EQUALVERIFY OP_CHECKSIG`.
pub open spec fn is_p2pkh_script(script: Seq<u8>) -> bool {
    &&& script.len() == 25
    &&& script[0] == OP_DUP
    &&& script[1] == OP_HASH160
    &&& script[2] == OP_PUSHBYTES_20
    &&& script[23] == OP_EQUALVERIFY
    &&& script[24] == OP_CHECKSIG
}

/// `OP_0 <20 bytes>`.
pub open spec fn is_p2wpkh_script(script: Seq<u8>) -> bool {
    &&& script.len() == 22
    &&& script[0] == OP_0
    &&& script[1] == OP_PUSHBYTES_20
}

/// The class of a locking script.
pub open spec fn script_class(script: Seq<u8>) -> ScriptClass {
    if is_p2pkh_script(script) {
        ScriptClass::LegacyPubkeyHash
    } else if is_p2wpkh_script(script) {
        ScriptClass::SegwitV0PubkeyHash
    } else {
        ScriptClass::Unsupported
    }
}

/// Whether the script pays to the hash of a public key.
pub fn is_p2pkh(script: &Vec<u8>) -> (b: bool)
    ensures
        b == is_p2pkh_script(script@),
{
    script.len() == 25 && script[0] == OP_DUP && script[1] == OP_HASH160 && script[2]
        == OP_PUSHBYTES_20 && script[23] == OP_EQUALVERIFY && script[24] == OP_CHECKSIG
}

/// Whether the script is a version 0 witness program of 20 bytes.
pub fn is_p2wpkh(script: &Vec<u8>) -> (b: bool)
    ensures
        b == is_p2wpkh_script(script@),
{
    script.len() == 22 && script[0] == OP_0 && script[1] == OP_PUSHBYTES_20
}

/// Classifies a locking script.
pub fn classify(script: &Vec<u8>) -> (class: ScriptClass)
    ensures
        class == script_class(script@),
{
    if is_p2pkh(script) {
        ScriptClass::LegacyPubkeyHash
    } else if is_p2wpkh(script) {
        ScriptClass::SegwitV0PubkeyHash
    } else {
        ScriptClass::Unsupported
    }
}

/// The opcode, and the length bytes if any, that announce a push of `len` bytes.
pub open spec fn push_prefix(len: nat) -> Seq<u8> {
    if len < 0x4c {
        seq![len as u8]
    } else if len < 0x100 {
        seq![OP_PUSHDATA1, len as u8]
    } else if len < 0x1_0000 {
        seq![OP_PUSHDATA2, (len % 0x100) as u8, (len / 0x100) as u8]
    } else {
        seq![
            OP_PUSHDATA4,
            (len % 0x100) as u8,
            ((len / 0x100) % 0x100) as u8,
            ((len / 0x1_0000) % 0x100) as u8,
            (len / 0x100_0000) as u8,
        ]
    }
}

/// The script bytes that push `data` onto the stack.
pub open spec fn push_encoding(data: Seq<u8>) -> Seq<u8> {
    push_prefix(data.len()) + data
}

/// Appends to `script` the instruction that pushes `data`.
pub fn push_slice(script: &mut Vec<u8>, data: &Vec<u8>)
    requires
        data@.len() < 0x1_0000_0000,
    ensures
        final(script)@ == old(script)@ + push_encoding(data@),
{
    let n: usize = data.len();
    if n < 0x4c {
        script.push(n as u8);
    } else if n < 0x100 {
        script.push(OP_PUSHDATA1);
        script.push(n as u8);
    } else if n < 0x1_0000 {
        script.push(OP_PUSHDATA2);
        script.push((n % 0x100) as u8);
        script.push((n / 0x100) as u8);
    } else {
        script.push(OP_PUSHDATA4);
        script.push((n % 0x100) as u8);
        script.push(((n / 0x100) % 0x100) as u8);
        script.push(((n / 0x1_0000) % 0x100) as u8);
        script.push((n / 0x100_0000) as u8);
    }
    let ghost prefixed = script@;
    assert(prefixed == old(script)@ + push_prefix(data@.len()));
    let mut i: usize = 0;
    while i < n
        invariant
            n == data@.len(),
            0 <= i <= n,
            script@ == prefixed + data@.take(i as int),
        decreases n - i,
    {
        script.push(data[i]);
        assert(data@.take(i as int).push(data@[i as int]) == data@.take(i + 1));
        i += 1;
    }
    assert(data@.take(n as int) == data@);
}

/// The first push instruction of a script: the data that it pushes, and what follows it.
/// `None` where the script does not start with a complete push instruction.
pub open spec fn read_push(script: Seq<u8>) -> Option<(Seq<u8>, Seq<u8>)> {
    if script.len() == 0 {
        None
    } else {
        let opcode = script[0];
        let (header, len): (int, int) = if opcode < OP_PUSHDATA1 {
            (1, opcode as int)
        } else if opcode == OP_PUSHDATA1 && script.len() >= 2 {
            (2, script[1] as int)
        } else if opcode == OP_PUSHDATA2 && script.len() >= 3 {
            (3, script[1] as int + 0x100 * script[2] as int)
        } else if opcode == OP_PUSHDATA4 && script.len() >= 5 {
            (
                5,
                script[1] as int + 0x100 * script[2] as int + 0x1_0000 * script[3] as int
                    + 0x100_0000 * script[4] as int,
            )
        } else {
            (0, 0)
        };
        if header > 0 && script.len() >= header + len {
            Some(
                (
                    script.subrange(header, header + len),
                    script.subrange(header + len, script.len() as int),
                ),
            )
        } else {
            None
        }
    }
}

/// The data of the push instructions that a script consists of, where it consists of
/// exactly `count` of them.
pub open spec fn decode_pushes(script: Seq<u8>, count: nat) -> Option<Seq<Seq<u8>>>
    decreases count,
{
    if count == 0 {
        if script.len() == 0 {
            Some(Seq::empty())
        } else {
            None
        }
    } else {
        match read_push(script) {
            None => None,
            Some((data, rest)) => match decode_pushes(rest, (count - 1) as nat) {
                None => None,
                Some(more) => Some(seq![data] + more),
            },
        }
    }
}

/// A push instruction reads back as the data that it was made for, whatever follows it.
pub proof fn lemma_read_push_of_encoding(data: Seq<u8>, rest: Seq<u8>)
    requires
        data.len() < 0x1_0000_0000,
    ensures
        read_push(push_encoding(data) + rest) == Some((data, rest)),
{
    let len = data.len();
    let script = push_encoding(data) + rest;
    let header: int = if len < 0x4c {
        1
    } else if len < 0x100 {
        2
    } else if len < 0x1_0000 {
        3
    } else {
        5
    };
    assert(push_prefix(len).len() == header);
    assert(forall|i: int| 0 <= i < header ==> script[i] == push_prefix(len)[i]);
    if len >= 0x1_0000 {
        assert(len % 0x100 + 0x100 * ((len / 0x100) % 0x100) + 0x1_0000 * ((len / 0x1_0000)
            % 0x100) + 0x100_0000 * (len / 0x100_0000) == len);
    }
    assert(script.subrange(header, header + len) =~= data);
    assert(script.subrange(header + len, script.len() as int) =~= rest);
}

/// A script made of two push instructions decodes as those two pushes, in order.
pub proof fn lemma_two_pushes_decode(first: Seq<u8>, second: Seq<u8>)
    requires
        first.len() < 0x1_0000_0000,
        second.len() < 0x1_0000_0000,
    ensures
        decode_pushes(push_encoding(first) + push_encoding(second), 2) == Some(
            seq![first, second],
        ),
{
    lemma_read_push_of_encoding(first, push_encoding(second));
    lemma_read_push_of_encoding(second, Seq::empty());
    assert(push_encoding(second) + Seq::<u8>::empty() =~= push_encoding(second));
    reveal_with_fuel(decode_pushes, 3);
    assert(seq![first] + (seq![second] + Seq::<Seq<u8>>::empty()) =~= seq![first, second]);
}

} // verus!
