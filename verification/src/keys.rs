//! The signing key and the public key derived from it.

use vstd::prelude::*;
use crate::errors::{new_parse_error, parse_error, OfflineTransactionError};
use crate::primitives::{
    derive_public_key, ecdsa_signature_der, is_secret_key, parse_wif, secp256k1_public_key,
    sign_digest, wif_decoding,
};

verus! {

/// A secp256k1 secret key, with the form in which its public key is written.
///
/// The only way to one is [`PrivateKey::parse`], so the secret is always one that the curve
/// accepts. The key is not printable.
pub struct PrivateKey {
    secret: [u8; 32],
    compressed: bool,
}

/// A serialized secp256k1 public key: 33 bytes in compressed form, 65 otherwise.
#[derive(Debug, PartialEq, Eq)]
pub struct PublicKey {
    bytes: Vec<u8>,
}

impl PrivateKey {
    /// The 32 secret bytes.
    pub closed spec fn secret(&self) -> Seq<u8> {
        self.secret@
    }

    /// Whether the public key is written in compressed form.
    pub closed spec fn compressed(&self) -> bool {
        self.compressed
    }

    #[verifier::type_invariant]
    spec fn accepted(&self) -> bool {
        is_secret_key(self.secret@)
    }

    /// Decodes a private key in wallet import format.
    pub fn parse(wif: &str) -> (r: Result<PrivateKey, OfflineTransactionError>)
        ensures
            match r {
                Ok(key) => wif_decoding(wif@) == Ok::<(Seq<u8>, bool), Seq<char>>(
                    (key.secret(), key.compressed()),
                ),
                Err(e) => wif_decoding(wif@) matches Err(reason) && e@ == parse_error(
                    "WIF string"@,
                    "PrivateKey"@,
                    reason,
                ),
            },
    {
        match parse_wif(wif) {
            Ok((secret, compressed)) => {
                assert(wif_decoding(wif@) matches Ok(key) && key.0 == secret@);
                Ok(PrivateKey { secret, compressed })
            },
            Err(reason) => Err(new_parse_error("WIF string", "PrivateKey", reason)),
        }
    }

    /// Signs a 32-byte digest: the DER encoding of the ECDSA signature, the same one for
    /// the same key and digest.
    pub fn sign(&self, digest: &[u8; 32]) -> (signature: Vec<u8>)
        ensures
            signature@ == ecdsa_signature_der(self.secret(), digest@),
            signature@.len() <= 72,
    {
        proof {
            use_type_invariant(self);
        }
        sign_digest(&self.secret, digest)
    }
}

impl View for PublicKey {
    type V = Seq<u8>;

    closed spec fn view(&self) -> Seq<u8> {
        self.bytes@
    }
}

impl PublicKey {
    #[verifier::type_invariant]
    spec fn sized(&self) -> bool {
        self.bytes@.len() == 33 || self.bytes@.len() == 65
    }

    /// The public key that belongs to a private key, in the form that the private key asks
    /// for.
    pub fn from_private_key(key: &PrivateKey) -> (public_key: PublicKey)
        ensures
            public_key@ == secp256k1_public_key(key.secret(), key.compressed()),
            public_key@.len() == if key.compressed() { 33nat } else { 65nat },
    {
        proof {
            use_type_invariant(key);
        }
        PublicKey { bytes: derive_public_key(&key.secret, key.compressed) }
    }

    /// The serialized key.
    pub fn serialized(&self) -> (bytes: &Vec<u8>)
        ensures
            bytes@ == self@,
            bytes@.len() == 33 || bytes@.len() == 65,
    {
        proof {
            use_type_invariant(self);
        }
        &self.bytes
    }
}

} // verus!
