//! Addresses in text.

use vstd::prelude::*;
use crate::errors::{new_parse_error, parse_error, OfflineTransactionResult};
use crate::primitives::{address_decoding, parse_address};

verus! {

/// A decoded address: the locking script that pays to it.
#[derive(Debug, PartialEq, Eq)]
pub struct Address {
    pub script_pubkey: Vec<u8>,
}

/// Decodes an address without asking which network it belongs to.
pub fn str_to_address_unchecked(address: &str) -> (r: OfflineTransactionResult<Address>)
    ensures
        match r {
            Ok(decoded) => address_decoding(address@) == Ok::<Seq<u8>, Seq<char>>(
                decoded.script_pubkey@,
            ),
            Err(e) => address_decoding(address@) matches Err(reason) && e@ == parse_error(
                "string"@,
                "Address"@,
                reason,
            ),
        },
{
    match parse_address(address) {
        Ok(script_pubkey) => Ok(Address { script_pubkey }),
        Err(reason) => Err(new_parse_error("string", "Address", reason)),
    }
}

} // verus!
