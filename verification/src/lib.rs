//! Offline assembly and signing of a single Bitcoin transaction.
//!
//! A signing request names the outputs to spend, the payments to make, the address for
//! the change, the signing key and the fee rate. Assembly turns it into an unsigned
//! transaction; signing writes the unlocking data of every input; the signed transaction
//! is handed out as hexadecimal text.

pub mod errors;
pub mod keys;
pub mod primitives;
pub mod script;
pub mod signing_service;
pub mod transaction;
pub mod types;
pub mod utils;

use vstd::prelude::*;
use crate::errors::{ErrorView, OfflineTransactionError, OfflineTransactionResult};
use crate::primitives::{lowercase_text, to_lowercase, trim, trimmed_text};
use crate::types::bitcoin::{BitcoinTransactionData, SigningRequest};

verus! {

/// A signing request for one of the supported networks.
pub enum Platform {
    /// A request for the Bitcoin network.
    Bitcoin(BitcoinTransactionData),
}

/// Whether a network name is that of the one supported network. Case and surrounding
/// white space do not count.
pub open spec fn is_supported_network(network: Seq<char>) -> bool {
    trimmed_text(lowercase_text(network)) == "bitcoin"@
}

/// The error for a network that is not supported.
pub open spec fn unsupported_network_error(network: Seq<char>) -> ErrorView {
    ErrorView::UnsupportedError { component: "network"@, input: network, expected: "bitcoin"@ }
}

impl Platform {
    /// Accepts the name of the supported network and refuses every other.
    pub fn check_network(network: &str) -> (r: OfflineTransactionResult<()>)
        ensures
            match r {
                Ok(()) => is_supported_network(network@),
                Err(e) => !is_supported_network(network@) && e@ == unsupported_network_error(
                    network@,
                ),
            },
    {
        let lower = to_lowercase(network);
        let name = trim(lower.as_str()).to_owned();
        if name == "bitcoin".to_owned() {
            Ok(())
        } else {
            Err(
                OfflineTransactionError::UnsupportedError {
                    component: "network".to_owned(),
                    input: network.to_owned(),
                    expected: "bitcoin".to_owned(),
                },
            )
        }
    }

    /// The request that the platform holds.
    pub open spec fn request(&self) -> SigningRequest {
        match self {
            Platform::Bitcoin(params) => params@,
        }
    }
}

} // verus!
