//! The protocol configuration snapshot: versioned limits, immutable for the
//! duration of one admission call.

use vstd::prelude::*;

verus! {

/// Limits in force for one protocol version. The caller resolves the bundle
/// for the version the transaction declares and hands it in read-only.
#[derive(Clone, Copy, PartialEq, Eq, Structural, Debug)]
pub struct ProtocolConfig {
    /// The protocol version these limits belong to.
    pub version: u64,
    /// Most inputs one transaction may declare; receiving references count
    /// toward the same limit on the signing path.
    pub max_input_objects: u64,
    /// Most gas coins one transaction may pay with.
    pub max_gas_payment_objects: u64,
    /// Most modules one publication may carry.
    pub max_modules_in_publish: u64,
    /// Ceiling on a transaction's declared gas budget.
    pub max_tx_gas: u64,
    /// Floor on a transaction's declared gas budget.
    pub min_tx_gas: u64,
    /// Ceiling on a transaction's declared gas price.
    pub max_gas_price: u64,
    /// Shared deterministic budget, in meter units, for verifying all
    /// modules one transaction publishes.
    pub max_verifier_meter_units: u64,
}

} // verus!
