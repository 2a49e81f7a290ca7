//! The inputs that attestations are made from.

use vstd::prelude::*;

verus! {

/// An unspent output: its transaction, its index there, its amount in the
/// smallest unit, and the owner's compressed public key (33 bytes when well
/// formed).
#[derive(Clone, Debug, PartialEq, Eq)]
pub struct Utxo {
    pub txid: [u8; 32],
    pub index: u32,
    pub amount: u64,
    pub pubkey: Vec<u8>,
}

/// A signature over a holding (64 bytes when well formed).
#[derive(Clone, Debug, PartialEq, Eq)]
pub struct BtcSignature {
    pub sig: Vec<u8>,
}

/// The facts behind a holdings attestation. The call and put values carry
/// amounts derived elsewhere and are passed through as text.
#[derive(Clone, Debug, PartialEq, Eq)]
pub struct BtcHoldingsInput {
    pub utxos: Vec<Utxo>,
    pub signatures: Vec<BtcSignature>,
    pub expected_total: u64,
    pub org_id: String,
    pub total_call_value: String,
    pub total_put_value: String,
}

/// The facts behind a transaction attestation.
#[derive(Clone, Debug, PartialEq, Eq)]
pub struct DogeTxInput {
    pub txid: [u8; 32],
    pub recipient_address: String,
    pub sender_address: String,
    pub owner_address: String,
    pub amount: u64,
}

/// The facts behind the collateral metrics, in whole units.
#[derive(Clone, Copy, Debug, PartialEq, Eq, Structural)]
pub struct CollateralMetricsInput {
    pub collateral_units: u32,
    pub debt_units: u32,
    pub price_units: u32,
    pub minimum_ratio: u32,
}

} // verus!
