//! Structural and trust-boundary checks on untrusted input.

use vstd::prelude::*;
use vstd::string::StringSliceAdditionalSpecFns;
use crate::bytes::read_array;
use crate::hex_text::{hex_decode, hex_decoded, hex_valid, parse_address, strip_0x};
use crate::model::{BtcSignature, Utxo};

verus! {

/// The first invariant that an input breaks.
#[derive(Clone, Copy, Debug, PartialEq, Eq, Structural)]
pub enum ValidationError {
    /// A fixed-length field has another length, or text does not spell it.
    MalformedField,
    /// A recipient is not the one configured.
    RecipientMismatch,
    /// The amounts do not add up to the declared total.
    TotalMismatch,
    /// A checked sum left the 64-bit range.
    ArithmeticOverflow,
}

/// Length of a compressed public key.
pub const PUBKEY_LEN: usize = 33;

/// Length of a signature.
pub const SIGNATURE_LEN: usize = 64;

/// Length of a transaction identifier.
pub const TXID_LEN: usize = 32;

/// Accepts a UTXO whose public key has the compressed-key length.
pub fn check_utxo(utxo: &Utxo) -> (r: Result<(), ValidationError>)
    ensures
        r is Ok <==> utxo.pubkey@.len() == PUBKEY_LEN,
        r matches Err(e) ==> e == ValidationError::MalformedField,
{
    if utxo.pubkey.len() == PUBKEY_LEN {
        Ok(())
    } else {
        Err(ValidationError::MalformedField)
    }
}

/// Accepts a signature of the signature length.
pub fn check_signature(signature: &BtcSignature) -> (r: Result<(), ValidationError>)
    ensures
        r is Ok <==> signature.sig@.len() == SIGNATURE_LEN,
        r matches Err(e) ==> e == ValidationError::MalformedField,
{
    if signature.sig.len() == SIGNATURE_LEN {
        Ok(())
    } else {
        Err(ValidationError::MalformedField)
    }
}

/// Whether two texts are equal, byte for byte.
pub fn text_eq(a: &str, b: &str) -> (r: bool)
    ensures
        r == (a@ == b@),
{
    let x = a.as_bytes();
    let y = b.as_bytes();
    proof {
        vstd::utf8::encode_utf8_decode_utf8(a@);
        vstd::utf8::encode_utf8_decode_utf8(b@);
    }
    if x.len() != y.len() {
        return false;
    }
    let mut i: usize = 0;
    while i < x.len()
        invariant
            x@ == a.spec_bytes(),
            y@ == b.spec_bytes(),
            x@.len() == y@.len(),
            i <= x@.len(),
            forall|j: int| 0 <= j < i ==> x@[j] == y@[j],
        decreases x@.len() - i,
    {
        if x[i] != y[i] {
            return false;
        }
        i = i + 1;
    }
    assert(x@ =~= y@);
    true
}

/// Accepts a claimed recipient only when it is exactly the expected one
/// (case-sensitive, byte for byte).
pub fn check_recipient(claimed: &str, expected: &str) -> (r: Result<(), ValidationError>)
    ensures
        r is Ok <==> claimed@ == expected@,
        r matches Err(e) ==> e == ValidationError::RecipientMismatch,
{
    if text_eq(claimed, expected) {
        Ok(())
    } else {
        Err(ValidationError::RecipientMismatch)
    }
}

/// The transaction identifier that hex text spells; it must spell exactly 32
/// bytes.
pub fn decode_tx_hash(text: &str) -> (r: Result<[u8; 32], ValidationError>)
    ensures
        r is Ok <==> (hex_valid(text.spec_bytes()) && text.spec_bytes().len() == 2 * TXID_LEN),
        r matches Ok(id) ==> id@ == hex_decoded(text.spec_bytes()),
        r matches Err(e) ==> e == ValidationError::MalformedField,
{
    match hex_decode(text) {
        Some(bytes) => {
            if bytes.len() == TXID_LEN {
                let id: [u8; 32] = read_array(bytes.as_slice(), 0);
                assert(bytes@.subrange(0, 32) =~= bytes@);
                Ok(id)
            } else {
                Err(ValidationError::MalformedField)
            }
        },
        None => Err(ValidationError::MalformedField),
    }
}

/// The 20-byte account address that text spells: 40 hex digits, after an
/// optional `0x`.
pub fn parse_owner_address(text: &str) -> (r: Result<[u8; 20], ValidationError>)
    ensures
        r is Ok <==> (hex_valid(strip_0x(text.spec_bytes())) && strip_0x(text.spec_bytes()).len()
            == 40),
        r matches Ok(a) ==> a@ == hex_decoded(strip_0x(text.spec_bytes())),
        r matches Err(e) ==> e == ValidationError::MalformedField,
{
    match parse_address(text) {
        Some(a) => Ok(a),
        None => Err(ValidationError::MalformedField),
    }
}

} // verus!
