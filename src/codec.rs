//! Attestation records and their canonical byte layout.
//!
//! Every integer is written big-endian at the width of its field, fields
//! follow one another with no separators, and every variant but the balance
//! one has a fixed length. Decoding is told which kind of record to expect
//! and accepts exactly the byte strings that encoding produces for it.

use vstd::prelude::*;
use vstd::utf8::{decode_utf8, encode_utf8, valid_utf8};
use crate::bytes::{
    be_bytes, be_value, lemma_be_fixed, lemma_be_fixed_value, push_all, push_be, read_array,
    read_be,
};

verus! {

/// The owner slot of a transaction record.
#[derive(Clone, Copy, Debug, PartialEq, Eq)]
pub enum OwnerField {
    /// A commitment to the owner's identity.
    Hash([u8; 32]),
    /// A 20-byte account address, written in 32 bytes with zero padding
    /// after it.
    Address([u8; 20]),
}

/// One attestation record, in the variant of its kind.
#[derive(Clone, Debug, PartialEq, Eq)]
pub enum AttestationRecord {
    CollateralMetrics { icr: u32, collateral_usd: u32 },
    Liquidation { liquidation_threshold: u32 },
    LoanToValue { real_time_ltv: u32 },
    Holdings {
        total_btc: u64,
        total_put_value: u64,
        total_call_value: u64,
        org_hash: [u8; 32],
    },
    Transaction { total_amount: u64, sender_hash: [u8; 32], owner: OwnerField, tx_hash: [u8; 32] },
    /// The caller-facing balance result; its address runs to the end of the
    /// bytes.
    Balance { total_amount: u64, address: String },
}

/// Which layout a byte string is read with.
#[derive(Clone, Copy, Debug, PartialEq, Eq, Structural)]
pub enum RecordKind {
    CollateralMetrics,
    Liquidation,
    LoanToValue,
    Holdings,
    TransactionHashedOwner,
    TransactionAddressOwner,
    Balance,
}

/// Why a byte string is not the encoding of a record of the expected kind.
#[derive(Clone, Copy, Debug, PartialEq, Eq, Structural)]
pub enum DecodeError {
    /// Shorter than the layout.
    Truncated,
    /// Longer than the layout.
    OverLength,
    /// Padding that must be zero is not.
    NonZeroPadding,
    /// The text field is not valid UTF-8.
    InvalidText,
}

/// The owner slot as plain values.
pub enum OwnerModel {
    Hash(Seq<u8>),
    Address(Seq<u8>),
}

/// A record as plain values.
pub enum RecordModel {
    CollateralMetrics { icr: u32, collateral_usd: u32 },
    Liquidation { liquidation_threshold: u32 },
    LoanToValue { real_time_ltv: u32 },
    Holdings {
        total_btc: u64,
        total_put_value: u64,
        total_call_value: u64,
        org_hash: Seq<u8>,
    },
    Transaction {
        total_amount: u64,
        sender_hash: Seq<u8>,
        owner: OwnerModel,
        tx_hash: Seq<u8>,
    },
    Balance { total_amount: u64, address: Seq<char> },
}

impl View for OwnerField {
    type V = OwnerModel;

    open spec fn view(&self) -> OwnerModel {
        match self {
            OwnerField::Hash(h) => OwnerModel::Hash(h@),
            OwnerField::Address(a) => OwnerModel::Address(a@),
        }
    }
}

impl View for AttestationRecord {
    type V = RecordModel;

    open spec fn view(&self) -> RecordModel {
        match self {
            AttestationRecord::CollateralMetrics { icr, collateral_usd } => RecordModel::CollateralMetrics {
                icr: *icr,
                collateral_usd: *collateral_usd,
            },
            AttestationRecord::Liquidation { liquidation_threshold } => RecordModel::Liquidation {
                liquidation_threshold: *liquidation_threshold,
            },
            AttestationRecord::LoanToValue { real_time_ltv } => RecordModel::LoanToValue {
                real_time_ltv: *real_time_ltv,
            },
            AttestationRecord::Holdings { total_btc, total_put_value, total_call_value, org_hash } => {
                RecordModel::Holdings {
                    total_btc: *total_btc,
                    total_put_value: *total_put_value,
                    total_call_value: *total_call_value,
                    org_hash: org_hash@,
                }
            },
            AttestationRecord::Transaction { total_amount, sender_hash, owner, tx_hash } => {
                RecordModel::Transaction {
                    total_amount: *total_amount,
                    sender_hash: sender_hash@,
                    owner: owner@,
                    tx_hash: tx_hash@,
                }
            },
            AttestationRecord::Balance { total_amount, address } => RecordModel::Balance {
                total_amount: *total_amount,
                address: address@,
            },
        }
    }
}

/// `n` zero bytes.
pub open spec fn zeros(n: nat) -> Seq<u8> {
    Seq::new(n, |i: int| 0u8)
}

pub open spec fn kind_of(r: RecordModel) -> RecordKind {
    match r {
        RecordModel::CollateralMetrics { .. } => RecordKind::CollateralMetrics,
        RecordModel::Liquidation { .. } => RecordKind::Liquidation,
        RecordModel::LoanToValue { .. } => RecordKind::LoanToValue,
        RecordModel::Holdings { .. } => RecordKind::Holdings,
        RecordModel::Transaction { owner, .. } => match owner {
            OwnerModel::Hash(_) => RecordKind::TransactionHashedOwner,
            OwnerModel::Address(_) => RecordKind::TransactionAddressOwner,
        },
        RecordModel::Balance { .. } => RecordKind::Balance,
    }
}

/// The 32 bytes of the owner slot.
pub open spec fn owner_bytes(o: OwnerModel) -> Seq<u8> {
    match o {
        OwnerModel::Hash(h) => h,
        OwnerModel::Address(a) => a + zeros(12),
    }
}

/// The canonical bytes of a record.
pub open spec fn encoding(r: RecordModel) -> Seq<u8> {
    match r {
        RecordModel::CollateralMetrics { icr, collateral_usd } => be_bytes(icr as nat, 4) + be_bytes(
            collateral_usd as nat,
            4,
        ),
        RecordModel::Liquidation { liquidation_threshold } => be_bytes(
            liquidation_threshold as nat,
            4,
        ),
        RecordModel::LoanToValue { real_time_ltv } => be_bytes(real_time_ltv as nat, 4),
        RecordModel::Holdings { total_btc, total_put_value, total_call_value, org_hash } => be_bytes(
            total_btc as nat,
            8,
        ) + be_bytes(total_put_value as nat, 8) + be_bytes(total_call_value as nat, 8) + org_hash,
        RecordModel::Transaction { total_amount, sender_hash, owner, tx_hash } => be_bytes(
            total_amount as nat,
            8,
        ) + sender_hash + owner_bytes(owner) + tx_hash,
        RecordModel::Balance { total_amount, address } => be_bytes(total_amount as nat, 8)
            + encode_utf8(address),
    }
}

/// The length of every encoding of a fixed-length kind; for the balance
/// kind, the length of its fixed part.
pub open spec fn layout_len(k: RecordKind) -> nat {
    match k {
        RecordKind::CollateralMetrics => 8,
        RecordKind::Liquidation => 4,
        RecordKind::LoanToValue => 4,
        RecordKind::Holdings => 56,
        RecordKind::TransactionHashedOwner => 104,
        RecordKind::TransactionAddressOwner => 104,
        RecordKind::Balance => 8,
    }
}

pub open spec fn field_u32(b: Seq<u8>, at: int) -> u32 {
    be_value(b.subrange(at, at + 4)) as u32
}

pub open spec fn field_u64(b: Seq<u8>, at: int) -> u64 {
    be_value(b.subrange(at, at + 8)) as u64
}

/// What decoding `b` as a record of kind `k` gives.
pub open spec fn decode_spec(k: RecordKind, b: Seq<u8>) -> Result<RecordModel, DecodeError> {
    if b.len() < layout_len(k) {
        Err(DecodeError::Truncated)
    } else if k != RecordKind::Balance && b.len() > layout_len(k) {
        Err(DecodeError::OverLength)
    } else {
        match k {
            RecordKind::CollateralMetrics => Ok(
                RecordModel::CollateralMetrics { icr: field_u32(b, 0), collateral_usd: field_u32(b, 4) },
            ),
            RecordKind::Liquidation => Ok(
                RecordModel::Liquidation { liquidation_threshold: field_u32(b, 0) },
            ),
            RecordKind::LoanToValue => Ok(RecordModel::LoanToValue { real_time_ltv: field_u32(b, 0) }),
            RecordKind::Holdings => Ok(
                RecordModel::Holdings {
                    total_btc: field_u64(b, 0),
                    total_put_value: field_u64(b, 8),
                    total_call_value: field_u64(b, 16),
                    org_hash: b.subrange(24, 56),
                },
            ),
            RecordKind::TransactionHashedOwner => Ok(
                RecordModel::Transaction {
                    total_amount: field_u64(b, 0),
                    sender_hash: b.subrange(8, 40),
                    owner: OwnerModel::Hash(b.subrange(40, 72)),
                    tx_hash: b.subrange(72, 104),
                },
            ),
            RecordKind::TransactionAddressOwner => if b.subrange(60, 72) != zeros(12) {
                Err(DecodeError::NonZeroPadding)
            } else {
                Ok(
                    RecordModel::Transaction {
                        total_amount: field_u64(b, 0),
                        sender_hash: b.subrange(8, 40),
                        owner: OwnerModel::Address(b.subrange(40, 60)),
                        tx_hash: b.subrange(72, 104),
                    },
                )
            },
            RecordKind::Balance => {
                let text = b.subrange(8, b.len() as int);
                if !valid_utf8(text) {
                    Err(DecodeError::InvalidText)
                } else {
                    Ok(
                        RecordModel::Balance {
                            total_amount: field_u64(b, 0),
                            address: decode_utf8(text),
                        },
                    )
                }
            },
        }
    }
}

impl AttestationRecord {
    /// The kind whose layout this record is written in.
    pub fn kind(&self) -> (k: RecordKind)
        ensures
            k == kind_of(self@),
    {
        match self {
            AttestationRecord::CollateralMetrics { .. } => RecordKind::CollateralMetrics,
            AttestationRecord::Liquidation { .. } => RecordKind::Liquidation,
            AttestationRecord::LoanToValue { .. } => RecordKind::LoanToValue,
            AttestationRecord::Holdings { .. } => RecordKind::Holdings,
            AttestationRecord::Transaction { owner: OwnerField::Hash(_), .. } => {
                RecordKind::TransactionHashedOwner
            },
            AttestationRecord::Transaction { owner: OwnerField::Address(_), .. } => {
                RecordKind::TransactionAddressOwner
            },
            AttestationRecord::Balance { .. } => RecordKind::Balance,
        }
    }
}

/// Relies on `String::from_utf8`: the text that `bytes` encode, when they are
/// valid UTF-8, and nothing otherwise.
#[verifier::external_body]
fn text_from_utf8(bytes: Vec<u8>) -> (r: Option<String>)
    ensures
        r is Some <==> valid_utf8(bytes@),
        r matches Some(s) ==> s@ == decode_utf8(bytes@),
{
    String::from_utf8(bytes).ok()
}

/// Appends `n` zero bytes.
fn push_zeros(out: &mut Vec<u8>, n: usize)
    ensures
        final(out)@ == old(out)@ + zeros(n as nat),
{
    let mut i: usize = 0;
    while i < n
        invariant
            i <= n,
            out@ == old(out)@ + zeros(i as nat),
        decreases n - i,
    {
        out.push(0u8);
        i = i + 1;
        assert(out@ =~= old(out)@ + zeros(i as nat));
    }
}

/// The canonical bytes of `record`. Encoding never fails.
pub fn encode(record: &AttestationRecord) -> (r: Vec<u8>)
    ensures
        r@ == encoding(record@),
{
    let mut out: Vec<u8> = Vec::new();
    match record {
        AttestationRecord::CollateralMetrics { icr, collateral_usd } => {
            push_be(&mut out, *icr as u64, 4);
            push_be(&mut out, *collateral_usd as u64, 4);
        },
        AttestationRecord::Liquidation { liquidation_threshold } => {
            push_be(&mut out, *liquidation_threshold as u64, 4);
        },
        AttestationRecord::LoanToValue { real_time_ltv } => {
            push_be(&mut out, *real_time_ltv as u64, 4);
        },
        AttestationRecord::Holdings { total_btc, total_put_value, total_call_value, org_hash } => {
            push_be(&mut out, *total_btc, 8);
            push_be(&mut out, *total_put_value, 8);
            push_be(&mut out, *total_call_value, 8);
            push_all(&mut out, org_hash);
        },
        AttestationRecord::Transaction { total_amount, sender_hash, owner, tx_hash } => {
            push_be(&mut out, *total_amount, 8);
            push_all(&mut out, sender_hash);
            match owner {
                OwnerField::Hash(h) => {
                    push_all(&mut out, h);
                },
                OwnerField::Address(a) => {
                    push_all(&mut out, a);
                    push_zeros(&mut out, 12);
                },
            }
            push_all(&mut out, tx_hash);
        },
        AttestationRecord::Balance { total_amount, address } => {
            push_be(&mut out, *total_amount, 8);
            push_all(&mut out, address.as_str().as_bytes());
        },
    }
    assert(out@ =~= encoding(record@));
    out
}

/// The canonical bytes of three records, one after the other: the form in
/// which the metric records of one position are handed over together.
pub fn encode_metrics(
    ratio: &AttestationRecord,
    threshold: &AttestationRecord,
    ltv: &AttestationRecord,
) -> (r: Vec<u8>)
    ensures
        r@ == encoding(ratio@) + encoding(threshold@) + encoding(ltv@),
{
    let mut out = encode(ratio);
    let mut second = encode(threshold);
    let mut third = encode(ltv);
    out.append(&mut second);
    out.append(&mut third);
    out
}

/// Whether `b[start..start + n]` is all zero.
fn all_zero(b: &[u8], start: usize, n: usize) -> (r: bool)
    requires
        start + n <= b@.len(),
    ensures
        r == (b@.subrange(start as int, start + n) == zeros(n as nat)),
{
    let len = b.len();
    let mut i: usize = 0;
    while i < n
        invariant
            i <= n,
            start + n <= b@.len() == len,
            forall|j: int| start <= j < start + i ==> b@[j] == 0,
        decreases n - i,
    {
        if b[start + i] != 0 {
            assert(b@.subrange(start as int, start + n)[i as int] != zeros(n as nat)[i as int]);
            return false;
        }
        i = i + 1;
    }
    assert(b@.subrange(start as int, start + n) =~= zeros(n as nat));
    true
}

/// Reads `bytes` as a record of kind `kind`. It succeeds exactly on the
/// encodings of records of that kind (see `lemma_decode_canonical` and
/// `lemma_round_trip`).
pub fn decode(kind: RecordKind, bytes: &[u8]) -> (r: Result<AttestationRecord, DecodeError>)
    ensures
        r matches Ok(rec) ==> decode_spec(kind, bytes@) == Ok::<RecordModel, DecodeError>(rec@),
        r matches Err(e) ==> decode_spec(kind, bytes@) == Err::<RecordModel, DecodeError>(e),
{
    let len = bytes.len();
    let need: usize = match kind {
        RecordKind::CollateralMetrics => 8,
        RecordKind::Liquidation => 4,
        RecordKind::LoanToValue => 4,
        RecordKind::Holdings => 56,
        RecordKind::TransactionHashedOwner => 104,
        RecordKind::TransactionAddressOwner => 104,
        RecordKind::Balance => 8,
    };
    if len < need {
        return Err(DecodeError::Truncated);
    }
    if kind != RecordKind::Balance && len > need {
        return Err(DecodeError::OverLength);
    }
    match kind {
        RecordKind::CollateralMetrics => Ok(
            AttestationRecord::CollateralMetrics {
                icr: read_be(bytes, 0, 4) as u32,
                collateral_usd: read_be(bytes, 4, 4) as u32,
            },
        ),
        RecordKind::Liquidation => Ok(
            AttestationRecord::Liquidation { liquidation_threshold: read_be(bytes, 0, 4) as u32 },
        ),
        RecordKind::LoanToValue => Ok(
            AttestationRecord::LoanToValue { real_time_ltv: read_be(bytes, 0, 4) as u32 },
        ),
        RecordKind::Holdings => Ok(
            AttestationRecord::Holdings {
                total_btc: read_be(bytes, 0, 8),
                total_put_value: read_be(bytes, 8, 8),
                total_call_value: read_be(bytes, 16, 8),
                org_hash: read_array(bytes, 24),
            },
        ),
        RecordKind::TransactionHashedOwner => Ok(
            AttestationRecord::Transaction {
                total_amount: read_be(bytes, 0, 8),
                sender_hash: read_array(bytes, 8),
                owner: OwnerField::Hash(read_array(bytes, 40)),
                tx_hash: read_array(bytes, 72),
            },
        ),
        RecordKind::TransactionAddressOwner => {
            if !all_zero(bytes, 60, 12) {
                return Err(DecodeError::NonZeroPadding);
            }
            Ok(
                AttestationRecord::Transaction {
                    total_amount: read_be(bytes, 0, 8),
                    sender_hash: read_array(bytes, 8),
                    owner: OwnerField::Address(read_array(bytes, 40)),
                    tx_hash: read_array(bytes, 72),
                },
            )
        },
        RecordKind::Balance => {
            let mut text: Vec<u8> = Vec::new();
            let mut i: usize = 8;
            while i < len
                invariant
                    8 <= i <= len == bytes@.len(),
                    text@ == bytes@.subrange(8, i as int),
                decreases len - i,
            {
                text.push(bytes[i]);
                i = i + 1;
                assert(text@ =~= bytes@.subrange(8, i as int));
            }
            match text_from_utf8(text) {
                Some(address) => Ok(
                    AttestationRecord::Balance { total_amount: read_be(bytes, 0, 8), address },
                ),
                None => Err(DecodeError::InvalidText),
            }
        },
    }
}

/// Decoding the encoding of any record, as a record of its own kind, gives
/// the record back.
pub proof fn lemma_round_trip(r: AttestationRecord)
    ensures
        decode_spec(kind_of(r@), encoding(r@)) == Ok::<RecordModel, DecodeError>(r@),
{
    let b = encoding(r@);
    match r {
        AttestationRecord::CollateralMetrics { icr, collateral_usd } => {
            lemma_be_fixed(icr as nat, 4);
            lemma_be_fixed(collateral_usd as nat, 4);
            assert(b.subrange(0, 4) =~= be_bytes(icr as nat, 4));
            assert(b.subrange(4, 8) =~= be_bytes(collateral_usd as nat, 4));
        },
        AttestationRecord::Liquidation { liquidation_threshold } => {
            lemma_be_fixed(liquidation_threshold as nat, 4);
            assert(b.subrange(0, 4) =~= b);
        },
        AttestationRecord::LoanToValue { real_time_ltv } => {
            lemma_be_fixed(real_time_ltv as nat, 4);
            assert(b.subrange(0, 4) =~= b);
        },
        AttestationRecord::Holdings { total_btc, total_put_value, total_call_value, org_hash } => {
            lemma_be_fixed(total_btc as nat, 8);
            lemma_be_fixed(total_put_value as nat, 8);
            lemma_be_fixed(total_call_value as nat, 8);
            assert(b.subrange(0, 8) =~= be_bytes(total_btc as nat, 8));
            assert(b.subrange(8, 16) =~= be_bytes(total_put_value as nat, 8));
            assert(b.subrange(16, 24) =~= be_bytes(total_call_value as nat, 8));
            assert(b.subrange(24, 56) =~= org_hash@);
        },
        AttestationRecord::Transaction { total_amount, sender_hash, owner, tx_hash } => {
            lemma_be_fixed(total_amount as nat, 8);
            assert(b.subrange(0, 8) =~= be_bytes(total_amount as nat, 8));
            assert(b.subrange(8, 40) =~= sender_hash@);
            assert(b.subrange(72, 104) =~= tx_hash@);
            match owner {
                OwnerField::Hash(h) => {
                    assert(b.subrange(40, 72) =~= h@);
                },
                OwnerField::Address(a) => {
                    assert(b.subrange(40, 60) =~= a@);
                    assert(b.subrange(60, 72) =~= zeros(12));
                },
            }
        },
        AttestationRecord::Balance { total_amount, address } => {
            lemma_be_fixed(total_amount as nat, 8);
            assert(b.subrange(0, 8) =~= be_bytes(total_amount as nat, 8));
            assert(b.subrange(8, b.len() as int) =~= encode_utf8(address@));
            vstd::utf8::encode_utf8_valid_utf8(address@);
            vstd::utf8::encode_utf8_decode_utf8(address@);
        },
    }
}

/// Decoding accepts only canonical bytes: whatever it accepts as a record of
/// kind `k` is a record of that kind whose encoding is exactly those bytes.
/// So truncated, over-long or wrongly padded input is refused.
pub proof fn lemma_decode_canonical(k: RecordKind, b: Seq<u8>)
    ensures
        decode_spec(k, b) matches Ok(m) ==> kind_of(m) == k && encoding(m) == b,
{
    if let Ok(m) = decode_spec(k, b) {
        match k {
            RecordKind::CollateralMetrics => {
                lemma_be_fixed_value(b.subrange(0, 4));
                lemma_be_fixed_value(b.subrange(4, 8));
                assert(encoding(m) =~= b);
            },
            RecordKind::Liquidation | RecordKind::LoanToValue => {
                lemma_be_fixed_value(b.subrange(0, 4));
                assert(encoding(m) =~= b);
            },
            RecordKind::Holdings => {
                lemma_be_fixed_value(b.subrange(0, 8));
                lemma_be_fixed_value(b.subrange(8, 16));
                lemma_be_fixed_value(b.subrange(16, 24));
                assert(encoding(m) =~= b);
            },
            RecordKind::TransactionHashedOwner | RecordKind::TransactionAddressOwner => {
                lemma_be_fixed_value(b.subrange(0, 8));
                assert(encoding(m) =~= b);
            },
            RecordKind::Balance => {
                let text = b.subrange(8, b.len() as int);
                lemma_be_fixed_value(b.subrange(0, 8));
                vstd::utf8::decode_utf8_encode_utf8(text);
                assert(encoding(m) =~= b);
            },
        }
    }
}

} // verus!
