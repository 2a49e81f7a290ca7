//! Assembly of attestation records from validated inputs, computed metrics
//! and identity commitments. Each assembly either yields the whole record or
//! fails with the first broken invariant; nothing partial comes out.

use vstd::prelude::*;
use vstd::utf8::encode_utf8;
use crate::codec::{AttestationRecord, OwnerField, OwnerModel, RecordModel};
use crate::commitment::{compute_org_hash, hash_identity, sha256_of};
use crate::hex_text::{hex_decoded, hex_valid, strip_0x};
use crate::metrics::{
    collateral_ratio, collateral_value_spec, liquidation_threshold, liquidation_threshold_spec,
    loan_to_value, loan_to_value_spec, ratio_spec,
};
use crate::model::{BtcHoldingsInput, CollateralMetricsInput, DogeTxInput, Utxo};
use crate::validate::{
    check_recipient, check_signature, check_utxo, parse_owner_address, ValidationError,
    PUBKEY_LEN, SIGNATURE_LEN,
};

verus! {

/// The sum of the amounts of `utxos`, in order.
pub open spec fn amount_total(utxos: Seq<Utxo>) -> int
    decreases utxos.len(),
{
    if utxos.len() == 0 {
        0
    } else {
        amount_total(utxos.drop_last()) + utxos.last().amount
    }
}

/// Every public key and every signature has its fixed length.
pub open spec fn holdings_fields_well_formed(input: BtcHoldingsInput) -> bool {
    &&& forall|i: int|
        0 <= i < input.utxos@.len() ==> (#[trigger] input.utxos@[i]).pubkey@.len() == PUBKEY_LEN
    &&& forall|i: int|
        0 <= i < input.signatures@.len() ==> (#[trigger] input.signatures@[i]).sig@.len()
            == SIGNATURE_LEN
}

/// Why a holdings input is refused, if it is.
pub open spec fn holdings_error(input: BtcHoldingsInput) -> Option<ValidationError> {
    if !holdings_fields_well_formed(input) {
        Some(ValidationError::MalformedField)
    } else if amount_total(input.utxos@) != input.expected_total {
        Some(ValidationError::TotalMismatch)
    } else {
        None
    }
}

/// The holdings record of an accepted input: the total stands in each
/// amount slot, and the organisation is committed to by its digest.
pub open spec fn holdings_record(input: BtcHoldingsInput) -> RecordModel {
    RecordModel::Holdings {
        total_btc: input.expected_total,
        total_put_value: input.expected_total,
        total_call_value: input.expected_total,
        org_hash: sha256_of(encode_utf8(input.org_id@)),
    }
}

proof fn lemma_total_prefix(utxos: Seq<Utxo>, i: int)
    requires
        0 <= i < utxos.len(),
    ensures
        amount_total(utxos.subrange(0, i + 1)) == amount_total(utxos.subrange(0, i))
            + utxos[i].amount,
{
    assert(utxos.subrange(0, i + 1).drop_last() =~= utxos.subrange(0, i));
}

proof fn lemma_total_prefix_bound(utxos: Seq<Utxo>, i: int)
    requires
        0 <= i <= utxos.len(),
    ensures
        amount_total(utxos.subrange(0, i)) <= amount_total(utxos),
    decreases utxos.len() - i,
{
    if i < utxos.len() {
        lemma_total_prefix(utxos, i);
        lemma_total_prefix_bound(utxos, i + 1);
    } else {
        assert(utxos.subrange(0, i) =~= utxos);
    }
}

/// The checked sum of the amounts; it fails with `ArithmeticOverflow` exactly
/// when the sum leaves the 64-bit range.
pub fn sum_amounts(utxos: &Vec<Utxo>) -> (r: Result<u64, ValidationError>)
    ensures
        r is Ok <==> amount_total(utxos@) <= u64::MAX,
        r matches Ok(t) ==> t == amount_total(utxos@),
        r matches Err(e) ==> e == ValidationError::ArithmeticOverflow,
{
    let mut total: u64 = 0;
    let mut i: usize = 0;
    assert(utxos@.subrange(0, 0) =~= Seq::<Utxo>::empty());
    while i < utxos.len()
        invariant
            i <= utxos@.len(),
            total == amount_total(utxos@.subrange(0, i as int)),
        decreases utxos@.len() - i,
    {
        proof {
            lemma_total_prefix(utxos@, i as int);
        }
        match total.checked_add(utxos[i].amount) {
            Some(t) => {
                total = t;
            },
            None => {
                proof {
                    lemma_total_prefix_bound(utxos@, i + 1);
                }
                return Err(ValidationError::ArithmeticOverflow);
            },
        }
        i = i + 1;
    }
    assert(utxos@.subrange(0, i as int) =~= utxos@);
    Ok(total)
}

/// Builds the holdings record: every key and signature must have its fixed
/// length (`MalformedField`), and the amounts must add up, with checked
/// addition, to the declared total (`TotalMismatch`, also when the sum
/// overflows).
pub fn assemble_holdings(input: &BtcHoldingsInput) -> (r: Result<AttestationRecord, ValidationError>)
    ensures
        r is Err <==> holdings_error(*input) is Some,
        r matches Err(e) ==> holdings_error(*input) == Some(e),
        r matches Ok(rec) ==> rec@ == holdings_record(*input),
{
    let mut i: usize = 0;
    while i < input.utxos.len()
        invariant
            i <= input.utxos@.len(),
            forall|j: int| 0 <= j < i ==> (#[trigger] input.utxos@[j]).pubkey@.len() == PUBKEY_LEN,
        decreases input.utxos@.len() - i,
    {
        if check_utxo(&input.utxos[i]).is_err() {
            return Err(ValidationError::MalformedField);
        }
        i = i + 1;
    }
    let mut k: usize = 0;
    while k < input.signatures.len()
        invariant
            k <= input.signatures@.len(),
            forall|j: int| 0 <= j < i ==> (#[trigger] input.utxos@[j]).pubkey@.len() == PUBKEY_LEN,
            i == input.utxos@.len(),
            forall|j: int|
                0 <= j < k ==> (#[trigger] input.signatures@[j]).sig@.len() == SIGNATURE_LEN,
        decreases input.signatures@.len() - k,
    {
        if check_signature(&input.signatures[k]).is_err() {
            return Err(ValidationError::MalformedField);
        }
        k = k + 1;
    }
    match sum_amounts(&input.utxos) {
        Ok(total) => {
            if total != input.expected_total {
                return Err(ValidationError::TotalMismatch);
            }
            Ok(
                AttestationRecord::Holdings {
                    total_btc: total,
                    total_put_value: total,
                    total_call_value: total,
                    org_hash: compute_org_hash(input.org_id.as_str()),
                },
            )
        },
        Err(_) => Err(ValidationError::TotalMismatch),
    }
}

/// With well-formed keys and signatures, a holdings input is accepted
/// exactly when its amounts add up to the declared total.
pub proof fn lemma_holdings_conservation(input: BtcHoldingsInput)
    requires
        holdings_fields_well_formed(input),
    ensures
        holdings_error(input) is None <==> amount_total(input.utxos@) == input.expected_total,
{
}

proof fn lemma_total_single_change(a: Seq<Utxo>, b: Seq<Utxo>, i: int)
    requires
        a.len() == b.len(),
        0 <= i < a.len(),
        forall|j: int| 0 <= j < a.len() && j != i ==> (#[trigger] a[j]).amount == b[j].amount,
    ensures
        amount_total(a) - a[i].amount == amount_total(b) - b[i].amount,
    decreases a.len(),
{
    if i == a.len() - 1 {
        lemma_total_same_amounts(a.drop_last(), b.drop_last());
    } else {
        lemma_total_single_change(a.drop_last(), b.drop_last(), i);
    }
}

proof fn lemma_total_same_amounts(a: Seq<Utxo>, b: Seq<Utxo>)
    requires
        a.len() == b.len(),
        forall|j: int| 0 <= j < a.len() ==> (#[trigger] a[j]).amount == b[j].amount,
    ensures
        amount_total(a) == amount_total(b),
    decreases a.len(),
{
    if a.len() > 0 {
        lemma_total_same_amounts(a.drop_last(), b.drop_last());
    }
}

/// Altering the amount of any single UTXO of an accepted holdings input,
/// and nothing else that the totals depend on, gets the input rejected;
/// with well-formed fields the rejection is `TotalMismatch`.
pub proof fn lemma_altered_amount_rejected(a: BtcHoldingsInput, b: BtcHoldingsInput, i: int)
    requires
        holdings_error(a) is None,
        b.expected_total == a.expected_total,
        b.utxos@.len() == a.utxos@.len(),
        0 <= i < a.utxos@.len(),
        forall|j: int|
            0 <= j < a.utxos@.len() && j != i ==> (#[trigger] b.utxos@[j]).amount
                == a.utxos@[j].amount,
        b.utxos@[i].amount != a.utxos@[i].amount,
    ensures
        holdings_error(b) is Some,
        holdings_fields_well_formed(b) ==> holdings_error(b) == Some(
            ValidationError::TotalMismatch,
        ),
{
    lemma_total_single_change(a.utxos@, b.utxos@, i);
}

/// How the owner of a transaction attestation enters the record.
#[derive(Clone, Copy, Debug, PartialEq, Eq, Structural)]
pub enum OwnerMode {
    /// As the digest of the owner text.
    Hashed,
    /// As the account address that the owner text spells in hex.
    Address,
}

/// The owner text spells an account address.
pub open spec fn owner_address_valid(owner: Seq<char>) -> bool {
    hex_valid(strip_0x(encode_utf8(owner))) && strip_0x(encode_utf8(owner)).len() == 40
}

/// Why a transaction input is refused, if it is: first the recipient, then
/// the owner address where the mode asks for one.
pub open spec fn transaction_error(input: DogeTxInput, expected_recipient: Seq<char>, mode: OwnerMode) -> Option<
    ValidationError,
> {
    if input.recipient_address@ != expected_recipient {
        Some(ValidationError::RecipientMismatch)
    } else if mode == OwnerMode::Address && !owner_address_valid(input.owner_address@) {
        Some(ValidationError::MalformedField)
    } else {
        None
    }
}

/// The transaction record of an accepted input.
pub open spec fn transaction_record(input: DogeTxInput, mode: OwnerMode) -> RecordModel {
    RecordModel::Transaction {
        total_amount: input.amount,
        sender_hash: sha256_of(encode_utf8(input.sender_address@)),
        owner: match mode {
            OwnerMode::Hashed => OwnerModel::Hash(sha256_of(encode_utf8(input.owner_address@))),
            OwnerMode::Address => OwnerModel::Address(
                hex_decoded(strip_0x(encode_utf8(input.owner_address@))),
            ),
        },
        tx_hash: input.txid@,
    }
}

/// Builds a transaction record. The recipient must be exactly the expected
/// one; any difference, even of one character, is `RecipientMismatch` and
/// no record comes out. The sender is committed to by its digest, the owner
/// as `mode` says.
pub fn attest_transaction(input: &DogeTxInput, expected_recipient: &str, mode: OwnerMode) -> (r:
    Result<AttestationRecord, ValidationError>)
    ensures
        r is Err <==> transaction_error(*input, expected_recipient@, mode) is Some,
        r matches Err(e) ==> transaction_error(*input, expected_recipient@, mode) == Some(e),
        r matches Ok(rec) ==> rec@ == transaction_record(*input, mode),
        input.recipient_address@ != expected_recipient@ ==> r matches Err(
            ValidationError::RecipientMismatch,
        ),
{
    if check_recipient(input.recipient_address.as_str(), expected_recipient).is_err() {
        return Err(ValidationError::RecipientMismatch);
    }
    let owner = match mode {
        OwnerMode::Hashed => OwnerField::Hash(hash_identity(input.owner_address.as_str().as_bytes())),
        OwnerMode::Address => match parse_owner_address(input.owner_address.as_str()) {
            Ok(a) => OwnerField::Address(a),
            Err(e) => {
                return Err(e);
            },
        },
    };
    Ok(
        AttestationRecord::Transaction {
            total_amount: input.amount,
            sender_hash: hash_identity(input.sender_address.as_str().as_bytes()),
            owner,
            tx_hash: input.txid,
        },
    )
}

/// The three metric records of a collateral position: the ratio with the
/// collateral's value, the liquidation threshold, and the loan-to-value.
pub fn attest_metrics(input: &CollateralMetricsInput) -> (r: (
    AttestationRecord,
    AttestationRecord,
    AttestationRecord,
))
    ensures
        r.0@ == (RecordModel::CollateralMetrics {
            icr: ratio_spec(input.collateral_units, input.debt_units, input.price_units) as u32,
            collateral_usd: collateral_value_spec(input.collateral_units, input.price_units) as u32,
        }),
        r.1@ == (RecordModel::Liquidation {
            liquidation_threshold: liquidation_threshold_spec(
                input.collateral_units,
                input.price_units,
                input.minimum_ratio,
            ) as u32,
        }),
        r.2@ == (RecordModel::LoanToValue {
            real_time_ltv: loan_to_value_spec(
                input.debt_units,
                input.collateral_units,
                input.price_units,
            ) as u32,
        }),
{
    let (icr, collateral_usd) = collateral_ratio(
        input.collateral_units,
        input.debt_units,
        input.price_units,
    );
    let threshold = liquidation_threshold(
        input.collateral_units,
        input.price_units,
        input.minimum_ratio,
    );
    let ltv = loan_to_value(input.debt_units, input.collateral_units, input.price_units);
    (
        AttestationRecord::CollateralMetrics { icr, collateral_usd },
        AttestationRecord::Liquidation { liquidation_threshold: threshold },
        AttestationRecord::LoanToValue { real_time_ltv: ltv },
    )
}

} // verus!
