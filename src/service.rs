//! The decisions of the proof service around the core: request checks,
//! what a fetched transaction pays to the expected recipient, the inputs
//! handed to the prover, and the responses built from what it commits.

use vstd::prelude::*;
use vstd::string::{StringExecFns, StringSliceAdditionalSpecFns};
use vstd::utf8::encode_utf8;
use crate::codec::{decode, decode_spec, AttestationRecord, DecodeError, RecordKind, RecordModel};
use crate::decimal::{decimal_form, digits_of, digits_value, parse_u64};
use crate::hex_text::{hex_decoded, hex_encode, hex_lower, hex_valid};
use crate::metrics::{
    collateral_ratio, liquidation_threshold, liquidation_threshold_spec, loan_to_value,
    loan_to_value_spec, ratio_spec,
};
use crate::model::DogeTxInput;
use crate::validate::{decode_tx_hash, text_eq, ValidationError, TXID_LEN};

verus! {

/// A request for a transaction attestation on the Dogecoin chain.
#[derive(Clone, Debug, PartialEq, Eq)]
pub struct DogeTxRequest {
    pub owner_address: String,
    pub tx_hash: String,
    pub proof_system: String,
}

/// A request for an XRP balance attestation.
#[derive(Clone, Debug, PartialEq, Eq)]
pub struct XrpBalanceRequest {
    pub address: String,
    pub proof_system: String,
}

/// A request for an XRP transaction attestation.
#[derive(Clone, Debug, PartialEq, Eq)]
pub struct XrpTxRequest {
    pub owner_address: String,
    pub tx_hash: String,
    pub proof_system: String,
}

/// The answer to a Dogecoin transaction request.
#[derive(Clone, Debug, PartialEq, Eq)]
pub struct DogeTxResponse {
    pub total_doge: u64,
    pub sender_address: String,
    pub owner_address: String,
    pub tx_hash: String,
    pub vkey: String,
    pub public_values: String,
    pub proof: String,
}

/// The answer to an XRP balance request.
#[derive(Clone, Debug, PartialEq, Eq)]
pub struct XrpBalanceResponse {
    pub total_xrp: u64,
    pub address: String,
    pub vkey: String,
    pub public_values: String,
    pub proof: String,
}

/// The answer to an XRP transaction request.
#[derive(Clone, Debug, PartialEq, Eq)]
pub struct XrpTxResponse {
    pub total_xrp: u64,
    pub sender_address: String,
    pub owner_address: String,
    pub tx_hash: String,
    pub vkey: String,
    pub public_values: String,
    pub proof: String,
}

/// A request for the collateral metrics.
#[derive(Clone, Copy, Debug, PartialEq, Eq, Structural)]
pub struct ProofRequest {
    pub n: u32,
    pub collateral_amount: u32,
    pub debt_amount: u32,
    pub usbd_loan: u32,
    pub btc_balance: u32,
}

/// The collateral metrics with the proof that backs them.
#[derive(Clone, Debug, PartialEq, Eq)]
pub struct ProofResponse {
    pub icr: u32,
    pub liquidation_threshold: u32,
    pub real_time_ltv: u32,
    pub proof_fixture: String,
}

/// The proof systems a request may ask for.
#[derive(Clone, Copy, Debug, PartialEq, Eq, Structural)]
pub enum ProofSystem {
    Groth16,
    Plonk,
}

/// Why a request is turned down before any proving.
#[derive(Clone, Copy, Debug, PartialEq, Eq, Structural)]
pub enum RequestError {
    /// The account address is not of the expected form.
    InvalidAddress,
    /// The proof system is neither `groth16` nor `plonk`.
    InvalidProofSystem,
    /// No output of the transaction pays the expected recipient.
    NoPaymentToRecipient,
    /// The transaction has no inputs.
    NoInputs,
    /// What the outputs pay the recipient does not fit in 64 bits.
    ArithmeticOverflow,
    /// The transaction names no sender.
    MissingSender,
    /// The transaction names no destination.
    MissingDestination,
    /// The destination is not the expected recipient.
    RecipientMismatch,
    /// The amount is text that is not an unsigned decimal.
    InvalidAmount,
    /// The transaction carries no amount.
    MissingAmount,
}

/// The proof system that text names, if any.
pub open spec fn proof_system_of(text: Seq<char>) -> Option<ProofSystem> {
    if text == "groth16"@ {
        Some(ProofSystem::Groth16)
    } else if text == "plonk"@ {
        Some(ProofSystem::Plonk)
    } else {
        None
    }
}

/// The proof system that `text` names: `groth16` or `plonk`, exactly.
pub fn parse_proof_system(text: &str) -> (r: Option<ProofSystem>)
    ensures
        r == proof_system_of(text@),
{
    if text_eq(text, "groth16") {
        Some(ProofSystem::Groth16)
    } else if text_eq(text, "plonk") {
        Some(ProofSystem::Plonk)
    } else {
        None
    }
}

/// The form of an XRP account address: it starts with `r` and is 25 to 34
/// bytes long.
pub open spec fn xrp_address_form(address: Seq<u8>) -> bool {
    25 <= address.len() <= 34 && address[0] == 114
}

/// Whether `address` has the form of an XRP account address.
pub fn xrp_address_well_formed(address: &str) -> (r: bool)
    ensures
        r == xrp_address_form(address.spec_bytes()),
{
    let b = address.as_bytes();
    b.len() >= 25 && b.len() <= 34 && b[0] == 114
}

/// What a balance request comes to: the address is checked first, then the
/// proof system.
pub open spec fn balance_request_outcome(address: Seq<char>, proof_system: Seq<char>) -> Result<
    ProofSystem,
    RequestError,
> {
    if !xrp_address_form(encode_utf8(address)) {
        Err(RequestError::InvalidAddress)
    } else {
        match proof_system_of(proof_system) {
            Some(p) => Ok(p),
            None => Err(RequestError::InvalidProofSystem),
        }
    }
}

/// Checks a balance request before anything is fetched.
pub fn check_balance_request(request: &XrpBalanceRequest) -> (r: Result<ProofSystem, RequestError>)
    ensures
        r == balance_request_outcome(request.address@, request.proof_system@),
{
    if !xrp_address_well_formed(request.address.as_str()) {
        return Err(RequestError::InvalidAddress);
    }
    match parse_proof_system(request.proof_system.as_str()) {
        Some(p) => Ok(p),
        None => Err(RequestError::InvalidProofSystem),
    }
}

/// One side of a fetched transaction: an address and the amount it sends or
/// receives.
#[derive(Clone, Debug, PartialEq, Eq)]
pub struct TxEntry {
    pub recipient: String,
    pub value: u64,
}

/// The sum of the values of the entries that name `recipient`.
pub open spec fn paid_to(entries: Seq<TxEntry>, recipient: Seq<char>) -> int
    decreases entries.len(),
{
    if entries.len() == 0 {
        0
    } else {
        paid_to(entries.drop_last(), recipient) + if entries.last().recipient@ == recipient {
            entries.last().value as int
        } else {
            0
        }
    }
}

proof fn lemma_paid_to_prefix_bound(entries: Seq<TxEntry>, recipient: Seq<char>, i: int)
    requires
        0 <= i <= entries.len(),
    ensures
        paid_to(entries.subrange(0, i), recipient) <= paid_to(entries, recipient),
    decreases entries.len() - i,
{
    if i < entries.len() {
        assert(entries.subrange(0, i + 1).drop_last() =~= entries.subrange(0, i));
        lemma_paid_to_prefix_bound(entries, recipient, i + 1);
    } else {
        assert(entries.subrange(0, i) =~= entries);
    }
}

/// What the outputs pay to `recipient`, with checked addition: a sum beyond
/// `u64::MAX` is `ArithmeticOverflow`, never a clamped amount.
pub fn received_total(outputs: &Vec<TxEntry>, recipient: &str) -> (r: Result<u64, RequestError>)
    ensures
        r is Ok <==> paid_to(outputs@, recipient@) <= u64::MAX,
        r matches Ok(t) ==> t == paid_to(outputs@, recipient@),
        r matches Err(e) ==> e == RequestError::ArithmeticOverflow,
{
    let mut total: u64 = 0;
    let mut i: usize = 0;
    assert(outputs@.subrange(0, 0) =~= Seq::<TxEntry>::empty());
    while i < outputs.len()
        invariant
            i <= outputs@.len(),
            total == paid_to(outputs@.subrange(0, i as int), recipient@),
        decreases outputs@.len() - i,
    {
        let ghost prefix = outputs@.subrange(0, i as int);
        assert(outputs@.subrange(0, i + 1).drop_last() =~= prefix);
        let entry = &outputs[i];
        if text_eq(entry.recipient.as_str(), recipient) {
            match total.checked_add(entry.value) {
                Some(t) => {
                    total = t;
                },
                None => {
                    proof {
                        lemma_paid_to_prefix_bound(outputs@, recipient@, i + 1);
                    }
                    return Err(RequestError::ArithmeticOverflow);
                },
            }
        }
        i = i + 1;
    }
    assert(outputs@.subrange(0, i as int) =~= outputs@);
    Ok(total)
}

/// What a fetched Dogecoin transaction comes to: the exact total that its
/// outputs pay the expected recipient, and its first input's address as the
/// sender.
pub open spec fn doge_payment_outcome(
    inputs: Seq<TxEntry>,
    outputs: Seq<TxEntry>,
    recipient: Seq<char>,
) -> Result<(u64, Seq<char>), RequestError> {
    if paid_to(outputs, recipient) > u64::MAX {
        Err(RequestError::ArithmeticOverflow)
    } else if paid_to(outputs, recipient) == 0 {
        Err(RequestError::NoPaymentToRecipient)
    } else if inputs.len() == 0 {
        Err(RequestError::NoInputs)
    } else {
        Ok((paid_to(outputs, recipient) as u64, inputs[0].recipient@))
    }
}

/// Sums what a Dogecoin transaction pays the expected recipient and names
/// its sender; a transaction that pays the recipient nothing, or more than
/// 64 bits can hold, is refused.
pub fn summarize_doge_payment(inputs: &Vec<TxEntry>, outputs: &Vec<TxEntry>, recipient: &str) -> (r:
    Result<(u64, String), RequestError>)
    ensures
        r matches Ok(p) ==> doge_payment_outcome(inputs@, outputs@, recipient@) == Ok::<
            (u64, Seq<char>),
            RequestError,
        >((p.0, p.1@)),
        r matches Err(e) ==> doge_payment_outcome(inputs@, outputs@, recipient@) == Err::<
            (u64, Seq<char>),
            RequestError,
        >(e),
        paid_to(outputs@, recipient@) > u64::MAX ==> r matches Err(
            RequestError::ArithmeticOverflow,
        ),
{
    let total = match received_total(outputs, recipient) {
        Ok(t) => t,
        Err(e) => {
            return Err(e);
        },
    };
    if total == 0 {
        return Err(RequestError::NoPaymentToRecipient);
    }
    if inputs.len() == 0 {
        return Err(RequestError::NoInputs);
    }
    Ok((total, inputs[0].recipient.clone()))
}

/// The amount field of a fetched XRP transaction.
#[derive(Clone, Debug, PartialEq, Eq)]
pub enum AmountField {
    /// Given as text, in drops.
    Text(String),
    /// Given as a number, in drops.
    Number(u64),
    /// Absent, or of another type.
    Missing,
}

/// What a fetched XRP payment comes to: its sender and amount, once it is
/// seen to pay the expected recipient.
pub open spec fn xrp_payment_outcome(
    sender: Option<Seq<char>>,
    destination: Option<Seq<char>>,
    amount: AmountField,
    recipient: Seq<char>,
) -> Result<(Seq<char>, u64), RequestError> {
    match sender {
        None => Err(RequestError::MissingSender),
        Some(s) => match destination {
            None => Err(RequestError::MissingDestination),
            Some(d) => if d != recipient {
                Err(RequestError::RecipientMismatch)
            } else {
                match amount {
                    AmountField::Text(t) => {
                        let b = encode_utf8(t@);
                        if decimal_form(b) && digits_value(digits_of(b)) <= u64::MAX {
                            Ok((s, digits_value(digits_of(b)) as u64))
                        } else {
                            Err(RequestError::InvalidAmount)
                        }
                    },
                    AmountField::Number(n) => Ok((s, n)),
                    AmountField::Missing => Err(RequestError::MissingAmount),
                }
            },
        },
    }
}

/// The text of an optional string.
pub open spec fn view_text(o: Option<String>) -> Option<Seq<char>> {
    match o {
        Some(s) => Some(s@),
        None => None,
    }
}

/// Checks a fetched XRP payment: it names a sender and a destination, the
/// destination is the expected recipient, and it carries an amount.
pub fn check_xrp_payment(
    sender: Option<String>,
    destination: Option<String>,
    amount: AmountField,
    recipient: &str,
) -> (r: Result<(String, u64), RequestError>)
    ensures
        r matches Ok(p) ==> xrp_payment_outcome(
            view_text(sender),
            view_text(destination),
            amount,
            recipient@,
        ) == Ok::<(Seq<char>, u64), RequestError>((p.0@, p.1)),
        r matches Err(e) ==> xrp_payment_outcome(
            view_text(sender),
            view_text(destination),
            amount,
            recipient@,
        ) == Err::<(Seq<char>, u64), RequestError>(e),
{
    let sender = match sender {
        Some(s) => s,
        None => {
            return Err(RequestError::MissingSender);
        },
    };
    let destination = match destination {
        Some(d) => d,
        None => {
            return Err(RequestError::MissingDestination);
        },
    };
    if !text_eq(destination.as_str(), recipient) {
        return Err(RequestError::RecipientMismatch);
    }
    match amount {
        AmountField::Text(t) => match parse_u64(t.as_str()) {
            Some(v) => Ok((sender, v)),
            None => Err(RequestError::InvalidAmount),
        },
        AmountField::Number(n) => Ok((sender, n)),
        AmountField::Missing => Err(RequestError::MissingAmount),
    }
}

/// The input handed to the prover for a transaction attestation: the
/// transaction hash must be hex for exactly 32 bytes (`MalformedField`).
pub fn build_tx_input(
    tx_hash: &str,
    recipient_address: String,
    sender_address: String,
    owner_address: String,
    amount: u64,
) -> (r: Result<DogeTxInput, ValidationError>)
    ensures
        r is Ok <==> (hex_valid(tx_hash.spec_bytes()) && tx_hash.spec_bytes().len() == 2 * TXID_LEN),
        r matches Ok(input) ==> {
            &&& input.txid@ == hex_decoded(tx_hash.spec_bytes())
            &&& input.recipient_address@ == recipient_address@
            &&& input.sender_address@ == sender_address@
            &&& input.owner_address@ == owner_address@
            &&& input.amount == amount
        },
        r matches Err(e) ==> e == ValidationError::MalformedField,
{
    match decode_tx_hash(tx_hash) {
        Ok(txid) => Ok(DogeTxInput { txid, recipient_address, sender_address, owner_address, amount }),
        Err(e) => Err(e),
    }
}

/// The balance record for an address.
pub fn balance_record(address: String, amount: u64) -> (r: AttestationRecord)
    ensures
        r@ == (RecordModel::Balance { total_amount: amount, address: address@ }),
{
    AttestationRecord::Balance { total_amount: amount, address }
}

/// `0x` followed by the lowercase hex of `data`.
pub fn prefixed_hex(data: &[u8]) -> (r: String)
    ensures
        r@ == seq!['0', 'x'] + hex_lower(data@),
{
    let mut out = "0x".to_owned();
    let digits = hex_encode(data);
    out.append(digits.as_str());
    proof {
        reveal_strlit("0x");
        assert(out@ =~= seq!['0', 'x'] + hex_lower(data@));
    }
    out
}

/// The total of a transaction record; 0 for records of other kinds.
fn record_total(record: &AttestationRecord) -> (t: u64)
    ensures
        record@ matches RecordModel::Transaction { total_amount, .. } ==> t == total_amount,
{
    match record {
        AttestationRecord::Transaction { total_amount, .. } => *total_amount,
        _ => 0,
    }
}

/// The answer to a Dogecoin transaction request, from the bytes that the proof commits (a
/// transaction record with an address owner) and the proof itself. The total is
/// read from the committed bytes.
pub fn doge_tx_response(
    committed: &[u8],
    proof: &[u8],
    vkey: String,
    sender_address: String,
    owner_address: String,
    tx_hash: String,
) -> (r: Result<DogeTxResponse, DecodeError>)
    ensures
        r is Ok <==> decode_spec(RecordKind::TransactionAddressOwner, committed@) is Ok,
        r matches Err(e) ==> decode_spec(RecordKind::TransactionAddressOwner, committed@) == Err::<
            RecordModel,
            DecodeError,
        >(e),
        r matches Ok(resp) ==> {
            &&& decode_spec(RecordKind::TransactionAddressOwner, committed@) matches Ok(
                RecordModel::Transaction { total_amount, .. },
            ) && resp.total_doge == total_amount
            &&& resp.sender_address@ == sender_address@
            &&& resp.owner_address@ == owner_address@
            &&& resp.tx_hash@ == tx_hash@
            &&& resp.vkey@ == vkey@
            &&& resp.public_values@ == seq!['0', 'x'] + hex_lower(committed@)
            &&& resp.proof@ == seq!['0', 'x'] + hex_lower(proof@)
        },
{
    match decode(RecordKind::TransactionAddressOwner, committed) {
        Ok(record) => Ok(
            DogeTxResponse {
                total_doge: record_total(&record),
                sender_address,
                owner_address,
                tx_hash,
                vkey,
                public_values: prefixed_hex(committed),
                proof: prefixed_hex(proof),
            },
        ),
        Err(e) => Err(e),
    }
}

/// The answer to an XRP transaction request, from the bytes that the proof commits (a
/// transaction record with a hashed owner) and the proof itself. The total is
/// read from the committed bytes.
pub fn xrp_tx_response(
    committed: &[u8],
    proof: &[u8],
    vkey: String,
    sender_address: String,
    owner_address: String,
    tx_hash: String,
) -> (r: Result<XrpTxResponse, DecodeError>)
    ensures
        r is Ok <==> decode_spec(RecordKind::TransactionHashedOwner, committed@) is Ok,
        r matches Err(e) ==> decode_spec(RecordKind::TransactionHashedOwner, committed@) == Err::<
            RecordModel,
            DecodeError,
        >(e),
        r matches Ok(resp) ==> {
            &&& decode_spec(RecordKind::TransactionHashedOwner, committed@) matches Ok(
                RecordModel::Transaction { total_amount, .. },
            ) && resp.total_xrp == total_amount
            &&& resp.sender_address@ == sender_address@
            &&& resp.owner_address@ == owner_address@
            &&& resp.tx_hash@ == tx_hash@
            &&& resp.vkey@ == vkey@
            &&& resp.public_values@ == seq!['0', 'x'] + hex_lower(committed@)
            &&& resp.proof@ == seq!['0', 'x'] + hex_lower(proof@)
        },
{
    match decode(RecordKind::TransactionHashedOwner, committed) {
        Ok(record) => Ok(
            XrpTxResponse {
                total_xrp: record_total(&record),
                sender_address,
                owner_address,
                tx_hash,
                vkey,
                public_values: prefixed_hex(committed),
                proof: prefixed_hex(proof),
            },
        ),
        Err(e) => Err(e),
    }
}

/// The answer to an XRP balance request, from the bytes that the proof
/// commits (a balance record) and the proof itself. The balance and the
/// address reported are the ones read from the committed bytes.
pub fn xrp_balance_response(committed: &[u8], proof: &[u8], vkey: String) -> (r: Result<
    XrpBalanceResponse,
    DecodeError,
>)
    ensures
        r is Ok <==> decode_spec(RecordKind::Balance, committed@) is Ok,
        r matches Err(e) ==> decode_spec(RecordKind::Balance, committed@) == Err::<
            RecordModel,
            DecodeError,
        >(e),
        r matches Ok(resp) ==> {
            &&& decode_spec(RecordKind::Balance, committed@) matches Ok(
                RecordModel::Balance { total_amount, address },
            ) && resp.total_xrp == total_amount && resp.address@ == address
            &&& resp.vkey@ == vkey@
            &&& resp.public_values@ == seq!['0', 'x'] + hex_lower(committed@)
            &&& resp.proof@ == seq!['0', 'x'] + hex_lower(proof@)
        },
{
    match decode(RecordKind::Balance, committed) {
        Ok(AttestationRecord::Balance { total_amount, address }) => Ok(
            XrpBalanceResponse {
                total_xrp: total_amount,
                address,
                vkey,
                public_values: prefixed_hex(committed),
                proof: prefixed_hex(proof),
            },
        ),
        Ok(_) => {
            // A balance layout only ever decodes to a balance record.
            proof {
                assert(false);
            }
            Err(DecodeError::Truncated)
        },
        Err(e) => Err(e),
    }
}

/// The minimum ratio that a metrics request implies: the collateral over
/// the debt, or 0 for a zero debt (which gives a zero threshold).
pub open spec fn minimum_ratio_of(collateral: u32, debt: u32) -> u32 {
    if debt == 0 {
        0
    } else {
        (collateral / debt) as u32
    }
}

/// The minimum ratio that `request` implies.
pub fn request_minimum_ratio(request: &ProofRequest) -> (r: u32)
    ensures
        r == minimum_ratio_of(request.collateral_amount, request.debt_amount),
{
    if request.debt_amount == 0 {
        0
    } else {
        request.collateral_amount / request.debt_amount
    }
}

/// The metrics reported for a metrics request at a given price: the ratio
/// of the collateral at that price (0 for a zero debt), the threshold of the
/// collateral at the BTC balance with the request's minimum ratio, and the
/// loan-to-value of the loan against the BTC balance. Every request is
/// answered; zero debt, collateral or balance resolve to defined values.
pub fn proof_response(request: &ProofRequest, btc_price: u32, proof_fixture: String) -> (r:
    ProofResponse)
    ensures
        r.icr == ratio_spec(request.collateral_amount, request.debt_amount, btc_price),
        r.liquidation_threshold == liquidation_threshold_spec(
            request.collateral_amount,
            request.btc_balance,
            minimum_ratio_of(request.collateral_amount, request.debt_amount),
        ),
        r.real_time_ltv == loan_to_value_spec(
            request.usbd_loan,
            request.btc_balance,
            request.btc_balance,
        ),
        r.proof_fixture@ == proof_fixture@,
{
    let (icr, _) = collateral_ratio(request.collateral_amount, request.debt_amount, btc_price);
    ProofResponse {
        icr,
        liquidation_threshold: liquidation_threshold(
            request.collateral_amount,
            request.btc_balance,
            request_minimum_ratio(request),
        ),
        real_time_ltv: loan_to_value(request.usbd_loan, request.btc_balance, request.btc_balance),
        proof_fixture,
    }
}

} // verus!
