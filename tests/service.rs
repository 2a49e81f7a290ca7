use attestation_core::codec::{encode, AttestationRecord, DecodeError, OwnerField};
use attestation_core::decimal::parse_u64;
use attestation_core::service::{
    balance_record, build_tx_input, check_balance_request, check_xrp_payment, doge_tx_response,
    parse_proof_system, prefixed_hex, proof_response, request_minimum_ratio, received_total, summarize_doge_payment,
    xrp_address_well_formed, xrp_balance_response, xrp_tx_response, AmountField, ProofRequest,
    ProofSystem, RequestError, TxEntry, XrpBalanceRequest,
};
use attestation_core::validate::ValidationError;

const XRP_RECIPIENT: &str = "rLAc6d8QtzMMhp1ziGvBGzLk81gDfM25du";

fn entry(recipient: &str, value: u64) -> TxEntry {
    TxEntry { recipient: recipient.to_string(), value }
}

#[test]
fn proof_system_names() {
    assert_eq!(parse_proof_system("groth16"), Some(ProofSystem::Groth16));
    assert_eq!(parse_proof_system("plonk"), Some(ProofSystem::Plonk));
    assert_eq!(parse_proof_system("Plonk"), None);
    assert_eq!(parse_proof_system(""), None);
}

#[test]
fn xrp_address_form() {
    assert!(xrp_address_well_formed(XRP_RECIPIENT));
    assert!(!xrp_address_well_formed("xLAc6d8QtzMMhp1ziGvBGzLk81gDfM25du"));
    assert!(!xrp_address_well_formed("r123"));
    assert!(xrp_address_well_formed(&format!("r{}", "a".repeat(24))));
    assert!(!xrp_address_well_formed(&format!("r{}", "a".repeat(34))));
}

#[test]
fn balance_request_checks() {
    let ok = XrpBalanceRequest { address: XRP_RECIPIENT.to_string(), proof_system: "plonk".to_string() };
    assert_eq!(check_balance_request(&ok), Ok(ProofSystem::Plonk));
    let bad_system = XrpBalanceRequest { address: XRP_RECIPIENT.to_string(), proof_system: "stark".to_string() };
    assert_eq!(check_balance_request(&bad_system), Err(RequestError::InvalidProofSystem));
    let bad_both = XrpBalanceRequest { address: "short".to_string(), proof_system: "stark".to_string() };
    assert_eq!(check_balance_request(&bad_both), Err(RequestError::InvalidAddress));
}

#[test]
fn received_total_sums_matching_outputs() {
    let outs = vec![entry("A", 5), entry("B", 7), entry("A", 11)];
    assert_eq!(received_total(&outs, "A"), Ok(16));
    assert_eq!(received_total(&outs, "C"), Ok(0));
    let big = vec![entry("A", u64::MAX), entry("A", 3)];
    assert_eq!(received_total(&big, "A"), Err(RequestError::ArithmeticOverflow));
    let full = vec![entry("A", u64::MAX - 3), entry("B", u64::MAX), entry("A", 3)];
    assert_eq!(received_total(&full, "A"), Ok(u64::MAX));
}

#[test]
fn doge_payment_summary() {
    let ins = vec![entry("sender1", 100), entry("sender2", 1)];
    let outs = vec![entry("R", 40), entry("X", 50)];
    assert_eq!(summarize_doge_payment(&ins, &outs, "R"), Ok((40, "sender1".to_string())));
    assert_eq!(summarize_doge_payment(&ins, &outs, "Q"), Err(RequestError::NoPaymentToRecipient));
    assert_eq!(summarize_doge_payment(&vec![], &outs, "R"), Err(RequestError::NoInputs));
    let over = vec![entry("R", u64::MAX), entry("R", 1)];
    assert_eq!(summarize_doge_payment(&ins, &over, "R"), Err(RequestError::ArithmeticOverflow));
}

#[test]
fn xrp_payment_checks() {
    let s = Some("rSender".to_string());
    let d = Some(XRP_RECIPIENT.to_string());
    assert_eq!(
        check_xrp_payment(s.clone(), d.clone(), AmountField::Text("1500000".to_string()), XRP_RECIPIENT),
        Ok(("rSender".to_string(), 1_500_000))
    );
    assert_eq!(check_xrp_payment(s.clone(), d.clone(), AmountField::Number(7), XRP_RECIPIENT), Ok(("rSender".to_string(), 7)));
    assert_eq!(
        check_xrp_payment(s.clone(), d.clone(), AmountField::Text("1.5".to_string()), XRP_RECIPIENT),
        Err(RequestError::InvalidAmount)
    );
    assert_eq!(check_xrp_payment(s.clone(), d.clone(), AmountField::Missing, XRP_RECIPIENT), Err(RequestError::MissingAmount));
    assert_eq!(check_xrp_payment(None, d.clone(), AmountField::Number(1), XRP_RECIPIENT), Err(RequestError::MissingSender));
    assert_eq!(check_xrp_payment(s.clone(), None, AmountField::Number(1), XRP_RECIPIENT), Err(RequestError::MissingDestination));
    assert_eq!(
        check_xrp_payment(s, Some("rLAc6d8QtzMMhp1ziGvBGzLk81gDfM25dv".to_string()), AmountField::Number(1), XRP_RECIPIENT),
        Err(RequestError::RecipientMismatch)
    );
}

#[test]
fn decimal_parsing() {
    assert_eq!(parse_u64("0"), Some(0));
    assert_eq!(parse_u64("+42"), Some(42));
    assert_eq!(parse_u64("18446744073709551615"), Some(u64::MAX));
    assert_eq!(parse_u64("18446744073709551616"), None);
    assert_eq!(parse_u64("99999999999999999999x"), None);
    assert_eq!(parse_u64(""), None);
    assert_eq!(parse_u64("+"), None);
    assert_eq!(parse_u64("-1"), None);
    assert_eq!(parse_u64("12a"), None);
    assert_eq!(parse_u64(" 1"), None);
}

#[test]
fn tx_input_from_hash_text() {
    let input = build_tx_input(&"0a".repeat(32), "R".to_string(), "S".to_string(), "O".to_string(), 9).unwrap();
    assert_eq!(input.txid, [10; 32]);
    assert_eq!(input.amount, 9);
    assert_eq!(input.owner_address, "O");
    assert_eq!(
        build_tx_input("abc", "R".to_string(), "S".to_string(), "O".to_string(), 9),
        Err(ValidationError::MalformedField)
    );
}

#[test]
fn prefixed_hex_is_lowercase() {
    assert_eq!(prefixed_hex(&[0x00, 0xAB, 0x10]), "0x00ab10");
    assert_eq!(prefixed_hex(&[]), "0x");
}

#[test]
fn doge_response_reads_committed_total() {
    let record = AttestationRecord::Transaction {
        total_amount: 777,
        sender_hash: [1; 32],
        owner: OwnerField::Address([2; 20]),
        tx_hash: [3; 32],
    };
    let committed = encode(&record);
    let resp = doge_tx_response(&committed, &[0xde, 0xad], "vk".to_string(), "S".to_string(), "O".to_string(), "T".to_string())
        .unwrap();
    assert_eq!(resp.total_doge, 777);
    assert_eq!(resp.proof, "0xdead");
    assert!(resp.public_values.starts_with("0x0000000000000309"));
    assert_eq!(resp.public_values.len(), 2 + 2 * 104);
    let short = doge_tx_response(&committed[..100], &[], "vk".to_string(), "S".to_string(), "O".to_string(), "T".to_string());
    assert_eq!(short, Err(DecodeError::Truncated));
}

#[test]
fn xrp_responses() {
    let record = AttestationRecord::Transaction {
        total_amount: 5,
        sender_hash: [1; 32],
        owner: OwnerField::Hash([2; 32]),
        tx_hash: [3; 32],
    };
    let resp = xrp_tx_response(&encode(&record), &[1], "vk".to_string(), "S".to_string(), "O".to_string(), "T".to_string())
        .unwrap();
    assert_eq!(resp.total_xrp, 5);
    assert_eq!(resp.proof, "0x01");
    let balance = encode(&balance_record(XRP_RECIPIENT.to_string(), 12));
    let b = xrp_balance_response(&balance, &[], "vk".to_string()).unwrap();
    assert_eq!(b.total_xrp, 12);
    assert_eq!(b.address, XRP_RECIPIENT);
    assert_eq!(xrp_balance_response(&[0, 1], &[], "vk".to_string()), Err(DecodeError::Truncated));
}

#[test]
fn metrics_response() {
    let req = ProofRequest { n: 1, collateral_amount: 300, debt_amount: 2, usbd_loan: 50, btc_balance: 10 };
    let resp = proof_response(&req, 20, "{}".to_string());
    assert_eq!(resp.icr, 300_000);
    assert_eq!(resp.liquidation_threshold, 300 * 10 * 100 / 150);
    assert_eq!(resp.real_time_ltv, 50);
    assert_eq!(resp.proof_fixture, "{}");
}

#[test]
fn metrics_response_with_zero_debt() {
    let req = ProofRequest { n: 1, collateral_amount: 300, debt_amount: 0, usbd_loan: 50, btc_balance: 10 };
    assert_eq!(request_minimum_ratio(&req), 0);
    let resp = proof_response(&req, 20, String::new());
    assert_eq!(resp.icr, 0);
    assert_eq!(resp.liquidation_threshold, 0);
    assert_eq!(resp.real_time_ltv, 50);
}

#[test]
fn metrics_response_with_zero_balance() {
    let req = ProofRequest { n: 1, collateral_amount: 300, debt_amount: 3, usbd_loan: 50, btc_balance: 0 };
    let resp = proof_response(&req, 20, String::new());
    assert_eq!(resp.icr, 200_000);
    assert_eq!(resp.liquidation_threshold, 0);
    assert_eq!(resp.real_time_ltv, 0);
    assert_eq!(proof_response(&req, 20, String::new()).icr, resp.icr);
}

#[test]
fn balance_response_reports_committed_values() {
    let committed = encode(&balance_record("rCommitted".to_string(), 99));
    let b = xrp_balance_response(&committed, &[], "vk".to_string()).unwrap();
    assert_eq!(b.total_xrp, 99);
    assert_eq!(b.address, "rCommitted");
    assert_eq!(b.public_values, prefixed_hex(&committed));
}
