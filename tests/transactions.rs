use attestation_core::assemble::{attest_transaction, OwnerMode};
use attestation_core::codec::{AttestationRecord, OwnerField};
use attestation_core::commitment::hash_identity;
use attestation_core::model::DogeTxInput;
use attestation_core::validate::{check_recipient, decode_tx_hash, parse_owner_address, text_eq, ValidationError};

const RECIPIENT: &str = "DHGrS3MYGyKzRVdMNxziTPF7QXvaYoEndA";

fn tx(recipient: &str, owner: &str) -> DogeTxInput {
    DogeTxInput {
        txid: [5; 32],
        recipient_address: recipient.to_string(),
        sender_address: "alice".to_string(),
        owner_address: owner.to_string(),
        amount: 1234,
    }
}

#[test]
fn hashed_owner_record() {
    let r = attest_transaction(&tx(RECIPIENT, "bob"), RECIPIENT, OwnerMode::Hashed);
    assert_eq!(
        r,
        Ok(AttestationRecord::Transaction {
            total_amount: 1234,
            sender_hash: hash_identity(b"alice"),
            owner: OwnerField::Hash(hash_identity(b"bob")),
            tx_hash: [5; 32],
        })
    );
}

#[test]
fn address_owner_record() {
    let owner = "0x00112233445566778899aAbBcCdDeEfF00112233";
    let r = attest_transaction(&tx(RECIPIENT, owner), RECIPIENT, OwnerMode::Address);
    let expected = [
        0x00, 0x11, 0x22, 0x33, 0x44, 0x55, 0x66, 0x77, 0x88, 0x99, 0xaa, 0xbb, 0xcc, 0xdd, 0xee, 0xff,
        0x00, 0x11, 0x22, 0x33,
    ];
    match r {
        Ok(AttestationRecord::Transaction { owner: OwnerField::Address(a), .. }) => assert_eq!(a, expected),
        other => panic!("unexpected {:?}", other),
    }
}

#[test]
fn malformed_owner_address() {
    let r = attest_transaction(&tx(RECIPIENT, "0x1234"), RECIPIENT, OwnerMode::Address);
    assert_eq!(r, Err(ValidationError::MalformedField));
    assert_eq!(parse_owner_address("not an address"), Err(ValidationError::MalformedField));
    assert_eq!(parse_owner_address("00112233445566778899aabbccddeeff00112233").map(|a| a[19]), Ok(0x33));
}

#[test]
fn recipient_one_character_off_is_rejected() {
    let off = "DHGrS3MYGyKzRVdMNxziTPF7QXvaYoEndB";
    assert_eq!(attest_transaction(&tx(off, "bob"), RECIPIENT, OwnerMode::Hashed), Err(ValidationError::RecipientMismatch));
    let lower = "dHGrS3MYGyKzRVdMNxziTPF7QXvaYoEndA";
    assert_eq!(attest_transaction(&tx(lower, "bob"), RECIPIENT, OwnerMode::Address), Err(ValidationError::RecipientMismatch));
    let short = "DHGrS3MYGyKzRVdMNxziTPF7QXvaYoEnd";
    assert_eq!(attest_transaction(&tx(short, "bob"), RECIPIENT, OwnerMode::Hashed), Err(ValidationError::RecipientMismatch));
}

#[test]
fn recipient_check_is_exact() {
    assert_eq!(check_recipient("abc", "abc"), Ok(()));
    assert_eq!(check_recipient("abc", "abd"), Err(ValidationError::RecipientMismatch));
    assert_eq!(check_recipient("", "a"), Err(ValidationError::RecipientMismatch));
    assert!(text_eq("", ""));
    assert!(!text_eq("é", "e"));
}

#[test]
fn tx_hash_decoding() {
    let text = "00ff".repeat(16);
    let mut expected = [0u8; 32];
    for i in 0..16 {
        expected[2 * i + 1] = 0xff;
    }
    assert_eq!(decode_tx_hash(&text), Ok(expected));
    assert_eq!(decode_tx_hash(&"AB".repeat(32)), Ok([0xab; 32]));
}

#[test]
fn tx_hash_malformed() {
    assert_eq!(decode_tx_hash(&"ab".repeat(31)), Err(ValidationError::MalformedField));
    assert_eq!(decode_tx_hash(&"ab".repeat(33)), Err(ValidationError::MalformedField));
    assert_eq!(decode_tx_hash(&format!("{}a", "ab".repeat(31))), Err(ValidationError::MalformedField));
    assert_eq!(decode_tx_hash(&format!("{}zz", "ab".repeat(31))), Err(ValidationError::MalformedField));
}
