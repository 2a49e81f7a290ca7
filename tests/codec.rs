use attestation_core::codec::{decode, encode, encode_metrics, AttestationRecord, DecodeError, OwnerField, RecordKind};

fn seq32(start: u8) -> [u8; 32] {
    let mut a = [0u8; 32];
    for (i, b) in a.iter_mut().enumerate() {
        *b = start.wrapping_add(i as u8);
    }
    a
}

fn samples() -> Vec<AttestationRecord> {
    vec![
        AttestationRecord::CollateralMetrics { icr: 0x0102_0304, collateral_usd: u32::MAX },
        AttestationRecord::Liquidation { liquidation_threshold: 7 },
        AttestationRecord::LoanToValue { real_time_ltv: 0 },
        AttestationRecord::Holdings {
            total_btc: 1_000_000,
            total_put_value: u64::MAX,
            total_call_value: 1,
            org_hash: seq32(9),
        },
        AttestationRecord::Transaction {
            total_amount: 42,
            sender_hash: seq32(1),
            owner: OwnerField::Hash(seq32(100)),
            tx_hash: seq32(200),
        },
        AttestationRecord::Transaction {
            total_amount: u64::MAX,
            sender_hash: seq32(3),
            owner: OwnerField::Address([0xab; 20]),
            tx_hash: seq32(4),
        },
        AttestationRecord::Balance { total_amount: 5, address: "rLAc6d8QtzMMhp1ziGvBGzLk81gDfM25du".to_string() },
        AttestationRecord::Balance { total_amount: 0, address: String::new() },
        AttestationRecord::Balance { total_amount: 9, address: "ü€".to_string() },
    ]
}

#[test]
fn round_trip_every_variant() {
    for r in samples() {
        let bytes = encode(&r);
        assert_eq!(decode(r.kind(), &bytes), Ok(r.clone()));
    }
}

#[test]
fn round_trip_pseudo_random_records() {
    let mut x: u64 = 0x9e37_79b9_7f4a_7c15;
    for _ in 0..200 {
        x = x.wrapping_mul(6364136223846793005).wrapping_add(1442695040888963407);
        let a = (x >> 32) as u32;
        let b = x as u32;
        let mut h = [0u8; 32];
        for (i, v) in h.iter_mut().enumerate() {
            *v = (x >> (i % 8 * 8)) as u8 ^ i as u8;
        }
        let records = vec![
            AttestationRecord::CollateralMetrics { icr: a, collateral_usd: b },
            AttestationRecord::Liquidation { liquidation_threshold: b },
            AttestationRecord::LoanToValue { real_time_ltv: a },
            AttestationRecord::Holdings { total_btc: x, total_put_value: !x, total_call_value: x / 3, org_hash: h },
            AttestationRecord::Transaction { total_amount: x, sender_hash: h, owner: OwnerField::Hash(h), tx_hash: h },
            AttestationRecord::Transaction {
                total_amount: !x,
                sender_hash: h,
                owner: OwnerField::Address([b as u8; 20]),
                tx_hash: h,
            },
            AttestationRecord::Balance { total_amount: x, address: format!("r{}", x) },
        ];
        for r in records {
            assert_eq!(decode(r.kind(), &encode(&r)), Ok(r.clone()));
        }
    }
}

#[test]
fn collateral_layout_is_big_endian() {
    let r = AttestationRecord::CollateralMetrics { icr: 0x0102_0304, collateral_usd: 5 };
    assert_eq!(encode(&r), vec![1, 2, 3, 4, 0, 0, 0, 5]);
}

#[test]
fn liquidation_and_ltv_layouts() {
    assert_eq!(encode(&AttestationRecord::Liquidation { liquidation_threshold: 0xdead_beef }), vec![0xde, 0xad, 0xbe, 0xef]);
    assert_eq!(encode(&AttestationRecord::LoanToValue { real_time_ltv: 256 }), vec![0, 0, 1, 0]);
}

#[test]
fn holdings_layout() {
    let r = AttestationRecord::Holdings { total_btc: 1, total_put_value: 2, total_call_value: 3, org_hash: [7; 32] };
    let b = encode(&r);
    assert_eq!(b.len(), 56);
    assert_eq!(&b[0..8], &[0, 0, 0, 0, 0, 0, 0, 1]);
    assert_eq!(&b[8..16], &[0, 0, 0, 0, 0, 0, 0, 2]);
    assert_eq!(&b[16..24], &[0, 0, 0, 0, 0, 0, 0, 3]);
    assert_eq!(&b[24..56], &[7u8; 32]);
}

#[test]
fn transaction_address_layout_pads_with_zeros() {
    let r = AttestationRecord::Transaction {
        total_amount: 0x0102,
        sender_hash: [1; 32],
        owner: OwnerField::Address([2; 20]),
        tx_hash: [3; 32],
    };
    let b = encode(&r);
    assert_eq!(b.len(), 104);
    assert_eq!(&b[0..8], &[0, 0, 0, 0, 0, 0, 1, 2]);
    assert_eq!(&b[8..40], &[1u8; 32]);
    assert_eq!(&b[40..60], &[2u8; 20]);
    assert_eq!(&b[60..72], &[0u8; 12]);
    assert_eq!(&b[72..104], &[3u8; 32]);
}

#[test]
fn balance_layout() {
    let r = AttestationRecord::Balance { total_amount: 3, address: "rX".to_string() };
    assert_eq!(encode(&r), vec![0, 0, 0, 0, 0, 0, 0, 3, b'r', b'X']);
}

#[test]
fn decode_rejects_truncated() {
    assert_eq!(decode(RecordKind::CollateralMetrics, &[1, 2, 3, 4, 5, 6, 7]), Err(DecodeError::Truncated));
    assert_eq!(decode(RecordKind::Liquidation, &[]), Err(DecodeError::Truncated));
    assert_eq!(decode(RecordKind::Holdings, &[0u8; 55]), Err(DecodeError::Truncated));
    assert_eq!(decode(RecordKind::TransactionHashedOwner, &[0u8; 103]), Err(DecodeError::Truncated));
    assert_eq!(decode(RecordKind::Balance, &[0u8; 7]), Err(DecodeError::Truncated));
}

#[test]
fn decode_rejects_over_length() {
    assert_eq!(decode(RecordKind::CollateralMetrics, &[0u8; 9]), Err(DecodeError::OverLength));
    assert_eq!(decode(RecordKind::LoanToValue, &[0u8; 5]), Err(DecodeError::OverLength));
    assert_eq!(decode(RecordKind::TransactionAddressOwner, &[0u8; 105]), Err(DecodeError::OverLength));
}

#[test]
fn decode_rejects_non_zero_padding() {
    let mut b = vec![0u8; 104];
    b[71] = 1;
    assert_eq!(decode(RecordKind::TransactionAddressOwner, &b), Err(DecodeError::NonZeroPadding));
    // The same bytes are a valid record with a hashed owner.
    assert!(decode(RecordKind::TransactionHashedOwner, &b).is_ok());
}

#[test]
fn decode_rejects_invalid_text() {
    let b = vec![0, 0, 0, 0, 0, 0, 0, 1, 0xff, 0xfe];
    assert_eq!(decode(RecordKind::Balance, &b), Err(DecodeError::InvalidText));
}

#[test]
fn decode_reads_fields() {
    assert_eq!(
        decode(RecordKind::CollateralMetrics, &[0, 0, 1, 0, 0xff, 0xff, 0xff, 0xff]),
        Ok(AttestationRecord::CollateralMetrics { icr: 256, collateral_usd: u32::MAX })
    );
}

#[test]
fn metric_records_encoded_together() {
    let a = AttestationRecord::CollateralMetrics { icr: 1, collateral_usd: 2 };
    let b = AttestationRecord::Liquidation { liquidation_threshold: 3 };
    let c = AttestationRecord::LoanToValue { real_time_ltv: 4 };
    assert_eq!(encode_metrics(&a, &b, &c), vec![0, 0, 0, 1, 0, 0, 0, 2, 0, 0, 0, 3, 0, 0, 0, 4]);
}
