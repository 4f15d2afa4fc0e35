use dispatch::primitives::Address;
use dispatch::receipts::{
    by_payer_recent, delete_covered, distinct_payers, fetch_by_payer, fetch_rav_floor,
    fetch_unredeemed_ravs, insert, mark_rav_redeemed, rav_floor, recent, upsert_rav, Bind, RavRow,
    Statement,
};
use dispatch::tap::{Receipt, ValidatedReceipt};

fn text(s: &str) -> Bind {
    Bind::Text(s.to_string())
}

/// The highest placeholder of a statement.
fn placeholders(s: &Statement) -> usize {
    let mut n = 0;
    while s.sql.contains(&format!("${}", n + 1)) {
        n += 1;
    }
    n
}

fn validated(timestamp_ns: u64, method: Option<String>) -> ValidatedReceipt {
    ValidatedReceipt {
        signer: Address { bytes: [0xAA; 20] },
        payer: Address { bytes: [0xBB; 20] },
        receipt: Receipt {
            data_service: Address { bytes: [1; 20] },
            service_provider: Address { bytes: [2; 20] },
            timestamp_ns,
            nonce: u64::MAX,
            value: u128::MAX,
            metadata: vec![1, 2, 3],
        },
        signature: "0xsig".to_string(),
        method,
    }
}

#[test]
fn insert_binds_what_is_stored() {
    let s = insert(42161, &validated(1_700_000_000_000_000_000, Some("eth_call".to_string())));
    assert!(s.sql.starts_with("INSERT INTO tap_receipts"));
    assert!(s.sql.ends_with("RETURNING id"));
    assert_eq!(
        s.binds,
        vec![
            text("0xaaaaaaaaaaaaaaaaaaaaaaaaaaaaaaaaaaaaaaaa"),
            text("0xbbbbbbbbbbbbbbbbbbbbbbbbbbbbbbbbbbbbbbbb"),
            Bind::Int(42161),
            Bind::Int(1_700_000_000_000_000_000),
            Bind::Int(-1),
            text("340282366920938463463374607431768211455"),
            text("0xsig"),
            Bind::Bytes(vec![1, 2, 3]),
            Bind::OptionalText(Some("eth_call".to_string())),
        ]
    );
}

#[test]
fn insert_keeps_the_bits_of_large_numbers() {
    let s = insert(u64::MAX, &validated(1 << 63, None));
    assert_eq!(s.binds[2], Bind::Int(-1));
    assert_eq!(s.binds[3], Bind::Int(i64::MIN));
    assert_eq!(s.binds[8], Bind::OptionalText(None));
}

#[test]
fn statements_and_their_values() {
    assert_eq!(recent(25).binds, vec![Bind::Int(25)]);
    assert!(recent(25).sql.ends_with("ORDER BY timestamp_ns DESC LIMIT $1"));
    assert_eq!(by_payer_recent("0xab", 5).binds, vec![text("0xab"), Bind::Int(5)]);
    assert!(by_payer_recent("0xab", 5).sql.contains("WHERE payer_address = $1"));
    assert_eq!(fetch_by_payer("0xab").binds, vec![text("0xab")]);
    assert!(fetch_by_payer("0xab").sql.ends_with("ORDER BY timestamp_ns ASC"));
    assert_eq!(distinct_payers().sql, "SELECT DISTINCT payer_address FROM tap_receipts");
    assert!(fetch_unredeemed_ravs().sql.contains("WHERE redeemed = false"));
    assert_eq!(mark_rav_redeemed("0xcc").binds, vec![text("0xcc")]);
    assert_eq!(delete_covered("0xab", 9).binds, vec![text("0xab"), Bind::Int(9)]);
    assert!(delete_covered("0xab", 9).sql.ends_with("timestamp_ns <= $2"));
    assert_eq!(fetch_rav_floor("0xcc").binds, vec![text("0xcc")]);
}

fn row() -> RavRow<'static> {
    RavRow {
        collection_id: "c",
        payer_address: "p",
        service_provider: "s",
        data_service: "d",
        timestamp_ns: 7,
        value_aggregate: "12",
        signature: "sig",
        last_updated: 9,
    }
}

#[test]
fn upsert_replaces_and_reopens() {
    let s = upsert_rav(&row());
    assert_eq!(
        s.binds,
        vec![
            text("c"),
            text("p"),
            text("s"),
            text("d"),
            Bind::Int(7),
            text("12"),
            text("sig"),
            Bind::Int(9),
        ]
    );
    assert!(s.sql.contains("ON CONFLICT (collection_id) DO UPDATE"));
    assert!(s.sql.contains("value_aggregate = EXCLUDED.value_aggregate"));
    assert!(s.sql.ends_with("redeemed = false"));
}

#[test]
fn every_placeholder_has_a_value() {
    let all = vec![
        insert(1, &validated(1, None)),
        recent(1),
        by_payer_recent("p", 1),
        fetch_by_payer("p"),
        distinct_payers(),
        fetch_unredeemed_ravs(),
        mark_rav_redeemed("c"),
        delete_covered("p", 1),
        fetch_rav_floor("c"),
        upsert_rav(&row()),
    ];
    for s in all {
        assert_eq!(placeholders(&s), s.binds.len(), "{}", s.sql);
    }
}

#[test]
fn stored_floor() {
    assert_eq!(rav_floor(None), 0);
    assert_eq!(rav_floor(Some("1000")), 1000);
    assert_eq!(rav_floor(Some("oops")), 0);
    assert_eq!(rav_floor(Some("")), 0);
}

#[test]
fn bound_value_is_the_floor() {
    for value in [0, 12, u64::MAX as u128 + 1, u128::MAX] {
        let shown = value.to_string();
        let mut rav = row();
        rav.value_aggregate = &shown;
        match &upsert_rav(&rav).binds[5] {
            Bind::Text(stored) => assert_eq!(rav_floor(Some(stored)), value),
            other => panic!("{other:?}"),
        }
    }
    assert_eq!(rav_floor(None), 0);
}
