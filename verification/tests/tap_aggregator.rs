use dispatch::aggregate::aggregate;
use dispatch::payer_run::{start, step, RunAction, RunEvent, RunState};
use dispatch::primitives::{Address, Bytes32};
use dispatch::receipts::{insert, rav_floor, Bind, RawReceipt};
use dispatch::tap::{Rav, Receipt, SignedRav, ValidatedReceipt};
use dispatch::tap_aggregator::{
    accepted, aggregate_request, collection_key, plan, prepare, previous_rav_value, rav_update,
    rebuild_receipts, AggregatorPlan, AggregatorSettings, Cycle, PayerError, RavUpdate,
    REQUEST_TIMEOUT_SECS,
};
use dispatch::tokens_collected::TokensCollectedError;

fn address(b: u8) -> Address {
    Address { bytes: [b; 20] }
}

const PAYER_HEX: &str = "0x1111111111111111111111111111111111111111";

fn settings() -> AggregatorSettings {
    AggregatorSettings {
        aggregator_url: Some("http://gw".to_string()),
        escrow_check_rpc_url: Some("http://check".to_string()),
        collector_rpc_url: Some("http://collector".to_string()),
        eip712_verifying_contract: address(0x44),
        aggregation_interval_secs: 60,
        service_provider_address: address(0x22),
        data_service_address: address(0x33),
    }
}

fn the_plan(rpc: bool) -> AggregatorPlan {
    let mut s = settings();
    if !rpc {
        s.escrow_check_rpc_url = None;
        s.collector_rpc_url = None;
    }
    plan(&s).unwrap()
}

fn row(timestamp_ns: i64, value: &str) -> RawReceipt {
    RawReceipt {
        id: 1,
        payer_address: PAYER_HEX.to_string(),
        timestamp_ns,
        nonce: -1,
        value: value.to_string(),
        signature: "sig".to_string(),
        metadata: vec![9],
    }
}

#[test]
fn plan_is_none_without_a_gateway() {
    let mut s = settings();
    s.aggregator_url = None;
    assert!(plan(&s).is_none());
}

#[test]
fn plan_prefers_the_read_only_endpoint() {
    let p = plan(&settings()).unwrap();
    assert_eq!(p.endpoint, "http://gw/rav/aggregate");
    assert_eq!(p.rpc_url, Some("http://check".to_string()));
    assert_eq!(p.tally_collector, address(0x44));
    assert_eq!(p.interval_secs, 60);
    assert_eq!(p.service_provider, address(0x22));
    assert_eq!(p.data_service, address(0x33));
    let mut s = settings();
    s.escrow_check_rpc_url = None;
    assert_eq!(plan(&s).unwrap().rpc_url, Some("http://collector".to_string()));
    s.collector_rpc_url = None;
    assert_eq!(plan(&s).unwrap().rpc_url, None);
    assert_eq!(REQUEST_TIMEOUT_SECS, 30);
}

#[test]
fn cycle_takes_every_payer_once() {
    let mut c = Cycle::start(vec!["a".to_string(), "b".to_string()]);
    assert!(!c.is_empty());
    assert_eq!(c.next_payer(), Some("a".to_string()));
    assert_eq!(c.next_payer(), Some("b".to_string()));
    assert_eq!(c.next_payer(), None);
    assert_eq!(c.next_payer(), None);
    assert!(Cycle::start(vec![]).is_empty());
}

#[test]
fn rows_are_rebuilt() {
    let rows = vec![row(5, "17"), row(-1, "oops")];
    let batch = rebuild_receipts(&rows, &address(0x22), &address(0x33));
    assert_eq!(batch.len(), 2);
    assert_eq!(batch[0].receipt.service_provider, address(0x22));
    assert_eq!(batch[0].receipt.data_service, address(0x33));
    assert_eq!(batch[0].receipt.timestamp_ns, 5);
    assert_eq!(batch[0].receipt.nonce, u64::MAX);
    assert_eq!(batch[0].receipt.value, 17);
    assert_eq!(batch[0].receipt.metadata, vec![9]);
    assert_eq!(batch[0].signature, "sig");
    assert_eq!(batch[1].receipt.timestamp_ns, u64::MAX);
    assert_eq!(batch[1].receipt.value, 0);
}

#[test]
fn stored_receipt_is_rebuilt_as_it_was() {
    let validated = ValidatedReceipt {
        signer: address(0x99),
        payer: address(0x11),
        receipt: Receipt {
            data_service: address(0x33),
            service_provider: address(0x22),
            timestamp_ns: u64::MAX - 5,
            nonce: 1 << 63,
            value: 12_345_678_901_234_567_890_123,
            metadata: vec![1, 2],
        },
        signature: "0xsig".to_string(),
        method: None,
    };
    let binds = insert(1, &validated).binds;
    let int = |b: &Bind| match b {
        Bind::Int(n) => *n,
        _ => panic!("no integer"),
    };
    let text = |b: &Bind| match b {
        Bind::Text(s) => s.clone(),
        _ => panic!("no text"),
    };
    let stored = RawReceipt {
        id: 1,
        payer_address: text(&binds[1]),
        timestamp_ns: int(&binds[3]),
        nonce: int(&binds[4]),
        value: text(&binds[5]),
        signature: text(&binds[6]),
        metadata: match &binds[7] {
            Bind::Bytes(b) => b.clone(),
            _ => panic!("no bytes"),
        },
    };
    let payer_hex = stored.payer_address.clone();
    let batch = prepare(&vec![stored], &payer_hex, &address(0x22), &address(0x33)).unwrap().unwrap();
    assert_eq!(batch.payer, address(0x11));
    let r = &batch.receipts[0].receipt;
    assert_eq!(r.data_service, validated.receipt.data_service);
    assert_eq!(r.service_provider, validated.receipt.service_provider);
    assert_eq!(r.timestamp_ns, validated.receipt.timestamp_ns);
    assert_eq!(r.nonce, validated.receipt.nonce);
    assert_eq!(r.value, validated.receipt.value);
    assert_eq!(r.metadata, validated.receipt.metadata);
    assert_eq!(batch.receipts[0].signature, validated.signature);
}

#[test]
fn batch_of_a_payer() {
    assert!(prepare(&vec![], "nonsense", &address(2), &address(3)).unwrap().is_none());
    let e = prepare(&vec![row(1, "1")], "nonsense", &address(2), &address(3)).unwrap_err();
    assert_eq!(e.message(), "invalid payer address in db: nonsense");
    let b = prepare(&vec![row(1, "1")], PAYER_HEX, &address(2), &address(3)).unwrap().unwrap();
    assert_eq!(b.payer, address(0x11));
    assert_eq!(b.receipts.len(), 1);
}

#[test]
fn floor_is_the_larger_one() {
    assert_eq!(previous_rav_value(Some(5), Some(9)), 9);
    assert_eq!(previous_rav_value(Some(9), Some(5)), 9);
    assert_eq!(previous_rav_value(Some(9), None), 9);
    assert_eq!(previous_rav_value(None, Some(9)), 9);
    assert_eq!(previous_rav_value(None, None), 0);
}

#[test]
fn collection_keys() {
    assert_eq!(
        collection_key(&Bytes32 { bytes: [0xCD; 32] }),
        "0xcdcdcdcdcdcdcdcdcdcdcdcdcdcdcdcdcdcdcdcdcdcdcdcdcdcdcdcdcdcdcdcd"
    );
}

#[test]
fn collection_keys_differ() {
    let mut other = [0xCD; 32];
    other[31] = 0xCE;
    assert_ne!(
        collection_key(&Bytes32 { bytes: [0xCD; 32] }),
        collection_key(&Bytes32 { bytes: other })
    );
}

#[test]
fn success_statuses() {
    assert!(!accepted(199));
    assert!(accepted(200));
    assert!(accepted(299));
    assert!(!accepted(300));
}

fn voucher(timestamp_ns: u64, value_aggregate: u128) -> SignedRav {
    SignedRav {
        rav: Rav {
            collection_id: Bytes32 { bytes: [0xcc; 32] },
            payer: address(0x11),
            service_provider: address(0x22),
            data_service: address(0x33),
            timestamp_ns,
            value_aggregate,
            metadata: vec![],
        },
        signature: "0xrav".to_string(),
    }
}

#[test]
fn stored_voucher() {
    let u = rav_update(&voucher(77, 1_000), 123);
    assert_eq!(u.payer_address, PAYER_HEX);
    assert_eq!(u.service_provider, "0x2222222222222222222222222222222222222222");
    assert_eq!(u.data_service, "0x3333333333333333333333333333333333333333");
    assert_eq!(u.collection_id, collection_key(&Bytes32 { bytes: [0xcc; 32] }));
    assert_eq!(u.timestamp_ns, 77);
    assert_eq!(u.value_aggregate, "1000");
    assert_eq!(u.signature, "0xrav");
    assert_eq!(u.last_updated, 123);
    assert_eq!(u.row().value_aggregate, "1000");
    assert_eq!(u.upsert().binds.len(), 8);
    assert_eq!(u.prune().binds, vec![Bind::Text(PAYER_HEX.to_string()), Bind::Int(77)]);
    assert_eq!(rav_floor(Some(&u.value_aggregate)), 1_000);
}

/// What is stored after the gateway has aggregated `rows` on top of `floor`.
fn stored_after(rows: &Vec<RawReceipt>, floor: u128) -> RavUpdate {
    let batch = prepare(rows, PAYER_HEX, &address(0x22), &address(0x33)).unwrap().unwrap();
    let request = aggregate_request(batch, &address(0x22), floor);
    let recovered = rows.iter().map(|_| Ok(address(0x99))).collect();
    let terms = aggregate(&request, &recovered, &address(0x99)).unwrap();
    let rav = terms.rav(Bytes32 { bytes: [0xcc; 32] });
    rav_update(&SignedRav { rav, signature: "0xrav".to_string() }, 123)
}

#[test]
fn pruning_covers_what_was_counted() {
    for rows in [
        vec![row(5, "17"), row(7, "3")],
        vec![row(i64::MAX, "17"), row(0, "3")],
        vec![row(-9, "17"), row(i64::MIN, "3")],
    ] {
        let u = stored_after(&rows, 100);
        assert_eq!(rav_floor(Some(&u.value_aggregate)), 120);
        assert_eq!(u.payer_address, PAYER_HEX);
        assert!(rows.iter().all(|r| r.timestamp_ns <= u.timestamp_ns));
    }
}

#[test]
fn timestamps_of_both_signs_are_pruned_in_part() {
    let u = stored_after(&vec![row(1, "17"), row(-1, "3")], 0);
    assert_eq!(rav_floor(Some(&u.value_aggregate)), 20);
    assert_eq!(u.timestamp_ns, -1);
}

fn word_reply(n: u128) -> Vec<u8> {
    format!("{{\"result\":\"0x{n:064x}\"}}").into_bytes()
}

#[test]
fn whole_run() {
    let p = the_plan(true);
    let (s, a) = start(PAYER_HEX);
    assert!(matches!(a, RunAction::FetchRows(q) if q.binds == vec![Bind::Text(PAYER_HEX.to_string())]));
    let rows = vec![row(5, "10"), row(8, "20")];
    let (s, a) = step(&p, PAYER_HEX, s, RunEvent::Rows(rows.clone()));
    match a {
        RunAction::DeriveCollection { payer, service_provider, data_service } => {
            assert_eq!(payer, address(0x11));
            assert_eq!(service_provider, address(0x22));
            assert_eq!(data_service, address(0x33));
        }
        other => panic!("{other:?}"),
    }
    let cid = Bytes32 { bytes: [0xcc; 32] };
    let (s, a) = step(&p, PAYER_HEX, s, RunEvent::Collection(cid));
    assert!(matches!(a, RunAction::FetchFloor(q) if q.binds == vec![Bind::Text(collection_key(&cid))]));
    let (s, a) = step(&p, PAYER_HEX, s, RunEvent::LocalFloor(Some(Some("100".to_string()))));
    match a {
        RunAction::AskChain { url, call } => {
            assert_eq!(url, "http://check");
            assert_eq!(call.to, "0x4444444444444444444444444444444444444444");
            assert!(call.data.starts_with("0x181250ff"));
        }
        other => panic!("{other:?}"),
    }
    let (s, a) = step(&p, PAYER_HEX, s, RunEvent::ChainReply(Ok(word_reply(150))));
    let request = match a {
        RunAction::Post { endpoint, request, local_floor, on_chain_floor, chain_error } => {
            assert_eq!(endpoint, "http://gw/rav/aggregate");
            assert_eq!((local_floor, on_chain_floor), (100, 150));
            assert_eq!(chain_error, None);
            assert_eq!(request.previous_rav_value, 150);
            assert_eq!(request.payer, Some(address(0x11)));
            assert_eq!(request.service_provider, address(0x22));
            assert_eq!(request.receipts.len(), 2);
            assert_eq!(request.receipts[1].receipt.timestamp_ns, 8);
            assert_eq!(request.receipts[1].receipt.value, 20);
            request
        }
        other => panic!("{other:?}"),
    };
    let signer = address(0x99);
    let terms = aggregate(&request, &vec![Ok(signer), Ok(signer)], &signer).unwrap();
    assert_eq!(terms.value_aggregate, 180);
    let signed = SignedRav { rav: terms.rav(cid), signature: "0xrav".to_string() };
    let (s, a) = step(&p, PAYER_HEX, s, RunEvent::Status(200));
    assert!(matches!(a, RunAction::ReadVoucher));
    let (s, a) = step(&p, PAYER_HEX, s, RunEvent::Voucher(signed, 123));
    match a {
        RunAction::Store(q) => assert_eq!(q.binds[5], Bind::Text("180".to_string())),
        other => panic!("{other:?}"),
    }
    let (s, a) = step(&p, PAYER_HEX, s, RunEvent::Stored);
    match a {
        RunAction::Prune(q) => {
            assert_eq!(q.binds, vec![Bind::Text(PAYER_HEX.to_string()), Bind::Int(8)]);
            assert!(rows.iter().all(|r| r.payer_address == PAYER_HEX && r.timestamp_ns <= 8));
        }
        other => panic!("{other:?}"),
    }
    let (s, a) = step(&p, PAYER_HEX, s, RunEvent::Pruned);
    assert!(matches!(s, RunState::Finished));
    assert!(matches!(a, RunAction::Finish(Ok(()))));
}

/// A run that has come to the stored floor.
fn at_local_floor(p: &AggregatorPlan) -> RunState {
    let (s, _) = start(PAYER_HEX);
    let (s, _) = step(p, PAYER_HEX, s, RunEvent::Rows(vec![row(5, "10")]));
    step(p, PAYER_HEX, s, RunEvent::Collection(Bytes32 { bytes: [0xcc; 32] })).0
}

fn posted(a: RunAction) -> (u128, Option<TokensCollectedError>) {
    match a {
        RunAction::Post { request, chain_error, .. } => (request.previous_rav_value, chain_error),
        other => panic!("{other:?}"),
    }
}

#[test]
fn run_without_rpc_uses_the_stored_floor() {
    let p = the_plan(false);
    let (_, a) = step(&p, PAYER_HEX, at_local_floor(&p), RunEvent::LocalFloor(Some(Some("7".to_string()))));
    assert_eq!(posted(a), (7, None));
    let (_, a) = step(&p, PAYER_HEX, at_local_floor(&p), RunEvent::LocalFloor(Some(None)));
    assert_eq!(posted(a), (0, None));
    let (_, a) = step(&p, PAYER_HEX, at_local_floor(&p), RunEvent::LocalFloor(None));
    assert_eq!(posted(a), (0, None));
}

#[test]
fn run_survives_a_failed_chain_query() {
    let p = the_plan(true);
    let local = || RunEvent::LocalFloor(Some(Some("7".to_string())));
    let (s, _) = step(&p, PAYER_HEX, at_local_floor(&p), local());
    let (_, a) = step(&p, PAYER_HEX, s, RunEvent::ChainReply(Err("timed out".to_string())));
    let unreachable = TokensCollectedError::Unreachable { reason: "timed out".to_string() };
    assert_eq!(posted(a), (7, Some(unreachable)));
    let (s, _) = step(&p, PAYER_HEX, at_local_floor(&p), local());
    let (_, a) = step(&p, PAYER_HEX, s, RunEvent::ChainReply(Ok(b"{}".to_vec())));
    let no_result = TokensCollectedError::NoResult { reply: "{}".to_string() };
    assert_eq!(posted(a), (7, Some(no_result)));
}

fn outcome(s: RunState, e: RunEvent) -> Result<(), PayerError> {
    match step(&the_plan(true), PAYER_HEX, s, e) {
        (RunState::Finished, RunAction::Finish(r)) => r,
        other => panic!("{other:?}"),
    }
}

#[test]
fn run_ends_early() {
    assert!(outcome(RunState::Rows, RunEvent::Rows(vec![])).is_ok());
    let failed = |s| outcome(s, RunEvent::Failed("gone".to_string())).unwrap_err().message();
    assert_eq!(failed(RunState::Rows), "gone");
    assert_eq!(failed(RunState::Answer), "POST http://gw/rav/aggregate failed: gone");
    assert_eq!(failed(RunState::Voucher), "gone");
    assert_eq!(failed(RunState::Stored { update: rav_update(&voucher(1, 1), 1) }), "gone");
    assert_eq!(failed(RunState::Pruned), "gone");
    let (s, a) = step(&the_plan(true), PAYER_HEX, RunState::Answer, RunEvent::Status(503));
    assert!(matches!(a, RunAction::ReadRefusal));
    let refusal = RunEvent::Refusal {
        status: "503 Service Unavailable".to_string(),
        text: "busy".to_string(),
    };
    assert_eq!(
        outcome(s, refusal).unwrap_err().message(),
        "aggregator returned 503 Service Unavailable: busy"
    );
}

#[test]
fn run_refuses_a_broken_payer() {
    let (s, _) = start("zzz");
    match step(&the_plan(true), "zzz", s, RunEvent::Rows(vec![row(5, "10")])) {
        (RunState::Finished, RunAction::Finish(Err(e))) => {
            assert_eq!(e.message(), "invalid payer address in db: zzz");
        }
        other => panic!("{other:?}"),
    }
}
