use dispatch::aggregate::{
    aggregate, mismatch_text, respond, signers_needed, AggregateError, AggregateRequest, RavTerms,
    MAX_BODY_BYTES,
};
use dispatch::primitives::{Address, Bytes32};
use dispatch::tap::{Rav, Receipt, SignedRav, SignedReceipt};

fn address(b: u8) -> Address {
    Address { bytes: [b; 20] }
}

const SIGNER: u8 = 0x99;
const PROVIDER: u8 = 0x22;
const SERVICE: u8 = 0x33;

fn receipt(timestamp_ns: u64, value: u128) -> SignedReceipt {
    SignedReceipt {
        receipt: Receipt {
            data_service: address(SERVICE),
            service_provider: address(PROVIDER),
            timestamp_ns,
            nonce: 1,
            value,
            metadata: vec![],
        },
        signature: "sig".to_string(),
    }
}

fn request(receipts: Vec<SignedReceipt>, previous_rav_value: u128) -> AggregateRequest {
    AggregateRequest {
        service_provider: address(PROVIDER),
        payer: Some(address(0x11)),
        receipts,
        previous_rav_value,
    }
}

fn signed_by_gateway(request: &AggregateRequest) -> Vec<Result<Address, String>> {
    request.receipts.iter().map(|_| Ok(address(SIGNER))).collect()
}

fn terms(request: &AggregateRequest) -> Result<RavTerms, AggregateError> {
    aggregate(request, &signed_by_gateway(request), &address(SIGNER))
}

#[test]
fn sums_values_and_takes_latest_timestamp() {
    let r = request(vec![receipt(5, 10), receipt(9, 20), receipt(7, 30)], 0);
    let t = terms(&r).unwrap();
    assert_eq!(t.value_aggregate, 60);
    assert_eq!(t.timestamp_ns, 9);
    assert_eq!(t.payer, address(0x11));
    assert_eq!(t.service_provider, address(PROVIDER));
    assert_eq!(t.data_service, address(SERVICE));
}

#[test]
fn floor_is_added() {
    let r = request(vec![receipt(5, 10)], 1_000);
    assert_eq!(terms(&r).unwrap().value_aggregate, 1_010);
}

#[test]
fn value_saturates() {
    let r = request(vec![receipt(5, 10), receipt(6, u128::MAX)], 1);
    assert_eq!(terms(&r).unwrap().value_aggregate, u128::MAX);
}

#[test]
fn value_never_falls_below_the_floor() {
    for floor in [0u128, 1, u128::MAX - 1, u128::MAX] {
        let r = request(vec![receipt(1, 0), receipt(2, 3)], floor);
        assert!(terms(&r).unwrap().value_aggregate >= floor);
    }
}

#[test]
fn two_rounds_come_to_one() {
    let first = terms(&request(vec![receipt(1, 5)], 100)).unwrap();
    let second = terms(&request(vec![receipt(2, 7)], first.value_aggregate)).unwrap();
    let at_once = terms(&request(vec![receipt(1, 5), receipt(2, 7)], 100)).unwrap();
    assert_eq!(second.value_aggregate, at_once.value_aggregate);
    assert_eq!(second.value_aggregate, 112);
}

#[test]
fn order_is_irrelevant() {
    let a = terms(&request(vec![receipt(1, 5), receipt(2, 7)], 0)).unwrap();
    let b = terms(&request(vec![receipt(2, 7), receipt(1, 5)], 0)).unwrap();
    assert_eq!(a.value_aggregate, b.value_aggregate);
    assert_eq!(a.timestamp_ns, b.timestamp_ns);
}

#[test]
fn payer_falls_back_to_the_gateway() {
    let mut r = request(vec![receipt(1, 5)], 0);
    r.payer = None;
    assert_eq!(terms(&r).unwrap().payer, address(SIGNER));
}

#[test]
fn empty_batch_is_refused() {
    let e = terms(&request(vec![], 5)).unwrap_err();
    assert!(matches!(e, AggregateError::EmptyBatch));
    assert_eq!(e.message(), "receipts batch is empty");
}

#[test]
fn mixed_data_service_is_refused() {
    let mut odd = receipt(2, 7);
    odd.receipt.data_service = address(0xab);
    let e = terms(&request(vec![receipt(1, 5), odd], 0)).unwrap_err();
    assert_eq!(
        e.message(),
        "mixed data_service in batch: expected 0x3333333333333333333333333333333333333333, \
         got 0xABaBaBaBABabABabAbAbABAbABabababaBaBABaB"
    );
}

#[test]
fn foreign_service_provider_is_refused() {
    let mut odd = receipt(2, 7);
    odd.receipt.service_provider = address(0xab);
    let e = terms(&request(vec![odd], 0)).unwrap_err();
    assert_eq!(
        e.message(),
        "receipt service_provider mismatch: expected 0x2222222222222222222222222222222222222222, \
         got 0xABaBaBaBABabABabAbAbABAbABabababaBaBABaB"
    );
}

#[test]
fn unrecoverable_signature_is_refused() {
    let r = request(vec![receipt(1, 5)], 0);
    let e = aggregate(&r, &vec![Err("bad length".to_string())], &address(SIGNER)).unwrap_err();
    assert_eq!(e.message(), "invalid receipt signature: bad length");
}

#[test]
fn foreign_signer_is_refused() {
    let r = request(vec![receipt(1, 5), receipt(2, 6)], 0);
    let recovered = vec![Ok(address(SIGNER)), Ok(address(0xab))];
    let e = aggregate(&r, &recovered, &address(SIGNER)).unwrap_err();
    assert_eq!(
        e.message(),
        "receipt not signed by this gateway: signer=0xABaBaBaBABabABabAbAbABAbABabababaBaBABaB"
    );
}

#[test]
fn addresses_are_shown_with_their_checksum() {
    let mut bytes = [0u8; 20];
    for (i, b) in bytes.iter_mut().enumerate() {
        *b = (i * 37 + 11) as u8;
    }
    for who in [Address { bytes }, address(0xff), address(0x00), address(0xde)] {
        let digits = hex::encode(who.bytes);
        let digest = alloy_primitives::keccak256(digits.as_bytes());
        let mut expected = "receipt not signed by this gateway: signer=0x".to_string();
        for (i, c) in digits.chars().enumerate() {
            let half = if i % 2 == 0 { digest[i / 2] / 16 } else { digest[i / 2] % 16 };
            expected.push(if half >= 8 { c.to_ascii_uppercase() } else { c });
        }
        assert_eq!(AggregateError::ForeignSigner { signer: who }.message(), expected);
    }
}

#[test]
fn first_fault_is_reported() {
    let mut odd = receipt(2, 7);
    odd.receipt.data_service = address(0xab);
    let r = request(vec![receipt(1, 5), odd], 0);
    let recovered = vec![Err("first".to_string()), Ok(address(SIGNER))];
    let e = aggregate(&r, &recovered, &address(SIGNER)).unwrap_err();
    assert!(matches!(e, AggregateError::InvalidSignature { .. }));
}

#[test]
fn data_service_comes_before_provider_and_signature() {
    let mut odd = receipt(2, 7);
    odd.receipt.data_service = address(0xab);
    odd.receipt.service_provider = address(0xab);
    let r = request(vec![receipt(1, 5), odd], 0);
    let recovered = vec![Ok(address(SIGNER)), Err("late".to_string())];
    let e = aggregate(&r, &recovered, &address(SIGNER)).unwrap_err();
    assert!(matches!(e, AggregateError::MixedDataService { .. }));
}

#[test]
fn signers_are_needed_up_to_the_first_stray_receipt() {
    assert_eq!(signers_needed(&request(vec![], 0)), 0);
    assert_eq!(signers_needed(&request(vec![receipt(1, 5), receipt(2, 6)], 0)), 2);

    let mut other_service = receipt(2, 7);
    other_service.receipt.data_service = address(0xab);
    let r = request(vec![receipt(1, 5), other_service, receipt(3, 8)], 0);
    assert_eq!(signers_needed(&r), 1);
    let e = aggregate(&r, &vec![Ok(address(SIGNER))], &address(SIGNER)).unwrap_err();
    assert!(matches!(e, AggregateError::MixedDataService { .. }));

    let mut other_provider = receipt(1, 5);
    other_provider.receipt.service_provider = address(0xab);
    let r = request(vec![other_provider, receipt(2, 6)], 0);
    assert_eq!(signers_needed(&r), 0);
    let e = aggregate(&r, &vec![], &address(SIGNER)).unwrap_err();
    assert!(matches!(e, AggregateError::ServiceProviderMismatch { .. }));
}

#[test]
fn voucher_carries_the_terms() {
    let t = terms(&request(vec![receipt(5, 10)], 0)).unwrap();
    let rav: Rav = t.rav(Bytes32 { bytes: [7; 32] });
    assert_eq!(rav.collection_id, Bytes32 { bytes: [7; 32] });
    assert_eq!(rav.payer, address(0x11));
    assert_eq!(rav.service_provider, address(PROVIDER));
    assert_eq!(rav.data_service, address(SERVICE));
    assert_eq!(rav.timestamp_ns, 5);
    assert_eq!(rav.value_aggregate, 10);
    assert!(rav.metadata.is_empty());
}

#[test]
fn answer_or_signing_failure() {
    let rav = terms(&request(vec![receipt(5, 10)], 0)).unwrap().rav(Bytes32 { bytes: [7; 32] });
    let signed = SignedRav { rav, signature: "0xsig".to_string() };
    assert_eq!(respond(Ok(signed)).unwrap().signed_rav.signature, "0xsig");
    let e = respond(Err("no key".to_string())).unwrap_err();
    assert_eq!(e.message(), "RAV signing failed: no key");
}

#[test]
fn texts_and_limits() {
    assert_eq!(mismatch_text("expected ", "a", "b"), "expected a, got b");
    assert_eq!(MAX_BODY_BYTES, 67_108_864);
}
