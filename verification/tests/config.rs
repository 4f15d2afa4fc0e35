use dispatch::config::{
    config_path, default_base_price_per_cu, default_burst, default_capabilities,
    default_concurrent_k, default_deposit_per_provider, default_discovery_interval_secs,
    default_grt_token_address, default_host, default_min_escrow_threshold,
    default_payments_escrow_address, default_port, default_probe_interval_secs,
    default_provision_interval_secs, default_quorum_k, default_rps, default_seahorn_price_grt_wei,
    default_tap_chain_id, default_tap_verifying_contract, deserialize_u128, AmountError,
    CapabilityTier, U128Helper, CONFIG_PATH_VARIABLE,
};
use dispatch::decimal::{parse_or_zero, parse_u128, to_decimal, DecimalError};
use dispatch::primitives::Address;

/// Pricing proof for default base_price_per_cu = 4_000_000_000_000 GRT wei/CU.
///
/// GRT has 18 decimal places, so 4e12 / 1e18 = 4e-6 GRT per CU.
/// The gateway dispatches to 3 providers concurrently; all receive a receipt.
/// Effective consumer cost = per-provider receipt times 3.
#[test]
fn pricing_math() {
    let base = default_base_price_per_cu();
    assert_eq!(base, 4_000_000_000_000_u128);

    // 1M CUs in GRT wei = exactly 4 GRT (4e18 wei)
    assert_eq!(base * 1_000_000, 4_000_000_000_000_000_000_u128);

    // Per-method receipt values (GRT wei, single provider)
    assert_eq!(base, 4_000_000_000_000_u128); // eth_blockNumber
    assert_eq!(5_u128 * base, 20_000_000_000_000_u128); // eth_getBalance
    assert_eq!(10_u128 * base, 40_000_000_000_000_u128); // eth_call
    assert_eq!(20_u128 * base, 80_000_000_000_000_u128); // eth_getLogs

    // USD cost per million calls (3 concurrent, $0.09/GRT):
    // receipt_wei * 3 * 1e6 * $0.09 / 1e18
    let factor: f64 = 3.0 * 1_000_000.0 * 0.09 / 1e18;
    let eth_call_usd_per_m = 40_000_000_000_000_f64 * factor;
    let eth_get_logs_usd_per_m = 80_000_000_000_000_f64 * factor;
    assert!(
        (eth_call_usd_per_m - 10.80).abs() < 0.01,
        "eth_call: ${eth_call_usd_per_m:.2}/M"
    );
    assert!(
        (eth_get_logs_usd_per_m - 21.60).abs() < 0.01,
        "eth_getLogs: ${eth_get_logs_usd_per_m:.2}/M"
    );
}

#[test]
fn defaults() {
    assert_eq!(default_capabilities(), vec![CapabilityTier::Standard]);
    assert_eq!(default_host(), "0.0.0.0");
    assert_eq!(default_port(), 8080);
    assert_eq!(default_tap_chain_id(), 42161);
    assert_eq!(default_probe_interval_secs(), 10);
    assert_eq!(default_concurrent_k(), 3);
    assert_eq!(default_quorum_k(), 3);
    assert_eq!(default_discovery_interval_secs(), 60);
    assert_eq!(default_rps(), 100);
    assert_eq!(default_burst(), 20);
    assert_eq!(default_deposit_per_provider(), 100_000_000_000_000_000_000);
    assert_eq!(default_min_escrow_threshold(), 10_000_000_000_000_000_000);
    assert_eq!(default_provision_interval_secs(), 600);
    assert_eq!(default_seahorn_price_grt_wei(), 10_000_000_000_000);
}

#[test]
fn default_addresses() {
    assert_eq!(
        default_tap_verifying_contract().stored_text(),
        "0x8f69f5c07477ac46fbc491b1e6d91e2bb0111a9e"
    );
    assert_eq!(
        default_grt_token_address().stored_text(),
        "0x9623063377ad1b27544c965ccd7342f7ea7e88c7"
    );
    assert_eq!(
        default_payments_escrow_address().stored_text(),
        "0xf6fcc27aaf1fcd8b254498c9794451d82afc673e"
    );
}

#[test]
fn configuration_file() {
    assert_eq!(CONFIG_PATH_VARIABLE, "DISPATCH_GATEWAY_CONFIG");
    assert_eq!(config_path(None), "gateway.toml");
    assert_eq!(config_path(Some("/etc/gw.toml".to_string())), "/etc/gw.toml");
}

#[test]
fn amounts_from_integers_and_texts() {
    assert_eq!(deserialize_u128(&U128Helper::Int(0)), Ok(0));
    assert_eq!(deserialize_u128(&U128Helper::Int(i64::MAX)), Ok(9_223_372_036_854_775_807));
    assert_eq!(deserialize_u128(&U128Helper::Int(-1)), Err(AmountError::Negative));
    let big = "340282366920938463463374607431768211455".to_string();
    assert_eq!(deserialize_u128(&U128Helper::Str(big)), Ok(u128::MAX));
    assert_eq!(
        deserialize_u128(&U128Helper::Str("12x".to_string())),
        Err(AmountError::Text(DecimalError::InvalidDigit))
    );
}

#[test]
fn amount_forms_agree() {
    for v in [0i64, 7, 4_000_000_000_000, i64::MAX] {
        let quoted = U128Helper::Str(to_decimal(v as u128));
        assert_eq!(deserialize_u128(&U128Helper::Int(v)), deserialize_u128(&quoted));
    }
}

#[test]
fn amount_errors_in_words() {
    let negative = i64::try_from(-1i64).map(u128::try_from).unwrap().unwrap_err();
    assert_eq!(AmountError::Negative.message(), negative.to_string());
    for text in ["", "x", "340282366920938463463374607431768211456"] {
        let theirs = text.parse::<u128>().unwrap_err().to_string();
        assert_eq!(parse_u128(text).unwrap_err().message(), theirs);
        assert_eq!(AmountError::Text(parse_u128(text).unwrap_err()).message(), theirs);
    }
}

#[test]
fn decimal_reading_agrees_with_the_standard_library() {
    let texts = [
        "", "+", "-", "0", "00", "+0", "+17", "-17", "17 ", " 17", "1_000", "++1", "1+", "9",
        "340282366920938463463374607431768211455",
        "340282366920938463463374607431768211456",
        "0000340282366920938463463374607431768211455",
        "3402823669209384634633746074317682114550",
        "340282366920938463463374607431768211456x",
        "34028236692093846346337460743176821145x",
        "99999999999999999999999999999999999999999999x",
        "\u{0661}",
    ];
    for text in texts {
        match (parse_u128(text), text.parse::<u128>()) {
            (Ok(a), Ok(b)) => assert_eq!(a, b, "{text}"),
            (Err(a), Err(b)) => assert_eq!(a.message(), b.to_string(), "{text}"),
            (a, b) => panic!("{text}: {a:?} against {b:?}"),
        }
    }
    assert_eq!(parse_u128(""), Err(DecimalError::Empty));
    assert_eq!(parse_u128("+"), Err(DecimalError::InvalidDigit));
    assert_eq!(
        parse_u128("340282366920938463463374607431768211456"),
        Err(DecimalError::PosOverflow)
    );
}

#[test]
fn decimal_round_trip() {
    for v in [0u128, 9, 10, 99, 100, 12_345_678_901_234_567_890, u128::MAX] {
        assert_eq!(to_decimal(v), v.to_string());
        assert_eq!(parse_u128(&to_decimal(v)), Ok(v));
        assert_eq!(parse_or_zero(&to_decimal(v)), v);
    }
    assert_eq!(parse_or_zero("not a number"), 0);
}

#[test]
fn address_texts() {
    let a = Address::parse("0xd8dA6BF26964aF9D7eEd9e03E53415D37aA96045").unwrap();
    assert_eq!(a.stored_text(), "0xd8da6bf26964af9d7eed9e03e53415d37aa96045");
    assert_eq!(Address::parse(&a.stored_text()), Some(a));
    assert_eq!(Address::parse("0Xd8dA6BF26964aF9D7eEd9e03E53415D37aA96045"), Some(a));
    assert_eq!(Address::parse("d8da6bf26964af9d7eed9e03e53415d37aa96045"), Some(a));
    // A wrong checksum is no error.
    assert_eq!(Address::parse("0xD8dA6BF26964aF9D7eEd9e03E53415D37aA96045"), Some(a));
    assert_eq!(Address::parse(""), None);
    assert_eq!(Address::parse("0x"), None);
    assert_eq!(Address::parse("0xd8da6bf26964af9d7eed9e03e53415d37aa960"), None);
    assert_eq!(Address::parse("0xd8da6bf26964af9d7eed9e03e53415d37aa9604g"), None);
    assert_eq!(Address::parse("0x0xd8da6bf26964af9d7eed9e03e53415d37aa960"), None);
    assert_ne!(Some(a), Address::parse("0xd8da6bf26964af9d7eed9e03e53415d37aa96046"));
}
