use dispatch::primitives::{Address, Bytes32};
use dispatch::tokens_collected::{
    decode_result, encode_call, read_member, read_reply, read_word, tokens_collected_call,
    tokens_collected_call_data, TokensCollectedError, SIGNATURE,
};

fn address(b: u8) -> Address {
    Address { bytes: [b; 20] }
}

fn word(b: u8) -> Bytes32 {
    Bytes32 { bytes: [b; 32] }
}

fn arguments() -> String {
    let mut s = String::new();
    s.push_str("0000000000000000000000001111111111111111111111111111111111111111");
    s.push_str("cccccccccccccccccccccccccccccccccccccccccccccccccccccccccccccccc");
    s.push_str("0000000000000000000000002222222222222222222222222222222222222222");
    s.push_str("0000000000000000000000003333333333333333333333333333333333333333");
    s
}

#[test]
fn call_data_is_selector_and_words() {
    let data = tokens_collected_call_data(&address(0x11), &word(0xcc), &address(0x22), &address(0x33));
    assert_eq!(data.len(), 132);
    assert_eq!(hex::encode(&data), format!("181250ff{}", arguments()));
    assert_eq!(SIGNATURE, "tokensCollected(address,bytes32,address,address)");
}

#[test]
fn call_data_under_a_given_digest() {
    let data = encode_call(&word(0xab), &address(0x11), &word(0xcc), &address(0x22), &address(0x33));
    assert_eq!(hex::encode(&data), format!("abababab{}", arguments()));
}

#[test]
fn json_rpc_request() {
    let call = tokens_collected_call(
        &address(0xab),
        &address(0x11),
        &word(0xcc),
        &address(0x22),
        &address(0x33),
    );
    assert_eq!(call.jsonrpc, "2.0");
    assert_eq!(call.id, 1);
    assert_eq!(call.method, "eth_call");
    assert_eq!(call.to, "0xabababababababababababababababababababab");
    assert_eq!(call.data, format!("0x181250ff{}", arguments()));
    assert_eq!(call.block, "latest");
}

fn hex_word(tail: &str) -> String {
    let mut s = "0x".to_string();
    for _ in 0..(64 - tail.len()) {
        s.push('0');
    }
    s.push_str(tail);
    s
}

#[test]
fn result_word_is_a_number() {
    assert_eq!(decode_result(&hex_word("")), Ok(0));
    assert_eq!(decode_result(&hex_word("0de0b6b3a7640000")), Ok(1_000_000_000_000_000_000));
    assert_eq!(
        decode_result(&hex_word("ffffffffffffffffffffffffffffffff")),
        Ok(u128::MAX)
    );
}

#[test]
fn result_beyond_128_bits_is_capped() {
    assert_eq!(
        decode_result(&hex_word("0100000000000000000000000000000000")),
        Ok(u128::MAX)
    );
}

#[test]
fn only_the_first_word_counts() {
    let mut s = hex_word("05");
    s.push_str("ffff");
    assert_eq!(decode_result(&s), Ok(5));
}

#[test]
fn every_prefix_is_taken_off() {
    let bare = &hex_word("05")[2..];
    assert_eq!(decode_result(bare), Ok(5));
    assert_eq!(decode_result(&format!("0x0x{bare}")), Ok(5));
}

fn not_hex(reason: &str) -> Result<u128, TokensCollectedError> {
    Err(TokensCollectedError::NotHex { reason: reason.to_string() })
}

fn no_result(reply: &str) -> Result<u128, TokensCollectedError> {
    Err(TokensCollectedError::NoResult { reply: reply.to_string() })
}

#[test]
fn bad_results() {
    assert_eq!(decode_result("0x"), Err(TokensCollectedError::TooShort { bytes: 0 }));
    assert_eq!(decode_result("0x0102"), Err(TokensCollectedError::TooShort { bytes: 2 }));
    assert_eq!(decode_result("0x123"), not_hex("Odd number of digits"));
    assert_eq!(decode_result("0x1z"), not_hex("Invalid character 'z' at position 1"));
}

#[test]
fn decoded_results() {
    let mut bytes = vec![0; 31];
    bytes.push(7);
    assert_eq!(read_word(Ok(bytes.clone())), Ok(7));
    bytes.push(9);
    assert_eq!(read_word(Ok(bytes)), Ok(7));
    assert_eq!(read_word(Ok(vec![1; 31])), Err(TokensCollectedError::TooShort { bytes: 31 }));
    assert_eq!(read_word(Ok(vec![1; 32])), Ok(u128::MAX));
    assert_eq!(read_word(Err("why".to_string())), not_hex("why"));
}

#[test]
fn replies() {
    let good = format!("{{\"jsonrpc\":\"2.0\",\"id\":1,\"result\":\"{}\"}}", hex_word("2a"));
    assert_eq!(read_reply(good.as_bytes()), Ok(42));
    assert_eq!(read_reply(b"{ \"error\": 1 }"), no_result("{\"error\":1}"));
    assert_eq!(read_reply(b"{\"result\":5}"), no_result("{\"result\":5}"));
    assert_eq!(read_reply(b"[1, 2]"), no_result("[1,2]"));
    assert_eq!(
        read_reply(b"<html>"),
        Err(TokensCollectedError::NotJson {
            reason: "expected value at line 1 column 1".to_string()
        })
    );
    assert_eq!(
        read_reply(b"{\"result\":\"0x01\"}"),
        Err(TokensCollectedError::TooShort { bytes: 1 })
    );
}

#[test]
fn read_replies() {
    let reply = |member: Option<String>| Ok((member, "all".to_string()));
    assert_eq!(read_member(reply(Some(hex_word("2a")))), Ok(42));
    assert_eq!(read_member(reply(None)), no_result("all"));
    assert_eq!(
        read_member(Err("why".to_string())),
        Err(TokensCollectedError::NotJson { reason: "why".to_string() })
    );
}

#[test]
fn errors_in_words() {
    let message = |body: &[u8]| read_reply(body).unwrap_err().message();
    assert_eq!(
        message(b"<html>"),
        "error decoding response body: expected value at line 1 column 1"
    );
    assert_eq!(
        message(b"{\"error\":{\"code\":-32000}}"),
        "eth_call returned no result: {\"error\":{\"code\":-32000}}"
    );
    assert_eq!(message(b"{\"result\":\"0x1\"}"), "Odd number of digits");
    assert_eq!(message(b"{\"result\":\"0x0102\"}"), "eth_call result too short (2 bytes)");
    let unreachable = TokensCollectedError::Unreachable { reason: "timed out".to_string() };
    assert_eq!(unreachable.message(), "timed out");
}
