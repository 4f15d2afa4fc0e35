//! The on-chain high-water mark: `GraphTallyCollector.tokensCollected`, asked over JSON-RPC.
use alloy_primitives::B256;
use alloy_sol_types::SolValue;
use vstd::prelude::*;

use crate::decimal;
use crate::primitives;
use crate::primitives::{Address, Bytes32};
use crate::text;

verus! {

/// The getter of `tokensCollected[dataService][collectionId][receiver][payer]`.
pub const SIGNATURE: &'static str = "tokensCollected(address,bytes32,address,address)";

/// One JSON-RPC `eth_call`: `params` are an object of `to` and `data`, then `block`.
#[derive(Debug, Clone)]
pub struct EthCall {
    pub jsonrpc: String,
    pub id: u64,
    pub method: String,
    pub to: String,
    pub data: String,
    pub block: String,
}

/// Why the amount is not known.
#[derive(Debug, Clone, PartialEq, Eq)]
pub enum TokensCollectedError {
    /// The endpoint gave no reply.
    Unreachable { reason: String },
    /// The reply is no JSON.
    NotJson { reason: String },
    /// The reply has no `result`, or one that is no text.
    NoResult { reply: String },
    /// The result is not hexadecimal.
    NotHex { reason: String },
    /// The result has fewer than the 32 bytes of one word.
    TooShort { bytes: usize },
}

/// What a [`TokensCollectedError`] holds.
pub enum TokensCollectedErrorView {
    Unreachable { reason: Seq<char> },
    NotJson { reason: Seq<char> },
    NoResult { reply: Seq<char> },
    NotHex { reason: Seq<char> },
    TooShort { bytes: nat },
}

impl View for TokensCollectedError {
    type V = TokensCollectedErrorView;

    open spec fn view(&self) -> TokensCollectedErrorView {
        match *self {
            TokensCollectedError::Unreachable { reason } => {
                TokensCollectedErrorView::Unreachable { reason: reason@ }
            },
            TokensCollectedError::NotJson { reason } => {
                TokensCollectedErrorView::NotJson { reason: reason@ }
            },
            TokensCollectedError::NoResult { reply } => {
                TokensCollectedErrorView::NoResult { reply: reply@ }
            },
            TokensCollectedError::NotHex { reason } => {
                TokensCollectedErrorView::NotHex { reason: reason@ }
            },
            TokensCollectedError::TooShort { bytes } => {
                TokensCollectedErrorView::TooShort { bytes: bytes as nat }
            },
        }
    }
}

/// What an outcome holds.
pub open spec fn outcome_view(r: Result<u128, TokensCollectedError>) -> Result<
    u128,
    TokensCollectedErrorView,
> {
    match r {
        Ok(v) => Ok(v),
        Err(e) => Err(e@),
    }
}

impl TokensCollectedError {
    /// What the error says in words.
    pub open spec fn text(self) -> Seq<char> {
        match self {
            TokensCollectedError::Unreachable { reason } => reason@,
            TokensCollectedError::NotJson { reason } => "error decoding response body: "@ + reason@,
            TokensCollectedError::NoResult { reply } => "eth_call returned no result: "@ + reply@,
            TokensCollectedError::NotHex { reason } => reason@,
            TokensCollectedError::TooShort { bytes } => "eth_call result too short ("@
                + decimal::decimal(bytes as nat) + " bytes)"@,
        }
    }

    /// The error in words.
    pub fn message(&self) -> (s: String)
        ensures
            s@ == self.text(),
    {
        match self {
            TokensCollectedError::Unreachable { reason } => reason.clone(),
            TokensCollectedError::NotJson { reason } => text::join(
                "error decoding response body: ",
                reason.as_str(),
            ),
            TokensCollectedError::NoResult { reply } => text::join(
                "eth_call returned no result: ",
                reply.as_str(),
            ),
            TokensCollectedError::NotHex { reason } => reason.clone(),
            TokensCollectedError::TooShort { bytes } => {
                let mut s = "eth_call result too short (".to_owned();
                s.append(decimal::to_decimal(*bytes as u128).as_str());
                s.append(" bytes)");
                s
            },
        }
    }
}

/// What a JSON text is read as: an error in words where it is no JSON, else the text value
/// under the key, where there is one, and the whole in compact form.
pub uninterp spec fn json_reply(body: Seq<u8>, key: Seq<char>) -> Result<
    (Option<Seq<char>>, Seq<char>),
    Seq<char>,
>;

/// What a reading of a JSON text holds.
pub open spec fn reply_view(r: Result<(Option<String>, String), String>) -> Result<
    (Option<Seq<char>>, Seq<char>),
    Seq<char>,
> {
    match r {
        Err(reason) => Err(reason@),
        Ok((None, shown)) => Ok((None, shown@)),
        Ok((Some(member), shown)) => Ok((Some(member@), shown@)),
    }
}

/// The arguments of the getter, each as one word.
pub open spec fn call_arguments(
    data_service: Seq<u8>,
    collection_id: Seq<u8>,
    receiver: Seq<u8>,
    payer: Seq<u8>,
) -> Seq<u8> {
    primitives::address_word(data_service) + collection_id + primitives::address_word(receiver)
        + primitives::address_word(payer)
}

/// The call data under a signature's digest: the first four bytes of it, then the arguments.
pub open spec fn call_data_under(digest: Seq<u8>, arguments: Seq<u8>) -> Seq<u8> {
    digest.take(4) + arguments
}

/// The call data of the getter.
pub open spec fn call_data(
    data_service: Seq<u8>,
    collection_id: Seq<u8>,
    receiver: Seq<u8>,
    payer: Seq<u8>,
) -> Seq<u8> {
    call_data_under(
        primitives::keccak256_digest(vstd::utf8::encode_utf8(SIGNATURE@)),
        call_arguments(data_service, collection_id, receiver, payer),
    )
}

/// The hexadecimal part of a result: all of it but for every `0x` at its start.
pub open spec fn result_digits(result: Seq<char>) -> Seq<char> {
    text::trim_start_pair(result, '0', 'x')
}

/// The amount that the decoded result stands for: its first word, capped at 128 bits.
pub open spec fn word_amount(decoded: Result<Seq<u8>, Seq<char>>) -> Result<
    u128,
    TokensCollectedErrorView,
> {
    match decoded {
        Err(reason) => Err(TokensCollectedErrorView::NotHex { reason }),
        Ok(bytes) => if bytes.len() < 32 {
            Err(TokensCollectedErrorView::TooShort { bytes: bytes.len() })
        } else {
            Ok(primitives::saturated(primitives::big_endian(bytes.take(32))))
        },
    }
}

/// The amount that the result of the call stands for.
pub open spec fn result_amount(result: Seq<char>) -> Result<u128, TokensCollectedErrorView> {
    let digits = result_digits(result);
    word_amount(
        if primitives::is_hex(digits) {
            Ok(primitives::hex_bytes(digits))
        } else {
            Err(primitives::hex_decode_error(digits))
        },
    )
}

/// The amount that a reply stands for, given what its JSON is read as.
pub open spec fn reply_amount(reply: Result<(Option<Seq<char>>, Seq<char>), Seq<char>>) -> Result<
    u128,
    TokensCollectedErrorView,
> {
    match reply {
        Err(reason) => Err(TokensCollectedErrorView::NotJson { reason }),
        Ok((None, shown)) => Err(TokensCollectedErrorView::NoResult { reply: shown }),
        Ok((Some(result), _)) => result_amount(result),
    }
}

/// Whether `call` asks the contract at `to` with the given call data, as of the latest block.
pub open spec fn asks(call: EthCall, to: Seq<u8>, data: Seq<u8>) -> bool {
    &&& call.jsonrpc@ == "2.0"@
    &&& call.id == 1
    &&& call.method@ == "eth_call"@
    &&& call.to@ == primitives::prefixed_hex(to)
    &&& call.data@ == primitives::prefixed_hex(data)
    &&& call.block@ == "latest"@
}

/// `SolValue::abi_encode_sequence` of alloy-sol-types on `(address, bytes32, address, address)`:
/// each of the four static values as one 32-byte word, in order, an address padded with
/// zeros on the left.
#[verifier::external_body]
fn abi_encode(
    data_service: &Address,
    collection_id: &Bytes32,
    receiver: &Address,
    payer: &Address,
) -> (bytes: Vec<u8>)
    ensures
        bytes@ == call_arguments(data_service@, collection_id@, receiver@, payer@),
{
    (
        alloy_primitives::Address::from(data_service.bytes),
        B256::from(collection_id.bytes),
        alloy_primitives::Address::from(receiver.bytes),
        alloy_primitives::Address::from(payer.bytes),
    ).abi_encode_sequence()
}

/// `serde_json::from_slice` into a `Value`: the error in words, or what `Value` gives as text
/// under a key, and `Display` of the whole `Value`. The result depends on the two arguments
/// alone.
#[verifier::external_body]
fn json_text(body: &[u8], key: &str) -> (r: Result<(Option<String>, String), String>)
    ensures
        reply_view(r) == json_reply(body@, key@),
{
    let value: Result<serde_json::Value, _> = serde_json::from_slice(body);
    value.map(|v| (v[key].as_str().map(|s| s.to_owned()), v.to_string())).map_err(|e| e.to_string())
}

/// The call data of a getter with the given digest of its signature.
pub fn encode_call(
    digest: &Bytes32,
    data_service: &Address,
    collection_id: &Bytes32,
    receiver: &Address,
    payer: &Address,
) -> (data: Vec<u8>)
    ensures
        data@ == call_data_under(
            digest@,
            call_arguments(data_service@, collection_id@, receiver@, payer@),
        ),
{
    let mut data: Vec<u8> = vec![digest.bytes[0], digest.bytes[1], digest.bytes[2], digest.bytes[3]];
    assert(data@ =~= digest@.take(4));
    let mut arguments = abi_encode(data_service, collection_id, receiver, payer);
    data.append(&mut arguments);
    data
}

/// The call data of the getter for the given tuple.
pub fn tokens_collected_call_data(
    data_service: &Address,
    collection_id: &Bytes32,
    receiver: &Address,
    payer: &Address,
) -> (data: Vec<u8>)
    ensures
        data@ == call_data(data_service@, collection_id@, receiver@, payer@),
{
    let digest = primitives::keccak256(SIGNATURE.as_bytes());
    encode_call(&digest, data_service, collection_id, receiver, payer)
}

/// The request that asks the collector contract for the tokens collected so far.
pub fn tokens_collected_call(
    tally_collector: &Address,
    data_service: &Address,
    collection_id: &Bytes32,
    service_provider: &Address,
    payer: &Address,
) -> (call: EthCall)
    ensures
        asks(
            call,
            tally_collector@,
            call_data(data_service@, collection_id@, service_provider@, payer@),
        ),
{
    let bytes = tokens_collected_call_data(data_service, collection_id, service_provider, payer);
    let digits = primitives::hex_encode(bytes.as_slice());
    proof {
        reveal_strlit("0x");
        assert("0x"@ =~= seq!['0', 'x']);
    }
    EthCall {
        jsonrpc: "2.0".to_owned(),
        id: 1,
        method: "eth_call".to_owned(),
        to: primitives::address_lower_hex(tally_collector),
        data: text::join("0x", digits.as_str()),
        block: "latest".to_owned(),
    }
}

/// Reads the decoded result of the call: its first 32 bytes as one number, held at the
/// largest 128-bit number. `decoded` holds the bytes, or why there are none.
pub fn read_word(decoded: Result<Vec<u8>, String>) -> (r: Result<u128, TokensCollectedError>)
    ensures
        outcome_view(r) == word_amount(
            match decoded {
                Ok(bytes) => Ok(bytes@),
                Err(reason) => Err(reason@),
            },
        ),
{
    let bytes = match decoded {
        Ok(bytes) => bytes,
        Err(reason) => {
            return Err(TokensCollectedError::NotHex { reason });
        },
    };
    if bytes.len() < 32 {
        return Err(TokensCollectedError::TooShort { bytes: bytes.len() });
    }
    let word = vstd::slice::slice_subrange(bytes.as_slice(), 0, 32);
    assert(word@ =~= bytes@.take(32));
    match primitives::u256_be_to_u128(word) {
        Some(v) => Ok(v),
        None => Ok(u128::MAX),
    }
}

/// Reads the result of the call from its hexadecimal text.
pub fn decode_result(result: &str) -> (r: Result<u128, TokensCollectedError>)
    ensures
        outcome_view(r) == result_amount(result@),
{
    let digits = text::trim_start_two(result, '0', 'x');
    read_word(primitives::hex_decode(digits.as_str()))
}

/// Reads the amount from what the JSON of a reply holds: the text under `result`, where there
/// is one, and the whole reply, or why it is no JSON.
pub fn read_member(reply: Result<(Option<String>, String), String>) -> (r: Result<
    u128,
    TokensCollectedError,
>)
    ensures
        outcome_view(r) == reply_amount(reply_view(reply)),
{
    match reply {
        Err(reason) => Err(TokensCollectedError::NotJson { reason }),
        Ok((None, reply)) => Err(TokensCollectedError::NoResult { reply }),
        Ok((Some(result), _)) => decode_result(result.as_str()),
    }
}

/// Reads the body of the JSON-RPC reply.
pub fn read_reply(body: &[u8]) -> (r: Result<u128, TokensCollectedError>)
    ensures
        outcome_view(r) == reply_amount(json_reply(body@, "result"@)),
{
    read_member(json_text(body, "result"))
}

} // verus!
