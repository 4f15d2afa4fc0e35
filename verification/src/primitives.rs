//! Addresses, 32-byte words and their texts.
use alloy_primitives::{B256, U256};
use vstd::prelude::*;

verus! {

/// An account or contract address.
#[derive(Clone, Copy, Eq, Debug)]
pub struct Address {
    pub bytes: [u8; 20],
}

impl View for Address {
    type V = Seq<u8>;

    open spec fn view(&self) -> Seq<u8> {
        self.bytes@
    }
}

impl PartialEq for Address {
    fn eq(&self, other: &Self) -> (same: bool) {
        let mut i: usize = 0;
        while i < 20
            invariant
                i <= 20,
                forall|j: int| 0 <= j < i ==> self.bytes@[j] == other.bytes@[j],
            decreases 20 - i,
        {
            if self.bytes[i] != other.bytes[i] {
                return false;
            }
            i = i + 1;
        }
        assert(self.bytes@ =~= other.bytes@);
        true
    }
}

impl vstd::std_specs::cmp::PartialEqSpecImpl for Address {
    open spec fn obeys_eq_spec() -> bool {
        true
    }

    open spec fn eq_spec(&self, other: &Self) -> bool {
        self@ == other@
    }
}

/// A 32-byte word, such as the identifier of a collection.
#[derive(Clone, Copy, PartialEq, Eq, Debug)]
pub struct Bytes32 {
    pub bytes: [u8; 32],
}

impl View for Bytes32 {
    type V = Seq<u8>;

    open spec fn view(&self) -> Seq<u8> {
        self.bytes@
    }
}

/// The lower-case hexadecimal digit for `n < 16`.
pub open spec fn hex_digit(n: int) -> char {
    if n < 10 {
        ((48 + n) as u8) as char
    } else {
        ((87 + n) as u8) as char
    }
}

/// What a hexadecimal digit of either case stands for.
pub open spec fn hex_value(c: char) -> Option<int> {
    if '0' <= c && c <= '9' {
        Some(c as int - 48)
    } else if 'a' <= c && c <= 'f' {
        Some(c as int - 87)
    } else if 'A' <= c && c <= 'F' {
        Some(c as int - 55)
    } else {
        None
    }
}

/// Each byte as two lower-case hexadecimal digits, the high half first.
pub open spec fn hex_lower(bytes: Seq<u8>) -> Seq<char> {
    Seq::new(2 * bytes.len(), |i: int| hex_digit(nibble(bytes, i)))
}

/// Whether `s` is an even number of hexadecimal digits.
pub open spec fn is_hex(s: Seq<char>) -> bool {
    &&& s.len() % 2 == 0
    &&& forall|i: int| 0 <= i < s.len() ==> hex_value(#[trigger] s[i]) is Some
}

/// The bytes that an even number of hexadecimal digits stands for.
pub open spec fn hex_bytes(s: Seq<char>) -> Seq<u8> {
    Seq::new(
        s.len() / 2,
        |i: int| (16 * hex_value(s[2 * i])->0 + hex_value(s[2 * i + 1])->0) as u8,
    )
}

/// `0x` and the bytes in lower-case hexadecimal.
pub open spec fn prefixed_hex(bytes: Seq<u8>) -> Seq<char> {
    seq!['0', 'x'] + hex_lower(bytes)
}

/// `s` without a leading `0x` or `0X`.
pub open spec fn without_hex_prefix(s: Seq<char>) -> Seq<char> {
    if s.len() >= 2 && s[0] == '0' && (s[1] == 'x' || s[1] == 'X') {
        s.skip(2)
    } else {
        s
    }
}

/// The address that a text stands for: forty hexadecimal digits of either case, with or
/// without the prefix. The case is no checksum here.
pub open spec fn parsed_address(s: Seq<char>) -> Option<Seq<u8>> {
    let digits = without_hex_prefix(s);
    if digits.len() == 40 && is_hex(digits) {
        Some(hex_bytes(digits))
    } else {
        None
    }
}

/// The number that big-endian bytes stand for.
pub open spec fn big_endian(bytes: Seq<u8>) -> nat
    decreases bytes.len(),
{
    if bytes.len() == 0 {
        0
    } else {
        256 * big_endian(bytes.drop_last()) + bytes.last() as nat
    }
}

/// `n`, or the largest 128-bit number where `n` is larger.
pub open spec fn saturated(n: nat) -> u128 {
    if n <= u128::MAX {
        n as u128
    } else {
        u128::MAX
    }
}

/// An address as a 32-byte word: twelve zero bytes, then the address.
pub open spec fn address_word(address: Seq<u8>) -> Seq<u8> {
    Seq::new(12, |i: int| 0u8) + address
}

/// The Keccak-256 digest of a message.
pub uninterp spec fn keccak256_digest(message: Seq<u8>) -> Seq<u8>;

/// Why a text that is not hexadecimal cannot be decoded, in words.
pub uninterp spec fn hex_decode_error(s: Seq<char>) -> Seq<char>;

/// The half-byte at index `i`, the high half of each byte first.
pub open spec fn nibble(bytes: Seq<u8>, i: int) -> int {
    if i % 2 == 0 {
        bytes[i / 2] as int / 16
    } else {
        bytes[i / 2] as int % 16
    }
}

/// A lower-case letter in upper case; any other character as it is.
pub open spec fn upper_case(c: char) -> char {
    if 'a' <= c && c <= 'z' {
        ((c as u8) - 32) as u8 as char
    } else {
        c
    }
}

/// Hexadecimal digits with each letter in upper case where the half-byte of `digest` at its
/// index is 8 or more.
pub open spec fn mixed_case(digits: Seq<char>, digest: Seq<u8>) -> Seq<char> {
    Seq::new(
        digits.len(),
        |i: int|
            if nibble(digest, i) >= 8 {
                upper_case(digits[i])
            } else {
                digits[i]
            },
    )
}

/// The mixed-case checksum text of an address: the case of its digits tells the digest of the
/// same digits in lower case.
pub open spec fn checksum_text(address: Seq<u8>) -> Seq<char> {
    let digits = hex_lower(address);
    let digest = keccak256_digest(digits.map_values(|c: char| c as u8));
    seq!['0', 'x'] + mixed_case(digits, digest)
}

/// `Address::from_str` of alloy-primitives: takes off one `0x` or `0X` and accepts exactly
/// forty hexadecimal digits of either case; anything else is refused. No checksum is tested.
#[verifier::external_body]
pub(crate) fn address_from_str(s: &str) -> (r: Option<Address>)
    ensures
        r is Some <==> parsed_address(s@) is Some,
        r is Some ==> r->0@ == parsed_address(s@)->0,
{
    let parsed: Result<alloy_primitives::Address, _> = s.parse();
    parsed.ok().map(|a| Address { bytes: a.into_array() })
}

/// `Debug` of alloy-primitives' `Address`: `0x` and the twenty bytes in lower-case hexadecimal.
#[verifier::external_body]
pub(crate) fn address_debug(address: &Address) -> (s: String)
    ensures
        s@ == prefixed_hex(address@),
{
    format!("{:?}", alloy_primitives::Address::from(address.bytes))
}

/// `LowerHex` of alloy-primitives' `Address` in its alternate form: `0x` and the twenty
/// bytes in lower-case hexadecimal.
#[verifier::external_body]
pub(crate) fn address_lower_hex(address: &Address) -> (s: String)
    ensures
        s@ == prefixed_hex(address@),
{
    format!("{:#x}", alloy_primitives::Address::from(address.bytes))
}

/// `Display` of alloy-primitives' `Address`: `0x` and the twenty bytes in hexadecimal, a
/// letter in upper case exactly where the half-byte at its index is 8 or more in the
/// Keccak-256 digest of the forty lower-case digits.
#[verifier::external_body]
pub(crate) fn address_display(address: &Address) -> (s: String)
    ensures
        s@ == checksum_text(address@),
{
    format!("{}", alloy_primitives::Address::from(address.bytes))
}

/// `Debug` of alloy-primitives' `B256`: `0x` and the 32 bytes in lower-case hexadecimal.
#[verifier::external_body]
pub(crate) fn bytes32_debug(word: &Bytes32) -> (s: String)
    ensures
        s@ == prefixed_hex(word@),
{
    format!("{:?}", B256::from(word.bytes))
}

/// `keccak256` of alloy-primitives: the 32-byte digest of the message, which depends on the
/// message alone.
#[verifier::external_body]
pub(crate) fn keccak256(message: &[u8]) -> (digest: Bytes32)
    ensures
        digest@ == keccak256_digest(message@),
{
    Bytes32 { bytes: alloy_primitives::keccak256(message).0 }
}

/// `U256::from_be_slice` of alloy-primitives and `u128::try_from` on its result: the
/// number that at most 32 big-endian bytes stand for, where it fits 128 bits. A longer
/// slice makes the former panic.
#[verifier::external_body]
pub(crate) fn u256_be_to_u128(bytes: &[u8]) -> (r: Option<u128>)
    requires
        bytes@.len() <= 32,
    ensures
        r is Some <==> big_endian(bytes@) <= u128::MAX,
        r is Some ==> r->0 as nat == big_endian(bytes@),
{
    u128::try_from(U256::from_be_slice(bytes)).ok()
}

/// `hex::encode`: two lower-case hexadecimal digits for each byte, in order.
#[verifier::external_body]
pub(crate) fn hex_encode(bytes: &[u8]) -> (s: String)
    ensures
        s@ == hex_lower(bytes@),
{
    hex::encode(bytes)
}

/// `hex::decode`: the bytes of an even number of hexadecimal digits of either case;
/// anything else is refused, with the error in words, which depends on the text alone.
#[verifier::external_body]
pub(crate) fn hex_decode(s: &str) -> (r: Result<Vec<u8>, String>)
    ensures
        r is Ok <==> is_hex(s@),
        r is Ok ==> r->Ok_0@ == hex_bytes(s@),
        r is Err ==> r->Err_0@ == hex_decode_error(s@),
{
    hex::decode(s).map_err(|e| e.to_string())
}

impl Address {
    /// Reads an address: forty hexadecimal digits, with or without the prefix.
    pub fn parse(s: &str) -> (r: Option<Address>)
        ensures
            r is Some <==> parsed_address(s@) is Some,
            r is Some ==> r->0@ == parsed_address(s@)->0,
    {
        address_from_str(s)
    }

    /// The address in lower-case hexadecimal, as it is stored.
    pub fn stored_text(&self) -> (s: String)
        ensures
            s@ == prefixed_hex(self@),
    {
        address_debug(self)
    }
}

/// Hexadecimal text gives back the bytes that it was written from.
pub proof fn law_hex_round_trip(bytes: Seq<u8>)
    ensures
        is_hex(hex_lower(bytes)),
        hex_bytes(hex_lower(bytes)) == bytes,
{
    let s = hex_lower(bytes);
    assert forall|i: int| 0 <= i < s.len() implies hex_value(#[trigger] s[i]) is Some by {
        let b = bytes[i / 2] as int;
        assert(0 <= b / 16 < 16);
        assert(0 <= b % 16 < 16);
    }
    assert forall|i: int| 0 <= i < bytes.len() implies hex_bytes(s)[i] == bytes[i] by {
        let b = bytes[i] as int;
        assert((2 * i) / 2 == i && (2 * i) % 2 == 0);
        assert((2 * i + 1) / 2 == i && (2 * i + 1) % 2 == 1);
        assert(0 <= b / 16 < 16);
        assert(0 <= b % 16 < 16);
        assert(16 * (b / 16) + b % 16 == b);
    }
    assert(hex_bytes(s) =~= bytes);
}

/// The stored text of an address reads back as that address.
pub proof fn law_address_round_trip(address: Address)
    ensures
        parsed_address(prefixed_hex(address@)) == Some(address@),
{
    law_hex_round_trip(address@);
    assert(without_hex_prefix(prefixed_hex(address@)) =~= hex_lower(address@));
}

} // verus!
