//! What addresses, collections and words are written as and read from, digit by digit.
use vstd::prelude::*;

use crate::primitives;
use crate::primitives::{Address, Bytes32};
use crate::tap_aggregator;
use crate::tokens_collected;
use crate::tokens_collected::TokensCollectedError;

verus! {

/// Whether a text is `0x` and two lower-case digits for each byte, the high half first.
pub open spec fn shows(text: Seq<char>, bytes: Seq<u8>) -> bool {
    &&& text.len() == 2 + 2 * bytes.len()
    &&& text[0] == '0'
    &&& text[1] == 'x'
    &&& forall|i: int|
        0 <= i < bytes.len() ==> {
            &&& text[2 + 2 * i] == "0123456789abcdef"@[(#[trigger] bytes[i]) as int / 16]
            &&& text[3 + 2 * i] == "0123456789abcdef"@[bytes[i] as int % 16]
        }
}

/// Whether a character is a hexadecimal digit of either case.
pub open spec fn is_hex_char(c: char) -> bool {
    "0123456789abcdefABCDEF"@.contains(c)
}

/// Whether a character is the hexadecimal digit for `n`, in either case.
pub open spec fn stands_for(c: char, n: int) -> bool {
    c == "0123456789abcdef"@[n] || c == "0123456789ABCDEF"@[n]
}

/// Whether digits stand for bytes, two for each byte.
pub open spec fn stand_for(digits: Seq<char>, bytes: Seq<u8>) -> bool {
    &&& digits.len() == 2 * bytes.len()
    &&& forall|i: int|
        0 <= i < bytes.len() ==> {
            &&& stands_for(digits[2 * i], (#[trigger] bytes[i]) as int / 16)
            &&& stands_for(digits[2 * i + 1], bytes[i] as int % 16)
        }
}

proof fn lemma_lower_digit(n: int)
    requires
        0 <= n < 16,
    ensures
        primitives::hex_digit(n) == "0123456789abcdef"@[n],
{
    reveal_strlit("0123456789abcdef");
    assert(n == 0 || n == 1 || n == 2 || n == 3 || n == 4 || n == 5 || n == 6 || n == 7 || n == 8 || n
        == 9 || n == 10 || n == 11 || n == 12 || n == 13 || n == 14 || n == 15);
}

/// A digit stands for one number only, and has a value exactly where it is a digit.
proof fn lemma_hex_char(c: char)
    ensures
        is_hex_char(c) <==> primitives::hex_value(c) is Some,
        forall|n: int|
            0 <= n < 16 ==> (#[trigger] stands_for(c, n) <==> primitives::hex_value(c) == Some(n)),
{
    reveal_strlit("0123456789abcdef");
    reveal_strlit("0123456789ABCDEF");
    reveal_strlit("0123456789abcdefABCDEF");
    let all = "0123456789abcdefABCDEF"@;
    if primitives::hex_value(c) is Some {
        let v = primitives::hex_value(c)->0;
        let k = if 'A' <= c && c <= 'F' {
            v + 6
        } else {
            v
        };
        assert(v == 0 || v == 1 || v == 2 || v == 3 || v == 4 || v == 5 || v == 6 || v == 7 || v == 8
            || v == 9 || v == 10 || v == 11 || v == 12 || v == 13 || v == 14 || v == 15);
        assert(all[k] == c);
    }
    if is_hex_char(c) {
        let k = choose|k: int| 0 <= k < all.len() && all[k] == c;
        assert(k == 0 || k == 1 || k == 2 || k == 3 || k == 4 || k == 5 || k == 6 || k == 7 || k == 8
            || k == 9 || k == 10 || k == 11 || k == 12 || k == 13 || k == 14 || k == 15 || k == 16 || k
            == 17 || k == 18 || k == 19 || k == 20 || k == 21);
    }
    assert forall|n: int| 0 <= n < 16 implies (#[trigger] stands_for(c, n)
        <==> primitives::hex_value(c) == Some(n)) by {
        assert(n == 0 || n == 1 || n == 2 || n == 3 || n == 4 || n == 5 || n == 6 || n == 7 || n == 8
            || n == 9 || n == 10 || n == 11 || n == 12 || n == 13 || n == 14 || n == 15);
    }
}

/// The text of bytes shows them.
pub proof fn law_prefixed_hex_shows(bytes: Seq<u8>)
    ensures
        shows(primitives::prefixed_hex(bytes), bytes),
{
    let text = primitives::prefixed_hex(bytes);
    assert forall|i: int| 0 <= i < bytes.len() implies {
        &&& text[2 + 2 * i] == "0123456789abcdef"@[(#[trigger] bytes[i]) as int / 16]
        &&& text[3 + 2 * i] == "0123456789abcdef"@[bytes[i] as int % 16]
    } by {
        let b = bytes[i] as int;
        assert((2 * i) / 2 == i && (2 * i) % 2 == 0);
        assert((2 * i + 1) / 2 == i && (2 * i + 1) % 2 == 1);
        assert(text[2 + 2 * i] == primitives::hex_lower(bytes)[2 * i]);
        assert(text[3 + 2 * i] == primitives::hex_lower(bytes)[2 * i + 1]);
        lemma_lower_digit(b / 16);
        lemma_lower_digit(b % 16);
    }
}

/// One text shows one sequence of bytes only.
pub proof fn law_shown_bytes_are_one(text: Seq<char>, a: Seq<u8>, b: Seq<u8>)
    requires
        shows(text, a),
        shows(text, b),
    ensures
        a == b,
{
    assert forall|i: int| 0 <= i < a.len() implies a[i] == b[i] by {
        let (x, y) = (a[i] as int, b[i] as int);
        lemma_lower_digit(x / 16);
        lemma_lower_digit(y / 16);
        lemma_lower_digit(x % 16);
        lemma_lower_digit(y % 16);
        assert(x / 16 == y / 16 && x % 16 == y % 16);
        assert(x == 16 * (x / 16) + x % 16);
        assert(y == 16 * (y / 16) + y % 16);
    }
    assert(a =~= b);
}

/// An address is stored as `0x` and its twenty bytes in lower-case hexadecimal.
pub proof fn law_address_is_shown(address: Address, s: String)
    requires
        call_ensures(Address::stored_text, (&address,), s),
    ensures
        shows(s@, address.bytes@),
{
    law_prefixed_hex_shows(address.bytes@);
}

/// A collection's key is `0x` and its 32 bytes in lower-case hexadecimal.
pub proof fn law_collection_is_shown(collection_id: Bytes32, key: String)
    requires
        call_ensures(tap_aggregator::collection_key, (&collection_id,), key),
    ensures
        shows(key@, collection_id.bytes@),
{
    law_prefixed_hex_shows(collection_id.bytes@);
}

/// Where digits stand for bytes, these are the bytes that they decode to.
proof fn lemma_decoded(digits: Seq<char>, bytes: Seq<u8>)
    requires
        stand_for(digits, bytes),
    ensures
        primitives::is_hex(digits),
        primitives::hex_bytes(digits) == bytes,
{
    assert forall|i: int| 0 <= i < digits.len() implies primitives::hex_value(
        #[trigger] digits[i],
    ) is Some by {
        let b = bytes[i / 2] as int;
        lemma_hex_char(digits[i]);
        assert(0 <= b / 16 < 16 && 0 <= b % 16 < 16);
        if i % 2 == 0 {
            assert(digits[2 * (i / 2)] == digits[i]);
            assert(stands_for(digits[i], b / 16));
        } else {
            assert(digits[2 * (i / 2) + 1] == digits[i]);
            assert(stands_for(digits[i], b % 16));
        }
    }
    assert forall|i: int| 0 <= i < bytes.len() implies primitives::hex_bytes(digits)[i]
        == bytes[i] by {
        let b = bytes[i] as int;
        lemma_hex_char(digits[2 * i]);
        lemma_hex_char(digits[2 * i + 1]);
        assert(stands_for(digits[2 * i], b / 16));
        assert(stands_for(digits[2 * i + 1], b % 16));
        assert(b == 16 * (b / 16) + b % 16);
    }
    assert(primitives::hex_bytes(digits) =~= bytes);
}

/// An address is read from forty hexadecimal digits of either case, with or without `0x` or
/// `0X` before them, and from nothing else; its bytes are what the digits stand for.
pub proof fn law_address_is_read(s: &str, digits: Seq<char>, r: Option<Address>)
    requires
        call_ensures(Address::parse, (s,), r),
        digits == (if s@.len() >= 2 && s@[0] == '0' && (s@[1] == 'x' || s@[1] == 'X') {
            s@.skip(2)
        } else {
            s@
        }),
    ensures
        r is Some <==> digits.len() == 40 && forall|i: int|
            0 <= i < 40 ==> is_hex_char(#[trigger] digits[i]),
        r is Some ==> stand_for(digits, r->0.bytes@),
{
    assert forall|i: int| 0 <= i < digits.len() implies (is_hex_char(#[trigger] digits[i])
        <==> primitives::hex_value(digits[i]) is Some) by {
        lemma_hex_char(digits[i]);
    }
    if r is Some {
        let bytes = r->0.bytes@;
        assert(bytes == primitives::hex_bytes(digits));
        assert forall|i: int| 0 <= i < bytes.len() implies {
            &&& stands_for(digits[2 * i], (#[trigger] bytes[i]) as int / 16)
            &&& stands_for(digits[2 * i + 1], bytes[i] as int % 16)
        } by {
            lemma_hex_char(digits[2 * i]);
            lemma_hex_char(digits[2 * i + 1]);
            let hi = primitives::hex_value(digits[2 * i])->0;
            let lo = primitives::hex_value(digits[2 * i + 1])->0;
            assert(bytes[i] as int == 16 * hi + lo);
            assert((16 * hi + lo) / 16 == hi && (16 * hi + lo) % 16 == lo);
            assert(stands_for(digits[2 * i], hi));
            assert(stands_for(digits[2 * i + 1], lo));
        }
    }
}

/// Zero bytes at the front do not change a number.
proof fn lemma_leading_zero(bytes: Seq<u8>)
    requires
        bytes.len() > 0,
        bytes[0] == 0,
    ensures
        primitives::big_endian(bytes) == primitives::big_endian(bytes.skip(1)),
    decreases bytes.len(),
{
    if bytes.len() == 1 {
        assert(bytes.drop_last() =~= Seq::<u8>::empty());
        assert(bytes.skip(1) =~= Seq::<u8>::empty());
        assert(primitives::big_endian(bytes.drop_last()) == 0);
        assert(primitives::big_endian(bytes.skip(1)) == 0);
    } else {
        lemma_leading_zero(bytes.drop_last());
        assert(bytes.drop_last().skip(1) =~= bytes.skip(1).drop_last());
        assert(bytes.skip(1).last() == bytes.last());
    }
}

/// A byte that is not zero is worth at least one at its place.
proof fn lemma_place_value(bytes: Seq<u8>, i: int)
    requires
        0 <= i < bytes.len(),
        bytes[i] > 0,
    ensures
        primitives::big_endian(bytes) >= vstd::arithmetic::power::pow(256, (bytes.len() - 1 - i) as nat),
    decreases bytes.len(),
{
    reveal(vstd::arithmetic::power::pow);
    if i < bytes.len() - 1 {
        assert(bytes.drop_last()[i] == bytes[i]);
        lemma_place_value(bytes.drop_last(), i);
    }
}

proof fn lemma_place_value_grows(n: nat)
    requires
        n >= 16,
    ensures
        vstd::arithmetic::power::pow(256, n) > u128::MAX,
    decreases n,
{
    reveal(vstd::arithmetic::power::pow);
    if n > 16 {
        lemma_place_value_grows((n - 1) as nat);
    } else {
        reveal_with_fuel(vstd::arithmetic::power::pow, 17);
        assert(vstd::arithmetic::power::pow(256, 16) == 0x1_0000_0000_0000_0000_0000_0000_0000_0000);
    }
}

/// Fewer than 32 bytes hold no amount, and what cannot be decoded holds none either.
pub proof fn law_short_result_is_refused(
    decoded: Result<Vec<u8>, String>,
    r: Result<u128, TokensCollectedError>,
)
    requires
        call_ensures(tokens_collected::read_word, (decoded,), r),
    ensures
        match decoded {
            Err(reason) => r matches Err(TokensCollectedError::NotHex { reason: why }) && why@
                == reason@,
            Ok(bytes) => if bytes@.len() < 32 {
                r matches Err(TokensCollectedError::TooShort { bytes: n }) && n == bytes@.len()
            } else {
                r is Ok
            },
        },
{
}

/// What comes after the first 32 bytes does not count.
pub proof fn law_first_word_counts(
    a: Vec<u8>,
    b: Vec<u8>,
    r: Result<u128, TokensCollectedError>,
    q: Result<u128, TokensCollectedError>,
)
    requires
        a@.len() >= 32,
        b@.len() >= 32,
        forall|i: int| 0 <= i < 32 ==> a@[i] == b@[i],
        call_ensures(tokens_collected::read_word, (Ok(a),), r),
        call_ensures(tokens_collected::read_word, (Ok(b),), q),
    ensures
        r is Ok,
        q == r,
{
    assert(a@.take(32) =~= b@.take(32));
}

/// A word of zeros is zero; a word with anything in its first 16 bytes is the largest amount;
/// and where all bytes move up by one place, the amount is 256 times as large, plus the byte
/// that comes in.
pub proof fn law_bytes_are_places(
    a: Vec<u8>,
    b: Vec<u8>,
    r: Result<u128, TokensCollectedError>,
    q: Result<u128, TokensCollectedError>,
)
    requires
        a@.len() == 32,
        b@.len() == 32,
        call_ensures(tokens_collected::read_word, (Ok(a),), r),
        call_ensures(tokens_collected::read_word, (Ok(b),), q),
    ensures
        (forall|i: int| 0 <= i < 32 ==> a@[i] == 0) ==> r == Ok::<_, TokensCollectedError>(0u128),
        (exists|i: int| 0 <= i < 16 && a@[i] != 0) ==> r == Ok::<_, TokensCollectedError>(u128::MAX),
        (forall|i: int| 0 <= i < 17 ==> a@[i] == 0) && (forall|i: int|
            0 <= i < 31 ==> b@[i] == #[trigger] a@[i + 1]) ==> {
            &&& r is Ok
            &&& q == Ok::<_, TokensCollectedError>((256 * r->Ok_0 + b@[31]) as u128)
            &&& 256 * r->Ok_0 + b@[31] <= u128::MAX
        },
{
    assert(a@.take(32) =~= a@);
    assert(b@.take(32) =~= b@);
    if exists|i: int| 0 <= i < 16 && a@[i] != 0 {
        let i = choose|i: int| 0 <= i < 16 && a@[i] != 0;
        lemma_place_value(a@, i);
        lemma_place_value_grows((31 - i) as nat);
    }
    if forall|i: int| 0 <= i < 32 ==> a@[i] == 0 {
        lemma_zero(a@);
    }
    if (forall|i: int| 0 <= i < 17 ==> a@[i] == 0) && (forall|i: int|
        0 <= i < 31 ==> b@[i] == #[trigger] a@[i + 1]) {
        assert(b@.drop_last() =~= a@.skip(1)) by {
            assert forall|i: int| 0 <= i < 31 implies b@[i] == a@.skip(1)[i] by {
                assert(b@[i] == a@[i + 1]);
            }
        }
        lemma_leading_zero(a@);
        lemma_small(a@, 17);
    }
}

proof fn lemma_zero(bytes: Seq<u8>)
    requires
        forall|i: int| 0 <= i < bytes.len() ==> bytes[i] == 0,
    ensures
        primitives::big_endian(bytes) == 0,
    decreases bytes.len(),
{
    if bytes.len() > 0 {
        lemma_zero(bytes.drop_last());
    }
}

/// Zeros in the first `n` of 32 bytes leave a number of `32 - n` bytes.
proof fn lemma_small(bytes: Seq<u8>, n: int)
    requires
        bytes.len() == 32,
        n == 17,
        forall|i: int| 0 <= i < n ==> bytes[i] == 0,
    ensures
        256 * primitives::big_endian(bytes) + 255 <= u128::MAX,
{
    lemma_bound(bytes, n, 32);
    assert(bytes.take(32) =~= bytes);
    reveal_with_fuel(vstd::arithmetic::power::pow, 16);
    assert(vstd::arithmetic::power::pow(256, 15) == 0x100_0000_0000_0000_0000_0000_0000_0000);
}

proof fn lemma_bound(bytes: Seq<u8>, n: int, end: int)
    requires
        0 <= n <= end <= bytes.len(),
        forall|i: int| 0 <= i < n ==> bytes[i] == 0,
    ensures
        primitives::big_endian(bytes.take(end)) < vstd::arithmetic::power::pow(256, (end - n) as nat),
    decreases end,
{
    reveal(vstd::arithmetic::power::pow);
    let head = bytes.take(end);
    if n == end {
        lemma_zero(head);
    } else {
        lemma_bound(bytes, n, end - 1);
        assert(head.drop_last() =~= bytes.take(end - 1));
    }
}

/// The result of the call is the word that its digits stand for, whatever their case.
pub proof fn law_result_is_decoded(
    s: &str,
    bytes: Vec<u8>,
    r: Result<u128, TokensCollectedError>,
    q: Result<u128, TokensCollectedError>,
)
    requires
        call_ensures(tokens_collected::decode_result, (s,), r),
        call_ensures(tokens_collected::read_word, (Ok(bytes),), q),
        stand_for(s@, bytes@),
    ensures
        bytes@.len() >= 32 ==> r is Ok && r == q,
        bytes@.len() < 32 ==> (r matches Err(TokensCollectedError::TooShort { bytes: n }) && n
            == bytes@.len()),
{
    lemma_decoded(s@, bytes@);
    if s@.len() >= 2 {
        assert(primitives::hex_value(s@[1]) is Some);
    }
}

/// `0x` before a result changes nothing.
pub proof fn law_prefix_changes_nothing(
    s: &str,
    t: &str,
    r: Result<u128, TokensCollectedError>,
    q: Result<u128, TokensCollectedError>,
)
    requires
        call_ensures(tokens_collected::decode_result, (s,), r),
        call_ensures(tokens_collected::decode_result, (t,), q),
        t@ == seq!['0', 'x'] + s@,
    ensures
        r is Ok ==> q == r,
        r matches Err(TokensCollectedError::TooShort { bytes }) ==> q == r,
        r matches Err(TokensCollectedError::NotHex { reason }) ==> (q matches Err(
            TokensCollectedError::NotHex { reason: same },
        ) && same@ == reason@),
{
    assert(t@.skip(2) =~= s@);
}

/// A result that is not made of digits, or of an odd number of them, is refused as such.
pub proof fn law_other_texts_are_refused(s: &str, r: Result<u128, TokensCollectedError>)
    requires
        call_ensures(tokens_collected::decode_result, (s,), r),
        s@.len() < 2 || s@[0] != '0' || s@[1] != 'x',
        s@.len() % 2 == 1 || exists|i: int| 0 <= i < s@.len() && !is_hex_char(#[trigger] s@[i]),
    ensures
        r matches Err(TokensCollectedError::NotHex { .. }),
{
    assert forall|i: int| 0 <= i < s@.len() implies (is_hex_char(#[trigger] s@[i])
        <==> primitives::hex_value(s@[i]) is Some) by {
        lemma_hex_char(s@[i]);
    }
}

} // verus!
