//! Unsigned decimal numbers, as amounts are stored and configured.
use vstd::prelude::*;

use crate::text;

verus! {

/// Why a text is no unsigned decimal number.
#[derive(Clone, Copy, PartialEq, Eq, Debug, Structural)]
pub enum DecimalError {
    /// There is no character at all.
    Empty,
    /// Something other than a digit comes before the number outgrows 128 bits.
    InvalidDigit,
    /// The digits outgrow 128 bits.
    PosOverflow,
}

/// The digit for `n < 10`.
pub open spec fn digit(n: nat) -> char {
    ((48 + n) as u8) as char
}

pub open spec fn is_digit(c: char) -> bool {
    '0' <= c && c <= '9'
}

/// What the digit `c` stands for.
pub open spec fn digit_value(c: char) -> nat {
    (c as int - 48) as nat
}

/// `n` in decimal, without leading zeros.
pub open spec fn decimal(n: nat) -> Seq<char>
    decreases n,
{
    if n < 10 {
        seq![digit(n)]
    } else {
        decimal(n / 10).push(digit(n % 10))
    }
}

pub open spec fn all_digits(s: Seq<char>) -> bool {
    forall|i: int| 0 <= i < s.len() ==> is_digit(#[trigger] s[i])
}

/// The number that a sequence of digits stands for.
pub open spec fn digits_value(s: Seq<char>) -> nat
    decreases s.len(),
{
    if s.len() == 0 {
        0
    } else {
        10 * digits_value(s.drop_last()) + digit_value(s.last())
    }
}

/// The part of a number text that has to be digits: all of it but for a plus sign that
/// something follows.
pub open spec fn unsigned_part(s: Seq<char>) -> Seq<char> {
    if s.len() > 1 && s[0] == '+' {
        s.skip(1)
    } else {
        s
    }
}

/// Whether the characters before position `i` are digits of a number below 2^128 and
/// the one at `i` is no digit.
pub open spec fn breaks_at(s: Seq<char>, i: int) -> bool {
    &&& 0 <= i < s.len()
    &&& all_digits(s.take(i))
    &&& digits_value(s.take(i)) <= u128::MAX
    &&& !is_digit(s[i])
}

/// How a text reads as an unsigned 128-bit number: digits with an optional plus sign
/// before them.
pub open spec fn parsed(s: Seq<char>) -> Result<u128, DecimalError> {
    let body = unsigned_part(s);
    if s.len() == 0 {
        Err(DecimalError::Empty)
    } else if all_digits(body) && digits_value(body) <= u128::MAX {
        Ok(digits_value(body) as u128)
    } else if exists|i: int| breaks_at(body, i) {
        Err(DecimalError::InvalidDigit)
    } else {
        Err(DecimalError::PosOverflow)
    }
}

/// The amount that a stored text stands for; one that is no number stands for zero.
pub open spec fn parsed_or_zero(s: Seq<char>) -> u128 {
    match parsed(s) {
        Ok(v) => v,
        Err(_) => 0,
    }
}

impl DecimalError {
    /// What the error says in words.
    pub open spec fn text(self) -> Seq<char> {
        match self {
            DecimalError::Empty => "cannot parse integer from empty string"@,
            DecimalError::InvalidDigit => "invalid digit found in string"@,
            DecimalError::PosOverflow => "number too large to fit in target type"@,
        }
    }

    /// The error in words.
    pub fn message(&self) -> (s: String)
        ensures
            s@ == self.text(),
    {
        match self {
            DecimalError::Empty => "cannot parse integer from empty string".to_owned(),
            DecimalError::InvalidDigit => "invalid digit found in string".to_owned(),
            DecimalError::PosOverflow => "number too large to fit in target type".to_owned(),
        }
    }
}

/// A longer run of digits stands for a number that is no smaller.
proof fn lemma_value_grows(s: Seq<char>, i: int, j: int)
    requires
        0 <= i <= j <= s.len(),
    ensures
        digits_value(s.take(i)) <= digits_value(s.take(j)),
    decreases j - i,
{
    if i < j {
        lemma_value_grows(s, i, j - 1);
        assert(s.take(j).drop_last() =~= s.take(j - 1));
    }
}

/// Where digits outgrow 128 bits before anything else goes wrong, no break comes first.
proof fn lemma_overflow(s: Seq<char>, i: int)
    requires
        0 <= i <= s.len(),
        all_digits(s.take(i)),
        digits_value(s.take(i)) > u128::MAX,
    ensures
        !(all_digits(s) && digits_value(s) <= u128::MAX),
        forall|k: int| !breaks_at(s, k),
{
    lemma_value_grows(s, i, s.len() as int);
    assert(s.take(s.len() as int) =~= s);
    assert forall|k: int| !breaks_at(s, k) by {
        if breaks_at(s, k) {
            if k < i {
                assert(is_digit(s.take(i)[k]));
            } else {
                lemma_value_grows(s, i, k);
            }
        }
    }
}

/// Reads an unsigned 128-bit number: digits with an optional plus sign before them.
pub fn parse_u128(s: &str) -> (r: Result<u128, DecimalError>)
    ensures
        r == parsed(s@),
{
    let chars = text::to_chars(s);
    let len = chars.len();
    if len == 0 {
        return Err(DecimalError::Empty);
    }
    let start: usize = if len > 1 && chars[0] == '+' { 1 } else { 0 };
    let ghost body = unsigned_part(s@);
    proof {
        assert(body =~= chars@.skip(start as int));
        assert(body.take(0) =~= Seq::<char>::empty());
    }
    let mut value: u128 = 0;
    let mut i: usize = start;
    while i < len
        invariant
            start <= i <= len,
            len == chars.len(),
            0 < len,
            chars@ == s@,
            body == unsigned_part(s@),
            body == chars@.skip(start as int),
            all_digits(body.take(i - start)),
            value == digits_value(body.take(i - start)),
        decreases len - i,
    {
        let c = chars[i];
        let ghost k = i - start;
        proof {
            assert(body[k] == c);
            assert(body.take(k + 1).drop_last() =~= body.take(k));
            assert(body.take(k + 1).last() == c);
        }
        if !('0' <= c && c <= '9') {
            proof {
                assert(breaks_at(body, k));
            }
            return Err(DecimalError::InvalidDigit);
        }
        let d: u128 = (c as u32 - 48) as u128;
        proof {
            assert forall|j: int| 0 <= j < k + 1 implies is_digit(#[trigger] body.take(k + 1)[j]) by {
                if j < k {
                    assert(is_digit(body.take(k)[j]));
                }
            }
        }
        if value > (u128::MAX - d) / 10 {
            proof {
                assert(digits_value(body.take(k + 1)) == 10 * value + d);
                lemma_overflow(body, k + 1);
            }
            return Err(DecimalError::PosOverflow);
        }
        value = 10 * value + d;
        i = i + 1;
    }
    assert(body.take(len - start) =~= body);
    Ok(value)
}

/// The amount that a stored text stands for; one that is no number stands for zero.
pub fn parse_or_zero(s: &str) -> (v: u128)
    ensures
        v == parsed_or_zero(s@),
{
    match parse_u128(s) {
        Ok(v) => v,
        Err(_) => 0,
    }
}

/// Writes `v` in decimal, without leading zeros.
pub fn to_decimal(v: u128) -> (s: String)
    ensures
        s@ == decimal(v as nat),
    decreases v,
{
    let mut s = if v < 10 {
        String::new()
    } else {
        to_decimal(v / 10)
    };
    s.push((48 + (v % 10) as u8) as char);
    assert(s@ =~= decimal(v as nat));
    s
}

/// Writing a number and reading it back gives the number: no amount is lost in storage.
pub proof fn law_decimal_round_trip(v: u128)
    ensures
        parsed(decimal(v as nat)) == Ok::<u128, DecimalError>(v),
        parsed_or_zero(decimal(v as nat)) == v,
{
    lemma_decimal_digits(v as nat);
    let s = decimal(v as nat);
    assert(is_digit(s[0]));
    assert(unsigned_part(s) == s);
}

proof fn lemma_decimal_digits(n: nat)
    ensures
        decimal(n).len() > 0,
        all_digits(decimal(n)),
        digits_value(decimal(n)) == n,
    decreases n,
{
    if n < 10 {
        let s = seq![digit(n)];
        assert(s.drop_last() =~= Seq::<char>::empty());
        assert(digits_value(s.drop_last()) == 0);
        assert(is_digit(digit(n)));
    } else {
        lemma_decimal_digits(n / 10);
        let s = decimal(n / 10).push(digit(n % 10));
        assert(s.drop_last() =~= decimal(n / 10));
        assert(is_digit(digit(n % 10)));
        assert forall|i: int| 0 <= i < s.len() implies is_digit(#[trigger] s[i]) by {
            if i < s.len() - 1 {
                assert(is_digit(decimal(n / 10)[i]));
            }
        }
    }
}

/// The length of the longest run of digits that `s[..end]` starts with.
proof fn lemma_run_of_digits(s: Seq<char>, end: int) -> (k: int)
    requires
        0 <= end <= s.len(),
    ensures
        0 <= k <= end,
        all_digits(s.take(k)),
        k < end ==> !is_digit(s[k]),
    decreases end,
{
    if end == 0 {
        0
    } else {
        let k = lemma_run_of_digits(s, end - 1);
        if k == end - 1 && is_digit(s[k]) {
            assert forall|j: int| 0 <= j < end implies is_digit(#[trigger] s.take(end)[j]) by {
                if j < k {
                    assert(is_digit(s.take(k)[j]));
                }
            }
            end
        } else {
            k
        }
    }
}

/// Nothing reads as no number, one digit reads as itself with or without a plus sign before
/// it, and any other character alone as an error.
pub proof fn law_shortest_texts(s: &str, r: Result<u128, DecimalError>)
    requires
        call_ensures(parse_u128, (s,), r),
    ensures
        s@.len() == 0 ==> r == Err::<u128, _>(DecimalError::Empty),
        s@.len() == 1 || (s@.len() == 2 && s@[0] == '+') ==> {
            let c = s@.last();
            if '0' <= c && c <= '9' {
                r == Ok::<_, DecimalError>((c as int - '0' as int) as u128)
            } else {
                r == Err::<u128, _>(DecimalError::InvalidDigit)
            }
        },
{
    if s@.len() == 1 || (s@.len() == 2 && s@[0] == '+') {
        let c = s@.last();
        let body = unsigned_part(s@);
        assert(body =~= seq![c]);
        assert(body.drop_last() =~= Seq::<char>::empty());
        assert(digits_value(body.drop_last()) == 0);
        assert(body.take(0) =~= Seq::<char>::empty());
        if is_digit(c) {
            assert(all_digits(body));
        } else {
            assert(!is_digit(body[0]));
            assert(breaks_at(body, 0));
        }
    }
}

/// One more digit makes ten times the number and that digit, as long as the number fits 128
/// bits; one more character of any other kind makes no number; and what is no number stays none.
pub proof fn law_one_more_character(
    s: &str,
    t: &str,
    c: char,
    r: Result<u128, DecimalError>,
    q: Result<u128, DecimalError>,
)
    requires
        call_ensures(parse_u128, (s,), r),
        call_ensures(parse_u128, (t,), q),
        s@.len() > 1 || (s@.len() == 1 && s@[0] != '+'),
        t@ == s@.push(c),
    ensures
        match r {
            Err(_) => q == r,
            Ok(v) => if !('0' <= c && c <= '9') {
                q == Err::<u128, _>(DecimalError::InvalidDigit)
            } else if 10 * v + (c as int - '0' as int) <= u128::MAX {
                q == Ok::<_, DecimalError>((10 * v + (c as int - '0' as int)) as u128)
            } else {
                q == Err::<u128, _>(DecimalError::PosOverflow)
            },
        },
{
    let body = unsigned_part(s@);
    let longer = unsigned_part(t@);
    let n = body.len() as int;
    assert(longer =~= body.push(c));
    assert(longer.drop_last() =~= body);
    assert(longer.take(n) =~= body);
    if all_digits(body) && digits_value(body) <= u128::MAX {
        assert(longer.take(n + 1) =~= longer);
        if is_digit(c) {
            assert(all_digits(longer));
            if digits_value(longer) > u128::MAX {
                lemma_overflow(longer, n + 1);
            }
        } else {
            assert(!is_digit(longer[n]));
            assert(breaks_at(longer, n));
        }
    } else if exists|i: int| breaks_at(body, i) {
        let i = choose|i: int| breaks_at(body, i);
        assert(longer.take(i) =~= body.take(i));
        assert(longer[i] == body[i]);
        assert(breaks_at(longer, i));
    } else {
        let k = lemma_run_of_digits(body, n);
        assert(!breaks_at(body, k));
        assert(body.take(n) =~= body);
        assert(longer.take(k) =~= body.take(k));
        lemma_overflow(longer, k);
    }
}

/// A stored amount is the number that its text reads as, and zero where it is no number.
pub proof fn law_stored_amount(s: &str, r: Result<u128, DecimalError>, v: u128)
    requires
        call_ensures(parse_u128, (s,), r),
        call_ensures(parse_or_zero, (s,), v),
    ensures
        r is Ok ==> v == r->Ok_0,
        r is Err ==> v == 0,
        v == parsed_or_zero(s@),
{
}

/// A number is written as a tenth of it is, and then its last digit.
pub proof fn law_last_digit(v: u128, tenth: String, s: String)
    requires
        call_ensures(to_decimal, ((v / 10) as u128,), tenth),
        call_ensures(to_decimal, (v,), s),
    ensures
        v < 10 ==> s@ == seq!["0123456789"@[v as int]],
        v >= 10 ==> s@ == tenth@.push("0123456789"@[v as int % 10]),
        s@ == decimal(v as nat),
{
    reveal_strlit("0123456789");
    let d = v as int % 10;
    assert("0123456789"@[d] == digit(d as nat)) by {
        assert(d == 0 || d == 1 || d == 2 || d == 3 || d == 4 || d == 5 || d == 6 || d == 7 || d == 8
            || d == 9);
    }
}

} // verus!
