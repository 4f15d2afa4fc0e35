//! Strings as sequences of characters.
use vstd::prelude::*;

verus! {

/// `String::push` of the standard library: appends the given character to the end of the string.
pub assume_specification[ String::push ](s: &mut String, c: char)
    ensures
        final(s)@ == old(s)@.push(c),
;

/// `s` without every `c` at its end.
pub open spec fn trim_end(s: Seq<char>, c: char) -> Seq<char>
    decreases s.len(),
{
    if s.len() > 0 && s.last() == c {
        trim_end(s.drop_last(), c)
    } else {
        s
    }
}

/// `s` without every copy of the two characters `a`, `b` at its start.
pub open spec fn trim_start_pair(s: Seq<char>, a: char, b: char) -> Seq<char>
    decreases s.len(),
{
    if s.len() >= 2 && s[0] == a && s[1] == b {
        trim_start_pair(s.skip(2), a, b)
    } else {
        s
    }
}

/// Whether `s` starts with `prefix`.
pub open spec fn starts_with(s: Seq<char>, prefix: Seq<char>) -> bool {
    s.len() >= prefix.len() && s.take(prefix.len() as int) == prefix
}

/// `s` without `prefix` where it starts with it, else `s` itself.
pub open spec fn without_prefix(s: Seq<char>, prefix: Seq<char>) -> Seq<char> {
    if starts_with(s, prefix) {
        s.skip(prefix.len() as int)
    } else {
        s
    }
}

/// The characters of `s`, in order.
pub(crate) fn to_chars(s: &str) -> (v: Vec<char>)
    ensures
        v@ == s@,
{
    let mut v: Vec<char> = Vec::new();
    for c in it: s.chars()
        invariant
            it.seq() == s@,
            v@ == s@.take(it.index() as int),
    {
        v.push(c);
    }
    v
}

/// The string made of `chars[from..to]`.
pub(crate) fn from_chars(chars: &Vec<char>, from: usize, to: usize) -> (s: String)
    requires
        from <= to <= chars.len(),
    ensures
        s@ == chars@.subrange(from as int, to as int),
{
    let mut s = String::new();
    let mut i: usize = from;
    while i < to
        invariant
            from <= i <= to <= chars.len(),
            s@ == chars@.subrange(from as int, i as int),
        decreases to - i,
    {
        s.push(chars[i]);
        i = i + 1;
    }
    s
}

/// Whether the two strings hold the same characters.
pub(crate) fn same_text(a: &str, b: &str) -> (same: bool)
    ensures
        same == (a@ == b@),
{
    let left = to_chars(a);
    let right = to_chars(b);
    if left.len() != right.len() {
        return false;
    }
    let mut i: usize = 0;
    while i < left.len()
        invariant
            i <= left.len() == right.len(),
            forall|j: int| 0 <= j < i ==> left@[j] == right@[j],
            left@ == a@,
            right@ == b@,
        decreases left.len() - i,
    {
        if left[i] != right[i] {
            return false;
        }
        i = i + 1;
    }
    assert(left@ =~= right@);
    true
}

/// The two strings, one after the other.
pub fn join(a: &str, b: &str) -> (s: String)
    ensures
        s@ == a@ + b@,
{
    let mut s = a.to_owned();
    s.append(b);
    s
}

/// `s` without every `c` at its end, as `str::trim_end_matches` takes it off.
pub(crate) fn trim_end_char(s: &str, c: char) -> (t: String)
    ensures
        t@ == trim_end(s@, c),
{
    let chars = to_chars(s);
    let mut end: usize = chars.len();
    assert(chars@.take(end as int) =~= chars@);
    while end > 0 && chars[end - 1] == c
        invariant
            end <= chars.len(),
            trim_end(chars@, c) == trim_end(chars@.take(end as int), c),
        decreases end,
    {
        assert(chars@.take(end as int).drop_last() =~= chars@.take(end - 1));
        end = end - 1;
    }
    from_chars(&chars, 0, end)
}

/// `s` without every copy of `a`, `b` at its start, as `str::trim_start_matches` takes them off.
pub(crate) fn trim_start_two(s: &str, a: char, b: char) -> (t: String)
    ensures
        t@ == trim_start_pair(s@, a, b),
{
    let chars = to_chars(s);
    let len = chars.len();
    let mut start: usize = 0;
    assert(chars@.skip(0) =~= chars@);
    while len - start >= 2 && chars[start] == a && chars[start + 1] == b
        invariant
            start <= len,
            len == chars.len(),
            trim_start_pair(chars@, a, b) == trim_start_pair(chars@.skip(start as int), a, b),
        decreases len - start,
    {
        assert(chars@.skip(start as int).skip(2) =~= chars@.skip(start + 2));
        start = start + 2;
    }
    assert(chars@.skip(start as int) =~= chars@.subrange(start as int, len as int));
    from_chars(&chars, start, len)
}

/// `s` without `prefix` where it starts with it, else `s` itself, as
/// `str::strip_prefix` with a fallback to the whole string.
pub(crate) fn strip(s: &str, prefix: &str) -> (t: String)
    ensures
        t@ == without_prefix(s@, prefix@),
{
    let chars = to_chars(s);
    let lead = to_chars(prefix);
    if chars.len() < lead.len() {
        return s.to_owned();
    }
    let mut i: usize = 0;
    while i < lead.len()
        invariant
            i <= lead.len() <= chars.len(),
            forall|j: int| 0 <= j < i ==> chars@[j] == lead@[j],
            chars@ == s@,
            lead@ == prefix@,
        decreases lead.len() - i,
    {
        if chars[i] != lead[i] {
            proof {
                assert(s@.take(prefix@.len() as int)[i as int] != prefix@[i as int]);
            }
            return s.to_owned();
        }
        i = i + 1;
    }
    assert(s@.take(prefix@.len() as int) =~= prefix@);
    assert(s@.skip(prefix@.len() as int) =~= chars@.subrange(i as int, chars@.len() as int));
    from_chars(&chars, i, chars.len())
}

} // verus!
