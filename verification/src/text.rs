//! Small string helpers shared by the modules that render messages.
use vstd::prelude::*;
use vstd::string::{StrSliceExecFns, StringExecFns};

verus! {

/// Appends one character to a string (std's `String::push`).
#[verifier::external_body]
pub(crate) fn push_char(s: &mut String, c: char)
    ensures
        final(s)@ == old(s)@.push(c),
{
    s.push(c);
}

/// Appends a string slice to a string.
pub(crate) fn push_str(s: &mut String, t: &str)
    ensures
        final(s)@ == old(s)@ + t@,
{
    s.append(t);
}

/// The decimal digit character for `d < 10`.
pub open spec fn decimal_char(d: nat) -> char {
    ((d + 48) as u8) as char
}

/// Decimal rendering of a natural number, without leading zeros.
pub open spec fn decimal_chars(v: nat) -> Seq<char>
    decreases v,
{
    if v < 10 {
        seq![decimal_char(v)]
    } else {
        decimal_chars(v / 10).push(decimal_char(v % 10))
    }
}

/// Appends the decimal rendering of `v`.
pub fn push_decimal(s: &mut String, v: u64)
    ensures
        final(s)@ == old(s)@ + decimal_chars(v as nat),
    decreases v,
{
    if v >= 10 {
        push_decimal(s, v / 10);
    }
    let d = (v % 10) as u8;
    let c = (d + 48) as char;
    push_char(s, c);
    proof {
        assert(c == decimal_char((v % 10) as nat));
        if v >= 10 {
            assert(decimal_chars(v as nat) == decimal_chars((v / 10) as nat).push(decimal_char((v % 10) as nat)));
        }
    }
}

/// `s` without `prefix` at its start, or `None` when `s` does not start with it.
pub fn strip_prefix<'a>(s: &'a str, prefix: &str) -> (r: Option<&'a str>)
    ensures
        r is Some <==> prefix@.is_prefix_of(s@),
        r matches Some(rest) ==> rest@ == s@.skip(prefix@.len() as int),
{
    let n = s.unicode_len();
    let m = prefix.unicode_len();
    if m > n {
        return None;
    }
    let mut i: usize = 0;
    while i < m
        invariant
            m <= n,
            n == s@.len(),
            m == prefix@.len(),
            i <= m,
            forall|j: int| 0 <= j < i ==> s@[j] == prefix@[j],
        decreases m - i,
    {
        if s.get_char(i) != prefix.get_char(i) {
            return None;
        }
        i = i + 1;
    }
    Some(s.substring_char(m, n))
}

/// Position of the first occurrence of `b` in `bytes` at or after `from`.
pub open spec fn first_byte_from(bytes: Seq<u8>, b: u8, from: int) -> Option<int>
    decreases bytes.len() - from,
{
    if from < 0 || from >= bytes.len() {
        None
    } else if bytes[from] == b {
        Some(from)
    } else {
        first_byte_from(bytes, b, from + 1)
    }
}

/// The first occurrence found is within bounds, holds the byte, and no earlier
/// position from `from` does.
pub proof fn lemma_first_byte_from(bytes: Seq<u8>, b: u8, from: int)
    ensures
        first_byte_from(bytes, b, from) matches Some(i) ==> from <= i < bytes.len() && bytes[i] == b
            && forall|j: int| from <= j < i ==> bytes[j] != b,
    decreases bytes.len() - from,
{
    if 0 <= from < bytes.len() && bytes[from] != b {
        lemma_first_byte_from(bytes, b, from + 1);
    }
}

/// Finds the first occurrence of byte `b` in `bytes` at or after `from`.
pub fn find_byte(bytes: &[u8], b: u8, from: usize) -> (r: Option<usize>)
    ensures
        r matches Some(i) ==> first_byte_from(bytes@, b, from as int) == Some(i as int) && from
            <= i < bytes@.len(),
        r is None ==> first_byte_from(bytes@, b, from as int) is None,
{
    proof {
        lemma_first_byte_from(bytes@, b, from as int);
    }
    let mut i = from;
    while i < bytes.len()
        invariant
            from <= i,
            first_byte_from(bytes@, b, from as int) == first_byte_from(bytes@, b, i as int),
        decreases bytes.len() - i,
    {
        if bytes[i] == b {
            return Some(i);
        }
        i = i + 1;
    }
    None
}

/// Whether two strings are equal.
pub fn str_eq(a: &str, b: &str) -> (r: bool)
    ensures
        r == (a@ == b@),
{
    let n = a.unicode_len();
    if n != b.unicode_len() {
        return false;
    }
    let mut i: usize = 0;
    while i < n
        invariant
            n == a@.len(),
            n == b@.len(),
            i <= n,
            forall|j: int| 0 <= j < i ==> a@[j] == b@[j],
        decreases n - i,
    {
        if a.get_char(i) != b.get_char(i) {
            return false;
        }
        i = i + 1;
    }
    assert(a@ =~= b@);
    true
}

} // verus!
