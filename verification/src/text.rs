//! Searching and reading text, byte by byte over its UTF-8 encoding.

use vstd::prelude::*;
use vstd::string::StringSliceAdditionalSpecFns;
use vstd::utf8::encode_utf8;

verus! {

/// `needle` stands in `hay` at offset `at`.
pub open spec fn occurs_at(hay: Seq<u8>, needle: Seq<u8>, at: int) -> bool {
    &&& 0 <= at
    &&& at + needle.len() <= hay.len()
    &&& hay.subrange(at, at + needle.len()) == needle
}

/// `needle` stands somewhere in `hay`.
pub open spec fn bytes_contain(hay: Seq<u8>, needle: Seq<u8>) -> bool {
    exists|at: int| occurs_at(hay, needle, at)
}

/// The UTF-8 encoding of `pattern` stands somewhere in that of `text`.
pub open spec fn text_contains(text: Seq<char>, pattern: Seq<char>) -> bool {
    bytes_contain(encode_utf8(text), encode_utf8(pattern))
}

/// The byte is an ASCII decimal digit.
pub open spec fn is_digit(b: u8) -> bool {
    0x30 <= b <= 0x39
}

/// The number that a string of decimal digits denotes.
pub open spec fn decimal_value(digits: Seq<u8>) -> nat
    decreases digits.len(),
{
    if digits.len() == 0 {
        0
    } else {
        decimal_value(digits.drop_last()) * 10 + (digits.last() - 0x30) as nat
    }
}

/// The bytes are one or more decimal digits.
pub open spec fn is_decimal(digits: Seq<u8>) -> bool {
    &&& digits.len() > 0
    &&& forall|i: int| 0 <= i < digits.len() ==> is_digit(#[trigger] digits[i])
}

/// Whether `needle` stands in `hay` at offset `at`.
pub fn matches_at(hay: &[u8], needle: &[u8], at: usize) -> (found: bool)
    ensures
        found == occurs_at(hay@, needle@, at as int),
{
    if needle.len() > hay.len() || at > hay.len() - needle.len() {
        return false;
    }
    let mut k: usize = 0;
    while k < needle.len()
        invariant
            k <= needle.len(),
            at + needle.len() <= hay.len(),
            forall|j: int| 0 <= j < k ==> hay@[at + j] == needle@[j],
        decreases needle.len() - k,
    {
        if hay[at + k] != needle[k] {
            proof {
                let sub = hay@.subrange(at as int, at + needle.len());
                assert(sub[k as int] == hay@[at + k]);
            }
            return false;
        }
        k += 1;
    }
    assert(hay@.subrange(at as int, at + needle.len()) =~= needle@);
    true
}

/// The offset of the first place at or after `from` where `needle` stands in
/// `hay`.
pub fn find_from(hay: &[u8], needle: &[u8], from: usize) -> (found: Option<usize>)
    ensures
        match found {
            Some(at) => {
                &&& from <= at
                &&& occurs_at(hay@, needle@, at as int)
                &&& forall|j: int| from <= j < at ==> !occurs_at(hay@, needle@, j)
            },
            None => forall|j: int| from <= j ==> !occurs_at(hay@, needle@, j),
        },
{
    if needle.len() > hay.len() || from > hay.len() - needle.len() {
        return None;
    }
    let last: usize = hay.len() - needle.len();
    let mut at: usize = from;
    loop
        invariant
            from <= at <= last,
            last == hay.len() - needle.len(),
            forall|j: int| from <= j < at ==> !occurs_at(hay@, needle@, j),
        decreases last - at,
    {
        if matches_at(hay, needle, at) {
            return Some(at);
        }
        if at == last {
            return None;
        }
        at += 1;
    }
}

/// Whether `needle` stands somewhere in `hay`.
pub fn contains_bytes(hay: &[u8], needle: &[u8]) -> (found: bool)
    ensures
        found == bytes_contain(hay@, needle@),
{
    find_from(hay, needle, 0).is_some()
}

/// Whether the text holds the pattern.
pub fn contains_text(text: &str, pattern: &str) -> (found: bool)
    ensures
        found == text_contains(text@, pattern@),
{
    contains_bytes(text.as_bytes(), pattern.as_bytes())
}

/// Whether two byte strings are the same.
pub fn same_bytes(a: &[u8], b: &[u8]) -> (same: bool)
    ensures
        same == (a@ == b@),
{
    if a.len() != b.len() {
        return false;
    }
    let same = matches_at(a, b, 0);
    assert(a@.subrange(0, a@.len() as int) =~= a@);
    same
}

/// Reads one or more decimal digits as a number that fits 64 bits.
pub fn parse_decimal(digits: &[u8]) -> (value: Option<u64>)
    ensures
        value is Some <==> is_decimal(digits@) && decimal_value(digits@) <= u64::MAX,
        value matches Some(v) ==> v == decimal_value(digits@),
{
    if digits.len() == 0 {
        return None;
    }
    let mut value: u64 = 0;
    let mut i: usize = 0;
    while i < digits.len()
        invariant
            i <= digits.len(),
            forall|j: int| 0 <= j < i ==> is_digit(#[trigger] digits@[j]),
            value == decimal_value(digits@.take(i as int)),
        decreases digits.len() - i,
    {
        let b = digits[i];
        if b < 0x30 || b > 0x39 {
            return None;
        }
        proof {
            assert(digits@.take(i + 1).drop_last() =~= digits@.take(i as int));
            assert(digits@.take(i + 1).last() == b);
        }
        let digit: u64 = (b - 0x30) as u64;
        let next = match value.checked_mul(10) {
            Some(tens) => tens.checked_add(digit),
            None => None,
        };
        match next {
            Some(n) => {
                value = n;
            },
            None => {
                proof {
                    if is_decimal(digits@) {
                        lemma_decimal_value_grows(digits@, i + 1);
                    }
                }
                return None;
            },
        }
        i += 1;
    }
    assert(digits@.take(i as int) =~= digits@);
    Some(value)
}

/// A prefix of a digit string denotes no more than the whole string does.
pub proof fn lemma_decimal_value_grows(digits: Seq<u8>, n: int)
    requires
        0 <= n <= digits.len(),
        forall|j: int| 0 <= j < digits.len() && j >= n ==> digits[j] >= 0x30,
    ensures
        decimal_value(digits.take(n)) <= decimal_value(digits),
    decreases digits.len() - n,
{
    if n == digits.len() {
        assert(digits.take(n) =~= digits);
    } else {
        lemma_decimal_value_grows(digits.drop_last(), n);
        assert(digits.drop_last().take(n) =~= digits.take(n));
    }
}

} // verus!

verus! {

/// Whether two texts are the same.
pub fn same_text(a: &str, b: &str) -> (same: bool)
    ensures
        same == (a@ == b@),
{
    proof {
        vstd::utf8::encode_utf8_decode_utf8(a@);
        vstd::utf8::encode_utf8_decode_utf8(b@);
    }
    same_bytes(a.as_bytes(), b.as_bytes())
}

} // verus!
