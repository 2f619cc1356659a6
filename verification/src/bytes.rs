//! Reading from a byte buffer by position: a fixed prefix, single bytes,
//! two-byte numbers and texts that end at a zero byte.

use vstd::prelude::*;

verus! {

/// True when `bytes` begins with `prefix`.
pub open spec fn starts_with(bytes: Seq<u8>, prefix: Seq<u8>) -> bool {
    bytes.len() >= prefix.len() && bytes.subrange(0, prefix.len() as int) == prefix
}

/// The position of the first zero byte of `s` at or behind `from`, or the
/// length of `s` where there is none.
pub open spec fn cstr_end(s: Seq<u8>, from: int) -> int
    decreases s.len() - from,
{
    if from < 0 || from >= s.len() {
        s.len() as int
    } else if s[from] == 0 {
        from
    } else {
        cstr_end(s, from + 1)
    }
}

/// Between `from` and `cstr_end(s, from)` no byte is zero, and the byte at
/// that position, if there is one, is zero.
pub proof fn lemma_cstr_end(s: Seq<u8>, from: int)
    requires
        0 <= from <= s.len(),
    ensures
        from <= cstr_end(s, from) <= s.len(),
        forall|j: int| from <= j < cstr_end(s, from) ==> s[j] != 0,
        cstr_end(s, from) < s.len() ==> s[cstr_end(s, from)] == 0,
    decreases s.len() - from,
{
    if from < s.len() && s[from] != 0 {
        lemma_cstr_end(s, from + 1);
    }
}

/// The first zero byte at or behind `from` is at `end`, where `end` is a
/// position of a zero byte and no byte from `from` up to it is zero.
pub proof fn lemma_cstr_end_at(s: Seq<u8>, from: int, end: int)
    requires
        0 <= from <= end < s.len(),
        s[end] == 0,
        forall|j: int| from <= j < end ==> s[j] != 0,
    ensures
        cstr_end(s, from) == end,
    decreases end - from,
{
    if from < end {
        lemma_cstr_end_at(s, from + 1, end);
    }
}

/// Whether `input` begins with `pattern`.
pub fn has_prefix(input: &[u8], pattern: &[u8]) -> (r: bool)
    ensures
        r == starts_with(input@, pattern@),
{
    if input.len() < pattern.len() {
        return false;
    }
    let mut i: usize = 0;
    while i < pattern.len()
        invariant
            i <= pattern@.len() <= input@.len(),
            forall|j: int| 0 <= j < i ==> input@[j] == pattern@[j],
        decreases pattern@.len() - i,
    {
        if input[i] != pattern[i] {
            assert(input@.subrange(0, pattern@.len() as int)[i as int] != pattern@[i as int]);
            return false;
        }
        i += 1;
    }
    assert(input@.subrange(0, pattern@.len() as int) =~= pattern@);
    true
}

/// The byte at `at`, if the input reaches that far.
pub fn take_byte(input: &[u8], at: usize) -> (r: Option<u8>)
    ensures
        r == (if at < input@.len() {
            Some(input@[at as int])
        } else {
            None
        }),
{
    if at < input.len() {
        Some(input[at])
    } else {
        None
    }
}

/// Whether the byte at `at` is there and equals `pattern`.
pub fn byte_tag(input: &[u8], at: usize, pattern: u8) -> (r: bool)
    ensures
        r == (at < input@.len() && input@[at as int] == pattern),
{
    at < input.len() && input[at] == pattern
}

/// The two bytes at `at` as a number, high byte first, if the input reaches
/// that far.
pub fn take_short(input: &[u8], at: usize) -> (r: Option<u16>)
    ensures
        r == (if at + 2 <= input@.len() {
            Some((input@[at as int] as int * 256 + input@[at + 1] as int) as u16)
        } else {
            None
        }),
{
    if at < input.len() && input.len() - at >= 2 {
        let high: u16 = input[at] as u16;
        let low: u16 = input[at + 1] as u16;
        Some(high * 256 + low)
    } else {
        None
    }
}

/// The position of the zero byte that ends the text starting at `at`, if
/// there is one.
pub fn take_cstr(input: &[u8], at: usize) -> (r: Option<usize>)
    ensures
        match r {
            Some(end) => at <= end < input@.len() && end == cstr_end(input@, at as int),
            None => cstr_end(input@, at as int) == input@.len(),
        },
{
    let mut i: usize = at;
    while i < input.len()
        invariant
            at <= i,
            cstr_end(input@, at as int) == cstr_end(input@, i as int),
        decreases input@.len() - i,
    {
        if input[i] == 0 {
            return Some(i);
        }
        i += 1;
    }
    None
}

} // verus!
