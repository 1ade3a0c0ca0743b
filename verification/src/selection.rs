//! Parsing a one-based menu selection out of user input bytes.
//!
//! The caller shows a numbered list of extracted sources and reads a
//! line; this module decides which entry, if any, that line picks. A
//! line that is not a decimal number, or whose value lies outside
//! `1..=count`, selects nothing instead of aborting the program.

use vstd::prelude::*;
use crate::sources::Video;

verus! {

/// An ASCII decimal digit.
pub open spec fn is_ascii_digit(b: u8) -> bool {
    48 <= b <= 57
}

/// A non-empty run of ASCII decimal digits.
pub open spec fn all_digits(s: Seq<u8>) -> bool {
    s.len() > 0 && (forall|i: int| 0 <= i < s.len() ==> is_ascii_digit(s[i]))
}

/// The value of a digit run read as a decimal number.
pub open spec fn digits_value(s: Seq<u8>) -> int
    decreases s.len(),
{
    if s.len() == 0 {
        0
    } else {
        digits_value(s.drop_last()) * 10 + (s.last() - 48)
    }
}

/// `s` picks one entry of a list of `count`: it is a decimal number
/// between 1 and `count`.
pub open spec fn valid_selection(s: Seq<u8>, count: int) -> bool {
    all_digits(s) && 1 <= digits_value(s) <= count
}

proof fn lemma_digits_value_nonneg(s: Seq<u8>)
    requires
        forall|i: int| 0 <= i < s.len() ==> is_ascii_digit(s[i]),
    ensures
        digits_value(s) >= 0,
    decreases s.len(),
{
    if s.len() > 0 {
        lemma_digits_value_nonneg(s.drop_last());
    }
}

/// Reading further digits never shrinks the value.
proof fn lemma_digits_value_prefix(s: Seq<u8>, n: int)
    requires
        forall|i: int| 0 <= i < s.len() ==> is_ascii_digit(s[i]),
        0 <= n <= s.len(),
    ensures
        digits_value(s.subrange(0, n)) <= digits_value(s),
    decreases s.len() - n,
{
    if n == s.len() {
        assert(s.subrange(0, n) =~= s);
    } else {
        lemma_digits_value_prefix(s.drop_last(), n);
        assert(s.drop_last().subrange(0, n) =~= s.subrange(0, n));
        lemma_digits_value_nonneg(s.drop_last());
    }
}

/// Decide which entry of a list of `count` the input line picks: the
/// zero-based index of that entry, or `None` for anything that is not a
/// decimal number between 1 and `count`.
pub fn parse_selection(input: &[u8], count: usize) -> (r: Option<usize>)
    ensures
        match r {
            Some(i) => valid_selection(input@, count as int) && i as int == digits_value(input@)
                - 1,
            None => !valid_selection(input@, count as int),
        },
{
    if input.len() == 0 {
        return None;
    }
    let mut acc: u128 = 0;
    let mut i: usize = 0;
    while i < input.len()
        invariant
            0 <= i <= input@.len(),
            forall|j: int| 0 <= j < i ==> is_ascii_digit(input@[j]),
            acc as int == digits_value(input@.subrange(0, i as int)),
            acc <= count as u128,
        decreases input@.len() - i,
    {
        let b = input[i];
        if b < 48 || b > 57 {
            return None;
        }
        let d = (b - 48) as u128;
        let next = acc * 10 + d;
        proof {
            assert(input@.subrange(0, i + 1 as int).drop_last() =~= input@.subrange(0, i as int));
        }
        if next > count as u128 {
            proof {
                if all_digits(input@) {
                    lemma_digits_value_prefix(input@, i + 1 as int);
                }
            }
            return None;
        }
        acc = next;
        i = i + 1;
    }
    proof {
        assert(input@.subrange(0, input@.len() as int) =~= input@);
    }
    if acc == 0 {
        return None;
    }
    Some((acc - 1) as usize)
}

/// Pick the source that the input line selects, or nothing for input
/// that is not a number between 1 and the number of sources.
pub fn select_source<'a>(sources: &'a Vec<Video>, input: &[u8]) -> (r: Option<&'a Video>)
    ensures
        match r {
            Some(v) => valid_selection(input@, sources@.len() as int) && *v == sources@[
                digits_value(input@) - 1
            ],
            None => !valid_selection(input@, sources@.len() as int),
        },
{
    match parse_selection(input, sources.len()) {
        Some(i) => Some(&sources[i]),
        None => None,
    }
}

} // verus!
