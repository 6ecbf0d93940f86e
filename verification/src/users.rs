//! The list of users who may use the bot, as it is written in the
//! environment: decimal numbers separated by `;`.
//!
//! A number is written as the standard library reads an unsigned integer:
//! an optional `+`, then one or more of the digits `0` to `9`, and a value
//! that fits in 64 bits.  Every part between two separators must be a
//! number; an empty part is none.

use vstd::prelude::*;
use vstd::string::StringSliceAdditionalSpecFns;

verus! {

/// The byte of the separator `;`.
pub const SEPARATOR: u8 = 0x3B;

/// The byte of the sign `+`.
pub const PLUS: u8 = 0x2B;

/// The byte is one of the digits `0` to `9`.
pub open spec fn is_digit(b: u8) -> bool {
    0x30 <= b <= 0x39
}

pub open spec fn all_digits(s: Seq<u8>) -> bool {
    forall|i: int| 0 <= i < s.len() ==> is_digit(#[trigger] s[i])
}

/// The number that a sequence of digits writes, in base ten.
pub open spec fn digits_value(digits: Seq<u8>) -> nat
    decreases digits.len(),
{
    if digits.len() == 0 {
        0
    } else {
        10 * digits_value(digits.drop_last()) + (digits.last() - 0x30) as nat
    }
}

/// A text without its leading `+`, if it has one.
pub open spec fn unsigned(s: Seq<u8>) -> Seq<u8> {
    if s.len() > 0 && s[0] == PLUS {
        s.skip(1)
    } else {
        s
    }
}

/// The number that a text writes, if it writes one.
pub open spec fn parsed_number(s: Seq<u8>) -> Option<u64> {
    let body = unsigned(s);
    if body.len() > 0 && all_digits(body) && digits_value(body) <= u64::MAX {
        Some(digits_value(body) as u64)
    } else {
        None
    }
}

/// Where the part that begins at `start` ends: at the next separator, or
/// at the end of the text.
pub open spec fn part_end(s: Seq<u8>, start: int) -> int
    decreases s.len() - start,
{
    if start >= s.len() || s[start] == SEPARATOR {
        start
    } else {
        part_end(s, start + 1)
    }
}

/// The numbers that the parts of a text write, from the part that begins
/// at `start` on; none if a part writes no number.
pub open spec fn parsed_users(s: Seq<u8>, start: int) -> Option<Seq<u64>>
    decreases s.len() - start,
{
    let end = part_end(s, start);
    if end < start || end > s.len() {
        None
    } else {
        match parsed_number(s.subrange(start, end)) {
            None => None,
            Some(n) => if end == s.len() {
                Some(seq![n])
            } else {
                match parsed_users(s, end + 1) {
                    Some(rest) => Some(seq![n] + rest),
                    None => None,
                }
            },
        }
    }
}

/// The view of an optional list.
pub open spec fn opt_list(o: Option<Vec<u64>>) -> Option<Seq<u64>> {
    match o {
        Some(v) => Some(v@),
        None => None,
    }
}

/// A sequence of digits writes at least what any of its beginnings writes.
pub proof fn lemma_digits_grow(digits: Seq<u8>, k: int)
    requires
        all_digits(digits),
        0 <= k <= digits.len(),
    ensures
        digits_value(digits.take(k)) <= digits_value(digits),
    decreases digits.len(),
{
    if k == digits.len() {
        assert(digits.take(k) =~= digits);
    } else {
        let shorter = digits.drop_last();
        assert(shorter.take(k) =~= digits.take(k));
        assert forall|i: int| 0 <= i < shorter.len() implies is_digit(#[trigger] shorter[i]) by {
            assert(shorter[i] == digits[i]);
        }
        lemma_digits_grow(shorter, k);
        assert(is_digit(digits[digits.len() - 1]));
    }
}

/// Reads the number that the bytes from `start` to `end` write.
fn parse_number(bytes: &[u8], start: usize, end: usize) -> (r: Option<u64>)
    requires
        start <= end <= bytes@.len(),
    ensures
        r == parsed_number(bytes@.subrange(start as int, end as int)),
{
    let ghost part = bytes@.subrange(start as int, end as int);
    let mut i: usize = start;
    if i < end && bytes[i] == PLUS {
        i = i + 1;
    }
    let first: usize = i;
    let ghost body = unsigned(part);
    proof {
        assert(body =~= bytes@.subrange(first as int, end as int));
    }
    if i == end {
        return None;
    }
    let mut value: u64 = 0;
    proof {
        assert(body.take(0) =~= Seq::<u8>::empty());
    }
    while i < end
        invariant
            start <= first <= i <= end <= bytes@.len(),
            body == unsigned(bytes@.subrange(start as int, end as int)),
            body == bytes@.subrange(first as int, end as int),
            all_digits(body.take(i - first)),
            value == digits_value(body.take(i - first)),
        decreases end - i,
    {
        let b: u8 = bytes[i];
        let ghost k = i - first;
        proof {
            assert(body[k] == b);
            assert(body.take(k + 1).drop_last() =~= body.take(k));
            assert(body.take(k + 1).last() == b);
        }
        if b < 0x30 || b > 0x39 {
            proof {
                assert(!is_digit(body[k]));
            }
            return None;
        }
        let d: u64 = (b - 0x30) as u64;
        if value > (u64::MAX - d) / 10 {
            proof {
                assert(digits_value(body.take(k + 1)) > u64::MAX);
                if all_digits(body) {
                    lemma_digits_grow(body, k + 1);
                }
            }
            return None;
        }
        value = value * 10 + d;
        proof {
            assert forall|j: int| 0 <= j < k + 1 implies is_digit(#[trigger] body.take(k + 1)[j]) by {
                if j < k {
                    assert(body.take(k + 1)[j] == body.take(k)[j]);
                }
            }
        }
        i = i + 1;
    }
    proof {
        assert(body.take(i - first) =~= body);
    }
    Some(value)
}

/// Reads the list of users: the numbers that the parts of `text` write,
/// in their order, or none if a part writes no number.
pub fn parse_allowed_users(text: &str) -> (r: Option<Vec<u64>>)
    ensures
        opt_list(r) == parsed_users(text.spec_bytes(), 0),
{
    let bytes = text.as_bytes();
    let mut users: Vec<u64> = Vec::new();
    let mut start: usize = 0;
    proof {
        match parsed_users(bytes@, 0) {
            Some(rest) => {
                assert(users@ + rest =~= rest);
            },
            None => {},
        }
    }
    loop
        invariant
            start <= bytes@.len(),
            bytes@ == text.spec_bytes(),
            parsed_users(bytes@, 0) == (match parsed_users(bytes@, start as int) {
                Some(rest) => Some(users@ + rest),
                None => None,
            }),
        decreases bytes@.len() - start,
    {
        let mut end: usize = start;
        while end < bytes.len() && bytes[end] != SEPARATOR
            invariant
                start <= end <= bytes@.len(),
                part_end(bytes@, start as int) == part_end(bytes@, end as int),
            decreases bytes@.len() - end,
        {
            end = end + 1;
        }
        let ghost before = users@;
        match parse_number(bytes, start, end) {
            None => {
                return None;
            },
            Some(n) => {
                users.push(n);
                if end >= bytes.len() {
                    proof {
                        assert(users@ =~= before + seq![n]);
                    }
                    return Some(users);
                }
                proof {
                    match parsed_users(bytes@, end + 1) {
                        Some(rest) => {
                            assert(users@ + rest =~= before + (seq![n] + rest));
                        },
                        None => {},
                    }
                }
                start = end + 1;
            },
        }
    }
}

} // verus!
