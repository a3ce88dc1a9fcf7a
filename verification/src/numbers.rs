//! Decimal numbers in text.

use vstd::prelude::*;

verus! {

/// `c` is one of the ten ASCII digits.
pub open spec fn is_digit(c: char) -> bool {
    0x30 <= c as u32 <= 0x39
}

/// Every character of `s` is an ASCII digit.
pub open spec fn all_digits(s: Seq<char>) -> bool {
    forall|i: int| 0 <= i < s.len() ==> is_digit(#[trigger] s[i])
}

/// The number that the digits of `s` write in base ten.
pub open spec fn decimal_value(s: Seq<char>) -> nat
    decreases s.len(),
{
    if s.len() == 0 {
        0
    } else {
        decimal_value(s.drop_last()) * 10 + (s.last() as u32 - 0x30) as nat
    }
}

/// The number written by `s`, where `s` is a non-empty run of digits whose
/// value is at most `max`.
pub open spec fn bounded_decimal(s: Seq<char>, max: nat) -> Option<nat> {
    if s.len() > 0 && all_digits(s) && decimal_value(s) <= max {
        Some(decimal_value(s))
    } else {
        None
    }
}

/// A run of digits is worth at least as much as any of its prefixes.
pub proof fn lemma_decimal_value_grows(s: Seq<char>, k: int)
    requires
        all_digits(s),
        0 <= k <= s.len(),
    ensures
        decimal_value(s.take(k)) <= decimal_value(s),
    decreases s.len() - k,
{
    if k == s.len() {
        assert(s.take(k) =~= s);
    } else {
        let head = s.drop_last();
        assert(all_digits(head)) by {
            assert forall|i: int| 0 <= i < head.len() implies is_digit(#[trigger] head[i]) by {
                assert(head[i] == s[i]);
            }
        }
        assert(is_digit(s[s.len() - 1]));
        if k == s.len() - 1 {
            assert(s.take(k) =~= head);
        } else {
            lemma_decimal_value_grows(head, k);
            assert(head.take(k) =~= s.take(k));
        }
    }
}

/// Reads `digits` as a decimal number of at most `max`.
pub fn parse_bounded(digits: &Vec<char>, max: u32) -> (r: Option<u32>)
    ensures
        match r {
            Some(v) => bounded_decimal(digits@, max as nat) == Some(v as nat),
            None => bounded_decimal(digits@, max as nat) is None,
        },
{
    if digits.len() == 0 {
        return None;
    }
    let mut acc: u32 = 0;
    let mut i: usize = 0;
    while i < digits.len()
        invariant
            i <= digits.len(),
            acc <= max,
            acc as nat == decimal_value(digits@.take(i as int)),
            all_digits(digits@.take(i as int)),
        decreases digits.len() - i,
    {
        let c = digits[i];
        let u: u32 = c as u32;
        let ghost before = digits@.take(i as int);
        let ghost after = digits@.take(i + 1);
        proof {
            assert(after.drop_last() =~= before);
            assert(after.last() == c);
        }
        if u < 0x30 || u > 0x39 {
            assert(!is_digit(digits@[i as int]));
            return None;
        }
        let next: u64 = (acc as u64) * 10 + ((u - 0x30) as u64);
        proof {
            assert forall|j: int| 0 <= j < after.len() implies is_digit(#[trigger] after[j]) by {
                if j < i {
                    assert(before[j] == after[j]);
                }
            }
        }
        if next > max as u64 {
            proof {
                if all_digits(digits@) {
                    lemma_decimal_value_grows(digits@, i + 1);
                }
            }
            return None;
        }
        acc = next as u32;
        i += 1;
    }
    proof {
        assert(digits@.take(digits@.len() as int) =~= digits@);
    }
    Some(acc)
}

} // verus!
