//! Integers read from their decimal form.

use vstd::prelude::*;
use crate::datavalues::decimal::decimal;
use crate::datavalues::decimal::digits;

verus! {

/// Every byte is an ASCII digit.
pub open spec fn all_digits(s: Seq<u8>) -> bool {
    forall|i: int| 0 <= i < s.len() ==> 48 <= #[trigger] s[i] <= 57
}

/// The number that a run of digits stands for; 0 for the empty run.
pub open spec fn digits_value(s: Seq<u8>) -> nat
    decreases s.len(),
{
    if s.len() == 0 {
        0
    } else {
        (digits_value(s.drop_last()) * 10 + (s.last() - 48)) as nat
    }
}

/// The integer that the bytes stand for: one or more digits, with a sign
/// `-` or `+` in front of them or without. Anything else stands for no
/// integer: no blanks are passed over.
pub open spec fn parse_integer(s: Seq<u8>) -> Option<int> {
    if s.len() > 0 && (s[0] == 45u8 || s[0] == 43u8) {
        let run = s.drop_first();
        if run.len() > 0 && all_digits(run) {
            Some(
                if s[0] == 45u8 {
                    -(digits_value(run) as int)
                } else {
                    digits_value(run) as int
                },
            )
        } else {
            None
        }
    } else if s.len() > 0 && all_digits(s) {
        Some(digits_value(s) as int)
    } else {
        None
    }
}

/// The digits of a number stand for that number.
pub proof fn lemma_digits_round_trip(n: nat)
    ensures
        digits(n).len() > 0,
        all_digits(digits(n)),
        digits_value(digits(n)) == n,
    decreases n,
{
    if n < 10 {
        let s = digits(n);
        assert(s.drop_last() =~= Seq::<u8>::empty());
        assert(digits_value(s.drop_last()) == 0);
    } else {
        lemma_digits_round_trip(n / 10);
        let front = digits(n / 10);
        let s = front.push((48 + n % 10) as u8);
        assert(s.drop_last() =~= front);
        assert forall|i: int| 0 <= i < s.len() implies 48 <= #[trigger] s[i] <= 57 by {
            if i < front.len() {
                assert(s[i] == front[i]);
            }
        }
    }
}

/// An integer is read back from its decimal form.
pub proof fn lemma_parse_decimal(x: int)
    ensures
        parse_integer(decimal(x)) == Some(x),
{
    if x < 0 {
        let n = (-x) as nat;
        lemma_digits_round_trip(n);
        let s = decimal(x);
        assert(s[0] == 45u8);
        assert(s.drop_first() =~= digits(n));
    } else {
        lemma_digits_round_trip(x as nat);
        let s = digits(x as nat);
        assert(48 <= s[0] <= 57);
    }
}

/// A run of digits stands for no less than any of its beginnings.
pub proof fn lemma_digits_value_grows(s: Seq<u8>, k: int)
    requires
        all_digits(s),
        0 <= k <= s.len(),
    ensures
        digits_value(s.take(k)) <= digits_value(s),
    decreases s.len(),
{
    if k == s.len() {
        assert(s.take(k) =~= s);
    } else {
        let front = s.drop_last();
        assert(all_digits(front)) by {
            assert forall|i: int| 0 <= i < front.len() implies 48 <= #[trigger] front[i] <= 57 by {
                assert(front[i] == s[i]);
            }
        }
        lemma_digits_value_grows(front, k);
        assert(front.take(k) =~= s.take(k));
        assert(s.last() >= 48);
    }
}

/// The number that a run of digits stands for, where it is no more than
/// 2^64; `None` for a greater number and for bytes that are no run of
/// digits.
fn parse_digits(s: &Vec<u8>, from: usize) -> (r: Option<u128>)
    requires
        from <= s@.len(),
    ensures
        ({
            let run = s@.skip(from as int);
            if run.len() > 0 && all_digits(run) && digits_value(run) <= 0x1_0000_0000_0000_0000 {
                r == Some(digits_value(run) as u128)
            } else {
                r is None
            }
        }),
{
    let ghost run = s@.skip(from as int);
    if from == s.len() {
        return None;
    }
    let mut acc: u128 = 0;
    let mut i: usize = from;
    assert(run.take(0) =~= Seq::<u8>::empty());
    while i < s.len()
        invariant
            from <= i <= s@.len(),
            run == s@.skip(from as int),
            all_digits(run.take(i - from)),
            acc == digits_value(run.take(i - from)),
            acc <= 0x1_0000_0000_0000_0000,
        decreases s@.len() - i,
    {
        let c = s[i];
        let ghost seen = run.take(i - from);
        let ghost more = run.take(i - from + 1);
        proof {
            assert(run[i - from] == c);
            assert(more.drop_last() =~= seen);
            assert(more.last() == c);
        }
        if c < 48 || c > 57 {
            assert(!all_digits(run));
            return None;
        }
        proof {
            assert forall|j: int| 0 <= j < more.len() implies 48 <= #[trigger] more[j] <= 57 by {
                if j < seen.len() {
                    assert(more[j] == seen[j]);
                }
            }
        }
        let next = acc * 10 + (c - 48) as u128;
        if next > 0x1_0000_0000_0000_0000 {
            proof {
                if all_digits(run) {
                    lemma_digits_value_grows(run, i - from + 1);
                }
            }
            return None;
        }
        acc = next;
        i = i + 1;
    }
    assert(run.take(s@.len() - from) =~= run);
    Some(acc)
}

/// The integer that the bytes stand for, where it lies between -2^64 and
/// 2^64; `None` for any other integer and for bytes that stand for none.
pub fn parse_integer_bytes(s: &Vec<u8>) -> (r: Option<i128>)
    ensures
        match parse_integer(s@) {
            Some(x) => if -0x1_0000_0000_0000_0000 <= x <= 0x1_0000_0000_0000_0000 {
                r == Some(x as i128)
            } else {
                r is None
            },
            None => r is None,
        },
{
    if s.len() == 0 {
        return None;
    }
    let signed = s[0] == 45u8 || s[0] == 43u8;
    if signed {
        assert(s@.drop_first() =~= s@.skip(1));
        match parse_digits(s, 1) {
            Some(n) => if s[0] == 45u8 {
                Some(-(n as i128))
            } else {
                Some(n as i128)
            },
            None => None,
        }
    } else {
        assert(s@.skip(0) =~= s@);
        match parse_digits(s, 0) {
            Some(n) => Some(n as i128),
            None => None,
        }
    }
}

} // verus!
