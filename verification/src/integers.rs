use vstd::prelude::*;
use crate::numeric::{digits_between, is_digit};
use crate::text::ascii_at;

verus! {

/// The number that a digit stands for.
pub open spec fn digit_value(c: char) -> int {
    c as int - '0' as int
}

/// The number that a run of digits stands for in base ten.
pub open spec fn digits_value(s: Seq<char>) -> int
    decreases s.len(),
{
    if s.len() == 0 {
        0
    } else {
        10 * digits_value(s.drop_last()) + digit_value(s.last())
    }
}

/// The integer that a text stands for: digits, or `-` and digits.
pub open spec fn integer_value(s: Seq<char>) -> Option<int> {
    if s.len() >= 1 && digits_between(s, 0, s.len() as int) {
        Some(digits_value(s))
    } else if s.len() >= 2 && s[0] == '-' && digits_between(s, 1, s.len() as int) {
        Some(-digits_value(s.subrange(1, s.len() as int)))
    } else {
        None
    }
}

/// The integer that a text stands for, if it fits in 64 bits.
pub open spec fn i64_value(s: Seq<char>) -> Option<i64> {
    match integer_value(s) {
        Some(x) => if i64::MIN <= x <= i64::MAX {
            Some(x as i64)
        } else {
            None
        },
        None => None,
    }
}

/// A run of digits stands for no less than any of its prefixes does, and
/// for no less than zero.
pub proof fn lemma_digits_value_grows(s: Seq<char>, k: int)
    requires
        digits_between(s, 0, s.len() as int),
        0 <= k <= s.len(),
    ensures
        0 <= digits_value(s.take(k)) <= digits_value(s),
    decreases s.len(),
{
    if s.len() == 0 {
        assert(s.take(k) =~= s);
    } else {
        let front = s.drop_last();
        let j = if k < s.len() {
            k
        } else {
            s.len() - 1
        };
        assert forall|i: int| 0 <= i < front.len() implies is_digit(#[trigger] front[i]) by {
            assert(front[i] == s[i]);
        }
        lemma_digits_value_grows(front, j);
        assert(is_digit(s[s.len() - 1]));
        if k < s.len() {
            assert(front.take(k) =~= s.take(k));
        } else {
            assert(s.take(k) =~= s);
            lemma_digits_value_grows(front, front.len() as int);
            assert(front.take(front.len() as int) =~= front);
        }
    }
}

/// Reads a 64-bit integer from decimal text.
pub fn parse_i64(s: &str) -> (r: Option<i64>)
    ensures
        r == i64_value(s@),
{
    if !s.is_ascii() {
        proof {
            if integer_value(s@) is Some {
                assert forall|i: int| 0 <= i < s@.len() implies '\0' <= #[trigger] s@[i]
                    <= '\u{7f}' by {
                    if i >= 1 {
                        assert(is_digit(s@[i]));
                    } else if s@[0] != '-' {
                        assert(is_digit(s@[i]));
                    }
                }
            }
        }
        return None;
    }
    let n = s.unicode_len();
    if n == 0 {
        return None;
    }
    let negative = ascii_at(s, 0) == '-';
    let start: usize = if negative {
        1
    } else {
        0
    };
    if start == n {
        return None;
    }
    let limit: u64 = 9_223_372_036_854_775_808;
    let mut acc: u64 = 0;
    let mut i: usize = start;
    assert(s@.subrange(start as int, i as int) =~= Seq::<char>::empty());
    while i < n
        invariant
            s.is_ascii(),
            n == s@.len(),
            start <= i <= n,
            start < n,
            start == (if negative { 1int } else { 0int }),
            negative == (s@[0] == '-'),
            limit == 9_223_372_036_854_775_808,
            digits_between(s@, start as int, i as int),
            acc == digits_value(s@.subrange(start as int, i as int)),
            acc <= limit,
        decreases n - i,
    {
        let c = ascii_at(s, i);
        if !('0' <= c && c <= '9') {
            proof {
                assert(!is_digit(s@[i as int]));
                if negative {
                    assert(!is_digit(s@[0]));
                }
            }
            return None;
        }
        let d: u64 = (c as u8 - 48) as u64;
        proof {
            let next = s@.subrange(start as int, i + 1);
            assert(next.drop_last() =~= s@.subrange(start as int, i as int));
            assert(next.last() == c);
            assert(digits_value(next) == 10 * acc + d);
        }
        if acc > (limit - d) / 10 {
            proof {
                if integer_value(s@) is Some {
                    let tail = s@.subrange(start as int, n as int);
                    assert forall|k: int| 0 <= k < tail.len() implies is_digit(
                        #[trigger] tail[k],
                    ) by {
                        assert(tail[k] == s@[start + k]);
                        if !negative {
                            assert(is_digit(s@[start + k]));
                        }
                    }
                    lemma_digits_value_grows(tail, i + 1 - start);
                    assert(tail.take(i + 1 - start) =~= s@.subrange(start as int, i + 1));
                    if !negative {
                        assert(tail =~= s@);
                    }
                }
            }
            return None;
        }
        acc = acc * 10 + d;
        i += 1;
    }
    proof {
        if !negative {
            assert(s@.subrange(0, n as int) =~= s@);
        } else {
            assert(!is_digit(s@[0]));
        }
    }
    if negative {
        if acc == limit {
            Some(i64::MIN)
        } else {
            Some(-(acc as i64))
        }
    } else if acc < limit {
        Some(acc as i64)
    } else {
        None
    }
}

} // verus!
