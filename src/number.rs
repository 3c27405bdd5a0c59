use vstd::prelude::*;
use crate::text::chars_of;

verus! {

/// The value of a digit character in base 2 to 16, if it is one.
pub open spec fn digit_value(c: char, radix: nat) -> Option<nat> {
    let d: int = if '0' <= c && c <= '9' {
        c as int - '0' as int
    } else if 'a' <= c && c <= 'f' {
        c as int - 'a' as int + 10
    } else if 'A' <= c && c <= 'F' {
        c as int - 'A' as int + 10
    } else {
        99
    };
    if d < radix { Some(d as nat) } else { None }
}

/// Whether every character of `s` is a digit in the radix.
pub open spec fn all_digits(s: Seq<char>, radix: nat) -> bool {
    forall|k: int| 0 <= k < s.len() ==> (#[trigger] digit_value(s[k], radix)) is Some
}

/// The number that the digits of `s` write in the radix.
pub open spec fn digits_value(s: Seq<char>, radix: nat) -> int
    decreases s.len(),
{
    if s.len() == 0 {
        0
    } else {
        digits_value(s.drop_last(), radix) * radix + match digit_value(s.last(), radix) {
            Some(d) => d as int,
            None => 0,
        }
    }
}

/// The integer that a literal's text writes: one or more digits of the radix,
/// with a value that fits in 64 bits.
pub open spec fn literal_value(s: Seq<char>, radix: nat) -> Option<i64> {
    if s.len() > 0 && all_digits(s, radix) && digits_value(s, radix) <= i64::MAX {
        Some(digits_value(s, radix) as i64)
    } else {
        None
    }
}

proof fn lemma_prefix_value_grows(s: Seq<char>, radix: nat, k: int)
    requires
        2 <= radix <= 16,
        0 <= k <= s.len(),
        all_digits(s, radix),
    ensures
        0 <= digits_value(s.take(k), radix) <= digits_value(s, radix),
    decreases s.len() - k,
{
    if k < s.len() {
        lemma_prefix_value_grows(s, radix, k + 1);
        assert(s.take(k + 1).drop_last() =~= s.take(k));
        assert(s.take(k + 1).last() == s[k]);
        let a = digits_value(s.take(k), radix);
        let b = digits_value(s.take(k + 1), radix);
        assert(digit_value(s[k], radix) is Some);
        lemma_nonneg(s.take(k), radix);
        assert(a <= b) by (nonlinear_arith)
            requires
                a >= 0,
                radix >= 2,
                b >= a * radix,
        ;
    } else {
        assert(s.take(k) =~= s);
        lemma_nonneg(s, radix);
    }
}

proof fn lemma_nonneg(s: Seq<char>, radix: nat)
    ensures
        digits_value(s, radix) >= 0,
    decreases s.len(),
{
    if s.len() > 0 {
        lemma_nonneg(s.drop_last(), radix);
        let a = digits_value(s.drop_last(), radix);
        assert(a * radix >= 0) by (nonlinear_arith)
            requires
                a >= 0,
        ;
    }
}

fn digit_of(c: char, radix: u32) -> (r: Option<u32>)
    requires
        2 <= radix <= 16,
    ensures
        match (r, digit_value(c, radix as nat)) {
            (Some(x), Some(y)) => x == y,
            (None, None) => true,
            _ => false,
        },
{
    let d: u32 = if '0' <= c && c <= '9' {
        (c as u32) - ('0' as u32)
    } else if 'a' <= c && c <= 'f' {
        (c as u32) - ('a' as u32) + 10
    } else if 'A' <= c && c <= 'F' {
        (c as u32) - ('A' as u32) + 10
    } else {
        99
    };
    if d < radix { Some(d) } else { None }
}

/// Reads the integer that a literal's text writes in the radix.
pub fn parse_literal(text: &String, radix: u32) -> (r: Option<i64>)
    requires
        2 <= radix <= 16,
    ensures
        r == literal_value(text@, radix as nat),
{
    let s = chars_of(text);
    if s.len() == 0 {
        return None;
    }
    let mut acc: i64 = 0;
    let mut k: usize = 0;
    while k < s.len()
        invariant
            2 <= radix <= 16,
            s@ == text@,
            k <= s@.len(),
            all_digits(s@.take(k as int), radix as nat),
            acc as int == digits_value(s@.take(k as int), radix as nat),
        decreases s@.len() - k,
    {
        let ghost pre = s@.take(k as int);
        proof {
            assert(s@.take(k as int + 1).drop_last() =~= pre);
            assert(s@.take(k as int + 1).last() == s@[k as int]);
        }
        match digit_of(s[k], radix) {
            None => {
                proof { assert(digit_value(s@[k as int], radix as nat) is None); }
                return None;
            },
            Some(d) => {
                let next = match acc.checked_mul(radix as i64) {
                    Some(m) => m.checked_add(d as i64),
                    None => None,
                };
                match next {
                    Some(n) => {
                        acc = n;
                    },
                    None => {
                        proof {
                            assert(all_digits(s@.take(k as int + 1), radix as nat));
                            if all_digits(s@, radix as nat) {
                                lemma_prefix_value_grows(s@, radix as nat, k as int + 1);
                                lemma_nonneg(pre, radix as nat);
                            }
                        }
                        return None;
                    },
                }
            },
        }
        k = k + 1;
    }
    proof { assert(s@.take(s@.len() as int) =~= s@); }
    Some(acc)
}

} // verus!
