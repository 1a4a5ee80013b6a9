//! Decimal integer text.
//!
//! JSON numbers travel through the document model as their decimal text.
//! This module gives that text its meaning: what integer a digit string
//! denotes, which strings denote one at all, and the canonical text of an
//! integer. Fields of every integer width decode through these functions;
//! encoding always produces the canonical text (no sign for zero, no
//! leading zeros), which is exactly what the service's own encoder emits.

use vstd::prelude::*;

verus! {

/// The value of a single decimal digit character.
pub open spec fn digit_val(c: char) -> Option<int> {
    if c == '0' {
        Some(0int)
    } else if c == '1' {
        Some(1int)
    } else if c == '2' {
        Some(2int)
    } else if c == '3' {
        Some(3int)
    } else if c == '4' {
        Some(4int)
    } else if c == '5' {
        Some(5int)
    } else if c == '6' {
        Some(6int)
    } else if c == '7' {
        Some(7int)
    } else if c == '8' {
        Some(8int)
    } else if c == '9' {
        Some(9int)
    } else {
        None
    }
}

/// The decimal digit character of a value in `0 ..= 9`.
pub open spec fn digit_char(d: int) -> char
    recommends
        0 <= d <= 9,
{
    if d == 0 {
        '0'
    } else if d == 1 {
        '1'
    } else if d == 2 {
        '2'
    } else if d == 3 {
        '3'
    } else if d == 4 {
        '4'
    } else if d == 5 {
        '5'
    } else if d == 6 {
        '6'
    } else if d == 7 {
        '7'
    } else if d == 8 {
        '8'
    } else {
        '9'
    }
}

pub open spec fn all_digits(s: Seq<char>) -> bool {
    forall|i: int| 0 <= i < s.len() ==> (#[trigger] digit_val(s[i])) is Some
}

/// The integer a character sequence denotes when read as decimal digits,
/// most significant first; non-digit characters count as zero (they are
/// ruled out separately by `all_digits`).
pub open spec fn dec_val_raw(s: Seq<char>) -> int
    decreases s.len(),
{
    if s.len() == 0 {
        0
    } else {
        dec_val_raw(s.drop_last()) * 10 + (match digit_val(s.last()) {
            Some(d) => d,
            None => 0,
        })
    }
}

/// The `u64` a digit string denotes; `None` when the string is empty, holds
/// a non-digit, or denotes a value over `u64::MAX`.
pub open spec fn dec_u64(s: Seq<char>) -> Option<u64> {
    if s.len() > 0 && all_digits(s) && dec_val_raw(s) <= u64::MAX {
        Some(dec_val_raw(s) as u64)
    } else {
        None
    }
}

/// The `i64` a decimal string denotes: an optional leading minus sign, then
/// digits; `None` outside `i64`'s range.
pub open spec fn dec_i64(s: Seq<char>) -> Option<i64> {
    if s.len() > 0 && s[0] == '-' {
        let t = s.drop_first();
        if t.len() > 0 && all_digits(t) && dec_val_raw(t) <= 0x8000000000000000 {
            Some((-dec_val_raw(t)) as i64)
        } else {
            None
        }
    } else {
        match dec_u64(s) {
            Some(v) => if v <= i64::MAX as u64 {
                Some(v as i64)
            } else {
                None
            },
            None => None,
        }
    }
}

/// Canonical decimal text of a non-negative integer: no sign, no leading
/// zeros, `"0"` for zero.
pub open spec fn dec_digits(n: int) -> Seq<char>
    recommends
        n >= 0,
    decreases n,
{
    if n < 10 {
        seq![digit_char(n)]
    } else {
        dec_digits(n / 10).push(digit_char(n % 10))
    }
}

pub proof fn lemma_dec_val_raw_nonneg(s: Seq<char>)
    ensures
        dec_val_raw(s) >= 0,
    decreases s.len(),
{
    if s.len() > 0 {
        lemma_dec_val_raw_nonneg(s.drop_last());
    }
}

/// A digit string denotes at least what any of its prefixes denotes.
pub proof fn lemma_dec_val_raw_prefix(s: Seq<char>, j: int)
    requires
        0 <= j <= s.len(),
    ensures
        dec_val_raw(s) >= dec_val_raw(s.take(j)),
    decreases s.len() - j,
{
    if j == s.len() {
        assert(s.take(j) =~= s);
    } else {
        lemma_dec_val_raw_prefix(s, j + 1);
        assert(s.take(j + 1).drop_last() =~= s.take(j));
        lemma_dec_val_raw_nonneg(s.take(j));
    }
}

/// The digit character of a decimal digit, `None` for any other character.
pub(crate) fn digit_of(c: char) -> (r: Option<u8>)
    ensures
        match r {
            Some(d) => digit_val(c) == Some(d as int),
            None => digit_val(c) is None,
        },
{
    match c {
        '0' => Some(0u8),
        '1' => Some(1u8),
        '2' => Some(2u8),
        '3' => Some(3u8),
        '4' => Some(4u8),
        '5' => Some(5u8),
        '6' => Some(6u8),
        '7' => Some(7u8),
        '8' => Some(8u8),
        '9' => Some(9u8),
        _ => None,
    }
}

/// Reads a decimal digit string as a `u64`.
pub fn parse_u64_dec(s: &str) -> (r: Option<u64>)
    ensures
        r == dec_u64(s@),
{
    let n = s.unicode_len();
    if n == 0 {
        return None;
    }
    let mut acc: u64 = 0;
    let mut i: usize = 0;
    proof {
        assert(s@.take(0) =~= Seq::<char>::empty());
    }
    while i < n
        invariant
            0 < n == s@.len(),
            i <= n,
            all_digits(s@.take(i as int)),
            acc == dec_val_raw(s@.take(i as int)),
        decreases n - i,
    {
        let c = s.get_char(i);
        let d = match digit_of(c) {
            Some(d) => d,
            None => {
                proof {
                    assert(s@[i as int] == c);
                    assert(!all_digits(s@));
                }
                return None;
            },
        };
        if acc > (u64::MAX - d as u64) / 10 {
            proof {
                assert(s@.take(i as int + 1).drop_last() =~= s@.take(i as int));
                assert(s@.take(i as int + 1).last() == c);
                assert(dec_val_raw(s@.take(i as int + 1)) == acc * 10 + d);
                assert(acc * 10 + d > u64::MAX);
                lemma_dec_val_raw_prefix(s@, i as int + 1);
                assert(dec_val_raw(s@) > u64::MAX);
            }
            return None;
        }
        proof {
            assert(s@.take(i as int + 1).drop_last() =~= s@.take(i as int));
            assert(s@.take(i as int + 1).last() == c);
        }
        acc = acc * 10 + (d as u64);
        i += 1;
    }
    proof {
        assert(s@.take(n as int) =~= s@);
    }
    Some(acc)
}

/// Reads a decimal string, with an optional leading minus sign, as an `i64`.
pub fn parse_i64_dec(s: &str) -> (r: Option<i64>)
    ensures
        r == dec_i64(s@),
{
    let n = s.unicode_len();
    if n > 0 && s.get_char(0) == '-' {
        let t = s.substring_char(1, n);
        proof {
            assert(t@ =~= s@.drop_first());
        }
        match parse_u64_dec(t) {
            Some(m) => {
                proof {
                    lemma_dec_val_raw_nonneg(s@.drop_first());
                }
                if m <= 9223372036854775807u64 {
                    Some(-(m as i64))
                } else if m == 9223372036854775808u64 {
                    Some(i64::MIN)
                } else {
                    None
                }
            },
            None => {
                proof {
                    // a magnitude too large for u64 is also too large for i64
                    if s@.drop_first().len() > 0 && all_digits(s@.drop_first()) {
                        lemma_dec_val_raw_nonneg(s@.drop_first());
                    }
                }
                None
            },
        }
    } else {
        match parse_u64_dec(s) {
            Some(v) => if v <= 9223372036854775807u64 {
                Some(v as i64)
            } else {
                None
            },
            None => None,
        }
    }
}

/// The digit text of a value below ten.
fn digit_str(d: u64) -> (r: &'static str)
    requires
        d < 10,
    ensures
        r@ == seq![digit_char(d as int)],
{
    proof {
        reveal_strlit("0");
        reveal_strlit("1");
        reveal_strlit("2");
        reveal_strlit("3");
        reveal_strlit("4");
        reveal_strlit("5");
        reveal_strlit("6");
        reveal_strlit("7");
        reveal_strlit("8");
        reveal_strlit("9");
    }
    let r = match d {
        0 => "0",
        1 => "1",
        2 => "2",
        3 => "3",
        4 => "4",
        5 => "5",
        6 => "6",
        7 => "7",
        8 => "8",
        _ => "9",
    };
    proof {
        assert(r@ =~= seq![digit_char(d as int)]);
    }
    r
}

/// Writes the canonical decimal text of a `u64`.
pub fn u64_to_dec(n: u64) -> (r: String)
    ensures
        r@ == dec_digits(n as int),
    decreases n,
{
    if n < 10 {
        String::from_str(digit_str(n))
    } else {
        let mut s = u64_to_dec(n / 10);
        s.append(digit_str(n % 10));
        proof {
            assert(dec_digits((n / 10) as int).push(digit_char((n % 10) as int)) =~= dec_digits(
                (n / 10) as int,
            ) + seq![digit_char((n % 10) as int)]);
        }
        s
    }
}

/// Canonical decimal text round-trips: the text of `n` denotes `n`.
pub proof fn lemma_dec_roundtrip_u64(n: u64)
    ensures
        dec_u64(dec_digits(n as int)) == Some(n),
    decreases n,
{
    let s = dec_digits(n as int);
    if n < 10 {
        assert(s.drop_last() =~= Seq::<char>::empty());
        assert(dec_val_raw(Seq::<char>::empty()) == 0);
        assert(digit_val(digit_char(n as int)) == Some(n as int));
        assert(dec_val_raw(s) == n);
    } else {
        lemma_dec_roundtrip_u64(n / 10);
        let p = dec_digits((n / 10) as int);
        lemma_dec_val_raw_nonneg(p);
        assert(s.drop_last() =~= p);
        assert(s.last() == digit_char((n % 10) as int));
        assert(digit_val(digit_char((n % 10) as int)) == Some((n % 10) as int));
        assert(dec_val_raw(s) == dec_val_raw(p) * 10 + n % 10);
        assert(dec_val_raw(p) as u64 == n / 10);
        assert(dec_val_raw(p) == (n / 10) as int);
        assert((n / 10) as int * 10 + n % 10 == n as int);
        assert forall|i: int| 0 <= i < s.len() implies (#[trigger] digit_val(s[i])) is Some by {
            if i < p.len() {
                assert(digit_val(p[i]) is Some);
            }
        }
    }
}

} // verus!
