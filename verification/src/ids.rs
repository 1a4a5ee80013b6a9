//! Identifiers.
//!
//! Instances, nodes and products are named by 128-bit UUIDs. On the wire a
//! UUID is its hyphenated hex text (8-4-4-4-12 digits); in requests and
//! URL paths the library writes the canonical lowercase form, and when
//! decoding it accepts either case, as the service does.

use vstd::prelude::*;

use vstd::arithmetic::div_mod::{lemma_div_denominator, lemma_fundamental_div_mod};

use crate::error::DecodeError;
use crate::json::{member, req_member, Json};

verus! {

/// An instance, node, or product identifier: a 128-bit UUID held as its
/// high and low 64-bit halves.
#[derive(Debug, Clone, Copy, PartialEq, Eq, Hash, Structural)]
pub struct Uuid {
    pub hi: u64,
    pub lo: u64,
}

/// The value of one hex digit character, either case.
pub open spec fn hex_val(c: char) -> Option<int> {
    if c == '0' {
        Some(0int)
    } else if c == '1' {
        Some(1int)
    } else if c == '2' {
        Some(2int)
    } else if c == '3' {
        Some(3int)
    } else if c == '4' {
        Some(4int)
    } else if c == '5' {
        Some(5int)
    } else if c == '6' {
        Some(6int)
    } else if c == '7' {
        Some(7int)
    } else if c == '8' {
        Some(8int)
    } else if c == '9' {
        Some(9int)
    } else if c == 'a' || c == 'A' {
        Some(10int)
    } else if c == 'b' || c == 'B' {
        Some(11int)
    } else if c == 'c' || c == 'C' {
        Some(12int)
    } else if c == 'd' || c == 'D' {
        Some(13int)
    } else if c == 'e' || c == 'E' {
        Some(14int)
    } else if c == 'f' || c == 'F' {
        Some(15int)
    } else {
        None
    }
}

/// The lowercase hex digit character of a value in `0 ..= 15`.
pub open spec fn hex_char(d: int) -> char
    recommends
        0 <= d <= 15,
{
    if d == 0 {
        '0'
    } else if d == 1 {
        '1'
    } else if d == 2 {
        '2'
    } else if d == 3 {
        '3'
    } else if d == 4 {
        '4'
    } else if d == 5 {
        '5'
    } else if d == 6 {
        '6'
    } else if d == 7 {
        '7'
    } else if d == 8 {
        '8'
    } else if d == 9 {
        '9'
    } else if d == 10 {
        'a'
    } else if d == 11 {
        'b'
    } else if d == 12 {
        'c'
    } else if d == 13 {
        'd'
    } else if d == 14 {
        'e'
    } else {
        'f'
    }
}

pub open spec fn all_hex(s: Seq<char>) -> bool {
    forall|i: int| 0 <= i < s.len() ==> (#[trigger] hex_val(s[i])) is Some
}

/// The integer a character sequence denotes when read as hex digits, most
/// significant first; non-hex characters count as zero (they are ruled out
/// separately by `all_hex`).
pub open spec fn hex_val_raw(s: Seq<char>) -> int
    decreases s.len(),
{
    if s.len() == 0 {
        0
    } else {
        hex_val_raw(s.drop_last()) * 16 + (match hex_val(s.last()) {
            Some(d) => d,
            None => 0,
        })
    }
}

pub open spec fn pow16(n: nat) -> int
    decreases n,
{
    if n == 0 {
        1
    } else {
        16 * pow16((n - 1) as nat)
    }
}

/// `n` hex digit characters, most significant first and zero-padded, of
/// the low `n` nibbles of `v`.
pub open spec fn hex_fixed_chars(v: int, n: nat) -> Seq<char>
    decreases n,
{
    if n == 0 {
        Seq::empty()
    } else {
        hex_fixed_chars(v / 16, (n - 1) as nat).push(hex_char(v % 16))
    }
}

/// The canonical hyphenated lowercase text of a UUID.
pub open spec fn uuid_chars(u: Uuid) -> Seq<char> {
    hex_fixed_chars(u.hi as int / 0x100000000, 8) + seq!['-'] + hex_fixed_chars(
        (u.hi as int / 0x10000) % 0x10000,
        4,
    ) + seq!['-'] + hex_fixed_chars(u.hi as int % 0x10000, 4) + seq!['-'] + hex_fixed_chars(
        u.lo as int / 0x1000000000000,
        4,
    ) + seq!['-'] + hex_fixed_chars(u.lo as int % 0x1000000000000, 12)
}

/// The UUID a character sequence denotes: five groups of 8, 4, 4, 4 and 12
/// hex digits (either case), separated by hyphens.
pub open spec fn uuid_of_chars(s: Seq<char>) -> Option<Uuid> {
    if s.len() == 36 && s[8] == '-' && s[13] == '-' && s[18] == '-' && s[23] == '-' {
        let a = s.subrange(0, 8) + s.subrange(9, 13) + s.subrange(14, 18);
        let b = s.subrange(19, 23) + s.subrange(24, 36);
        if all_hex(a) && all_hex(b) {
            Some(Uuid { hi: hex_val_raw(a) as u64, lo: hex_val_raw(b) as u64 })
        } else {
            None
        }
    } else {
        None
    }
}

pub proof fn lemma_pow16_table()
    ensures
        pow16(1) == 0x10,
        pow16(4) == 0x10000,
        pow16(8) == 0x100000000,
        pow16(12) == 0x1000000000000,
        pow16(16) == 0x10000000000000000,
{
    assert(pow16(0) == 1);
    assert(pow16(1) == 0x10);
    assert(pow16(2) == 0x100);
    assert(pow16(3) == 0x1000);
    assert(pow16(4) == 0x10000);
    assert(pow16(5) == 0x100000);
    assert(pow16(6) == 0x1000000);
    assert(pow16(7) == 0x10000000);
    assert(pow16(8) == 0x100000000);
    assert(pow16(9) == 0x1000000000);
    assert(pow16(10) == 0x10000000000);
    assert(pow16(11) == 0x100000000000);
    assert(pow16(12) == 0x1000000000000);
    assert(pow16(13) == 0x10000000000000);
    assert(pow16(14) == 0x100000000000000);
    assert(pow16(15) == 0x1000000000000000);
    assert(pow16(16) == 0x10000000000000000);
}

pub proof fn lemma_hex_val_raw_bound(s: Seq<char>)
    ensures
        0 <= hex_val_raw(s) < pow16(s.len()),
    decreases s.len(),
{
    if s.len() > 0 {
        lemma_hex_val_raw_bound(s.drop_last());
    }
}

/// Hex text concatenates by place value.
pub proof fn lemma_hex_concat(x: Seq<char>, y: Seq<char>)
    ensures
        hex_val_raw(x + y) == hex_val_raw(x) * pow16(y.len()) + hex_val_raw(y),
    decreases y.len(),
{
    if y.len() == 0 {
        assert(x + y =~= x);
        assert(hex_val_raw(x) * 1 == hex_val_raw(x));
    } else {
        lemma_hex_concat(x, y.drop_last());
        assert((x + y).drop_last() =~= x + y.drop_last());
        assert((x + y).last() == y.last());
        let rx = hex_val_raw(x);
        let p = pow16((y.len() - 1) as nat);
        assert(pow16(y.len()) == 16 * p);
        assert((rx * p) * 16 == rx * (16 * p)) by (nonlinear_arith);
    }
}

/// Fixed-width hex text denotes the value it was written from.
pub proof fn lemma_hex_fixed_roundtrip(v: int, n: nat)
    requires
        0 <= v < pow16(n),
    ensures
        hex_fixed_chars(v, n).len() == n,
        all_hex(hex_fixed_chars(v, n)),
        hex_val_raw(hex_fixed_chars(v, n)) == v,
    decreases n,
{
    if n == 0 {
    } else {
        lemma_fundamental_div_mod(v, 16);
        assert(pow16(n) == 16 * pow16((n - 1) as nat));
        assert(v / 16 < pow16((n - 1) as nat));
        lemma_hex_fixed_roundtrip(v / 16, (n - 1) as nat);
        let p = hex_fixed_chars(v / 16, (n - 1) as nat);
        let s = hex_fixed_chars(v, n);
        assert(s.drop_last() =~= p);
        assert(s.last() == hex_char(v % 16));
        assert(hex_val(hex_char(v % 16)) == Some(v % 16));
        assert forall|i: int| 0 <= i < s.len() implies (#[trigger] hex_val(s[i])) is Some by {
            if i < p.len() {
                assert(hex_val(p[i]) is Some);
            }
        }
    }
}

/// The hex digit of a character, `None` for any other character.
pub(crate) fn hex_digit_of(c: char) -> (r: Option<u8>)
    ensures
        match r {
            Some(d) => hex_val(c) == Some(d as int),
            None => hex_val(c) is None,
        },
{
    match c {
        '0' => Some(0u8),
        '1' => Some(1u8),
        '2' => Some(2u8),
        '3' => Some(3u8),
        '4' => Some(4u8),
        '5' => Some(5u8),
        '6' => Some(6u8),
        '7' => Some(7u8),
        '8' => Some(8u8),
        '9' => Some(9u8),
        'a' | 'A' => Some(10u8),
        'b' | 'B' => Some(11u8),
        'c' | 'C' => Some(12u8),
        'd' | 'D' => Some(13u8),
        'e' | 'E' => Some(14u8),
        'f' | 'F' => Some(15u8),
        _ => None,
    }
}

/// The lowercase hex digit text of a value below sixteen.
fn hex_digit_str(d: u64) -> (r: &'static str)
    requires
        d < 16,
    ensures
        r@ == seq![hex_char(d as int)],
{
    proof {
        reveal_strlit("0");
        reveal_strlit("1");
        reveal_strlit("2");
        reveal_strlit("3");
        reveal_strlit("4");
        reveal_strlit("5");
        reveal_strlit("6");
        reveal_strlit("7");
        reveal_strlit("8");
        reveal_strlit("9");
        reveal_strlit("a");
        reveal_strlit("b");
        reveal_strlit("c");
        reveal_strlit("d");
        reveal_strlit("e");
        reveal_strlit("f");
    }
    let r = match d {
        0 => "0",
        1 => "1",
        2 => "2",
        3 => "3",
        4 => "4",
        5 => "5",
        6 => "6",
        7 => "7",
        8 => "8",
        9 => "9",
        10 => "a",
        11 => "b",
        12 => "c",
        13 => "d",
        14 => "e",
        _ => "f",
    };
    proof {
        assert(r@ =~= seq![hex_char(d as int)]);
    }
    r
}

/// Writes the low `n` nibbles of `v` as zero-padded lowercase hex.
fn hex_fixed(v: u64, n: usize) -> (r: String)
    ensures
        r@ == hex_fixed_chars(v as int, n as nat),
    decreases n,
{
    if n == 0 {
        String::new()
    } else {
        let mut s = hex_fixed(v / 16, n - 1);
        s.append(hex_digit_str(v % 16));
        proof {
            assert(hex_fixed_chars(v as int / 16, (n - 1) as nat).push(
                hex_char(v as int % 16),
            ) =~= hex_fixed_chars(v as int / 16, (n - 1) as nat) + seq![hex_char(v as int % 16)]);
        }
        s
    }
}

impl Uuid {
    /// The canonical hyphenated lowercase text of this UUID.
    pub fn hyphenated(&self) -> (r: String)
        ensures
            r@ == uuid_chars(*self),
    {
        proof {
            reveal_strlit("-");
        }
        let mut s = hex_fixed(self.hi / 0x100000000, 8);
        s.append("-");
        s.append(hex_fixed((self.hi / 0x10000) % 0x10000, 4).as_str());
        s.append("-");
        s.append(hex_fixed(self.hi % 0x10000, 4).as_str());
        s.append("-");
        s.append(hex_fixed(self.lo / 0x1000000000000, 4).as_str());
        s.append("-");
        s.append(hex_fixed(self.lo % 0x1000000000000, 12).as_str());
        proof {
            assert("-"@ =~= seq!['-']);
            assert(s@ =~= uuid_chars(*self));
        }
        s
    }
}

/// Reads `to - from` hex digits starting at `from`, extending `acc` by that
/// many places.
fn parse_hex_group(s: &str, from: usize, to: usize, acc: u64) -> (r: Option<u64>)
    requires
        from <= to <= s@.len(),
        to - from <= 16,
        acc < pow16((16 - (to - from)) as nat),
    ensures
        match r {
            Some(v) => all_hex(s@.subrange(from as int, to as int)) && v == acc * pow16(
                (to - from) as nat,
            ) + hex_val_raw(s@.subrange(from as int, to as int)),
            None => !all_hex(s@.subrange(from as int, to as int)),
        },
{
    let mut acc = acc;
    let ghost acc0 = acc;
    let mut i: usize = from;
    proof {
        lemma_pow16_table();
        assert(s@.subrange(from as int, from as int) =~= Seq::<char>::empty());
        assert(acc0 * 1 == acc0);
    }
    while i < to
        invariant
            from <= i <= to <= s@.len(),
            to - from <= 16,
            acc0 < pow16((16 - (to - from)) as nat),
            all_hex(s@.subrange(from as int, i as int)),
            acc == acc0 * pow16((i - from) as nat) + hex_val_raw(
                s@.subrange(from as int, i as int),
            ),
            acc < pow16((16 - (to - i)) as nat),
            pow16(16) == 0x10000000000000000,
        decreases to - i,
    {
        let c = s.get_char(i);
        let d = match hex_digit_of(c) {
            Some(d) => d,
            None => {
                proof {
                    assert(s@.subrange(from as int, to as int)[i - from] == c);
                }
                return None;
            },
        };
        proof {
            let pre = s@.subrange(from as int, i as int);
            let ext = s@.subrange(from as int, i as int + 1);
            assert(ext.drop_last() =~= pre);
            assert(ext.last() == c);
            assert(hex_val_raw(ext) == hex_val_raw(pre) * 16 + d);
            lemma_hex_val_raw_bound(pre);
            // room in place value for one more digit
            let k = (16 - (to - i)) as nat;
            assert(pow16(k + 1) == 16 * pow16(k));
            assert(acc * 16 + d < pow16(k + 1));
            // the accumulated value shifts by one place
            let q = pow16((i - from) as nat);
            assert(pow16((i + 1 - from) as nat) == 16 * q);
            assert((acc0 * q) * 16 == acc0 * (16 * q)) by (nonlinear_arith);
            assert(acc * 16 + d == acc0 * pow16((i + 1 - from) as nat) + hex_val_raw(ext));
            // the running value stays below u64's range
            assert(pow16(k + 1) <= pow16(16)) by {
                lemma_pow16_monotone(k + 1, 16);
            }
        }
        acc = acc * 16 + (d as u64);
        i += 1;
    }
    Some(acc)
}

pub proof fn lemma_pow16_monotone(m: nat, n: nat)
    requires
        m <= n,
    ensures
        pow16(m) <= pow16(n),
    decreases n,
{
    if m < n {
        lemma_pow16_monotone(m, (n - 1) as nat);
        lemma_pow16_positive((n - 1) as nat);
    }
}

pub proof fn lemma_pow16_positive(n: nat)
    ensures
        pow16(n) >= 1,
    decreases n,
{
    if n > 0 {
        lemma_pow16_positive((n - 1) as nat);
    }
}

/// Reads a hyphenated UUID, accepting hex digits of either case.
pub fn parse_uuid(s: &str) -> (r: Option<Uuid>)
    ensures
        r == uuid_of_chars(s@),
{
    let n = s.unicode_len();
    if n != 36 {
        return None;
    }
    if s.get_char(8) != '-' || s.get_char(13) != '-' || s.get_char(18) != '-' || s.get_char(23)
        != '-' {
        return None;
    }
    proof {
        lemma_pow16_table();
    }
    let ghost a = s@.subrange(0, 8) + s@.subrange(9, 13) + s@.subrange(14, 18);
    let ghost b = s@.subrange(19, 23) + s@.subrange(24, 36);
    let h1 = match parse_hex_group(s, 0, 8, 0) {
        Some(v) => v,
        None => {
            proof {
                lemma_bad_group_concat_left(
                    s@.subrange(0, 8),
                    s@.subrange(9, 13) + s@.subrange(14, 18),
                );
                assert(s@.subrange(0, 8) + (s@.subrange(9, 13) + s@.subrange(14, 18)) =~= a);
            }
            return None;
        },
    };
    proof {
        lemma_hex_val_raw_bound(s@.subrange(0, 8));
        lemma_pow16_monotone(8, 12);
    }
    let h2 = match parse_hex_group(s, 9, 13, h1) {
        Some(v) => v,
        None => {
            proof {
                let x = s@.subrange(9, 13);
                let bad = choose|i: int| 0 <= i < x.len() && !((#[trigger] hex_val(x[i])) is Some);
                assert(a[8 + bad] == x[bad]);
                assert(!all_hex(a));
            }
            return None;
        },
    };
    proof {
        lemma_hex_val_raw_bound(s@.subrange(0, 8));
        lemma_hex_val_raw_bound(s@.subrange(9, 13));
    }
    let hi = match parse_hex_group(s, 14, 18, h2) {
        Some(v) => v,
        None => {
            proof {
                let x = s@.subrange(14, 18);
                let bad = choose|i: int| 0 <= i < x.len() && !((#[trigger] hex_val(x[i])) is Some);
                assert(a[12 + bad] == x[bad]);
                assert(!all_hex(a));
            }
            return None;
        },
    };
    let l1 = match parse_hex_group(s, 19, 23, 0) {
        Some(v) => v,
        None => {
            proof {
                lemma_bad_group_concat_left(s@.subrange(19, 23), s@.subrange(24, 36));
            }
            return None;
        },
    };
    proof {
        lemma_hex_val_raw_bound(s@.subrange(19, 23));
    }
    let lo = match parse_hex_group(s, 24, 36, l1) {
        Some(v) => v,
        None => {
            proof {
                let x = s@.subrange(24, 36);
                let bad = choose|i: int| 0 <= i < x.len() && !((#[trigger] hex_val(x[i])) is Some);
                assert(b[4 + bad] == x[bad]);
                assert(!all_hex(b));
            }
            return None;
        },
    };
    proof {
        lemma_uuid_groups(s@, h1, h2, hi, l1, lo);
    }
    Some(Uuid { hi, lo })
}

/// A non-hex character in the left part of a concatenation spoils the whole.
proof fn lemma_bad_group_concat_left(x: Seq<char>, y: Seq<char>)
    requires
        !all_hex(x),
    ensures
        !all_hex(x + y),
{
    let bad = choose|i: int| 0 <= i < x.len() && !((#[trigger] hex_val(x[i])) is Some);
    assert((x + y)[bad] == x[bad]);
}

/// Chained group parses compute the grouped hex value.
proof fn lemma_uuid_groups(t: Seq<char>, h1: u64, h2: u64, hi: u64, l1: u64, lo: u64)
    requires
        t.len() == 36,
        all_hex(t.subrange(0, 8)),
        all_hex(t.subrange(9, 13)),
        all_hex(t.subrange(14, 18)),
        all_hex(t.subrange(19, 23)),
        all_hex(t.subrange(24, 36)),
        h1 == 0 * pow16(8) + hex_val_raw(t.subrange(0, 8)),
        h2 == h1 * pow16(4) + hex_val_raw(t.subrange(9, 13)),
        hi == h2 * pow16(4) + hex_val_raw(t.subrange(14, 18)),
        l1 == 0 * pow16(4) + hex_val_raw(t.subrange(19, 23)),
        lo == l1 * pow16(12) + hex_val_raw(t.subrange(24, 36)),
    ensures
        ({
            let a = t.subrange(0, 8) + t.subrange(9, 13) + t.subrange(14, 18);
            let b = t.subrange(19, 23) + t.subrange(24, 36);
            &&& all_hex(a)
            &&& all_hex(b)
            &&& hi == hex_val_raw(a)
            &&& lo == hex_val_raw(b)
        }),
{
    let x = t.subrange(0, 8);
    let y = t.subrange(9, 13);
    let z = t.subrange(14, 18);
    let u = t.subrange(19, 23);
    let w = t.subrange(24, 36);
    let a = x + y + z;
    let b = u + w;
    assert forall|i: int| 0 <= i < a.len() implies (#[trigger] hex_val(a[i])) is Some by {
        if i < 8 {
            assert(a[i] == x[i]);
            assert(hex_val(x[i]) is Some);
        } else if i < 12 {
            assert(a[i] == y[i - 8]);
            assert(hex_val(y[i - 8]) is Some);
        } else {
            assert(a[i] == z[i - 12]);
            assert(hex_val(z[i - 12]) is Some);
        }
    }
    assert forall|i: int| 0 <= i < b.len() implies (#[trigger] hex_val(b[i])) is Some by {
        if i < 4 {
            assert(b[i] == u[i]);
            assert(hex_val(u[i]) is Some);
        } else {
            assert(b[i] == w[i - 4]);
            assert(hex_val(w[i - 4]) is Some);
        }
    }
    lemma_hex_concat(x, y);
    lemma_hex_concat(x + y, z);
    lemma_hex_concat(u, w);
    assert((hex_val_raw(x) * pow16(4) + hex_val_raw(y)) * pow16(4) == hex_val_raw(x + y) * pow16(
        4,
    ));
}

/// The canonical text of a UUID denotes that UUID again.
pub proof fn lemma_uuid_roundtrip(u: Uuid)
    ensures
        uuid_of_chars(uuid_chars(u)) == Some(u),
{
    lemma_pow16_table();
    let hi = u.hi as int;
    let lo = u.lo as int;
    let g1 = hex_fixed_chars(hi / 0x100000000, 8);
    let g2 = hex_fixed_chars((hi / 0x10000) % 0x10000, 4);
    let g3 = hex_fixed_chars(hi % 0x10000, 4);
    let g4 = hex_fixed_chars(lo / 0x1000000000000, 4);
    let g5 = hex_fixed_chars(lo % 0x1000000000000, 12);
    assert(hi / 0x100000000 < pow16(8));
    assert(0 <= hi / 0x100000000);
    lemma_hex_fixed_roundtrip(hi / 0x100000000, 8);
    lemma_hex_fixed_roundtrip((hi / 0x10000) % 0x10000, 4);
    lemma_hex_fixed_roundtrip(hi % 0x10000, 4);
    assert(lo / 0x1000000000000 < pow16(4));
    assert(0 <= lo / 0x1000000000000);
    lemma_hex_fixed_roundtrip(lo / 0x1000000000000, 4);
    lemma_hex_fixed_roundtrip(lo % 0x1000000000000, 12);
    let s = uuid_chars(u);
    assert(s.len() == 36);
    assert(s[8] == '-' && s[13] == '-' && s[18] == '-' && s[23] == '-');
    assert(s.subrange(0, 8) =~= g1);
    assert(s.subrange(9, 13) =~= g2);
    assert(s.subrange(14, 18) =~= g3);
    assert(s.subrange(19, 23) =~= g4);
    assert(s.subrange(24, 36) =~= g5);
    let a = g1 + g2 + g3;
    let b = g4 + g5;
    lemma_hex_concat(g1, g2);
    lemma_hex_concat(g1 + g2, g3);
    lemma_hex_concat(g4, g5);
    // reassemble the halves from their groups
    lemma_fundamental_div_mod(hi, 0x10000);
    lemma_fundamental_div_mod(hi / 0x10000, 0x10000);
    lemma_div_denominator(hi, 0x10000, 0x10000);
    assert(hex_val_raw(a) == (hex_val_raw(g1) * pow16(4) + hex_val_raw(g2)) * pow16(4)
        + hex_val_raw(g3));
    assert((hi / 0x100000000 * 0x10000 + (hi / 0x10000) % 0x10000) * 0x10000 == hi / 0x100000000
        * 0x100000000 + ((hi / 0x10000) % 0x10000) * 0x10000) by (nonlinear_arith);
    assert(hex_val_raw(a) == hi);
    lemma_fundamental_div_mod(lo, 0x1000000000000);
    assert(hex_val_raw(b) == lo);
    assert(all_hex(a));
    assert(all_hex(b));
    assert(uuid_of_chars(s) == Some(Uuid { hi: hex_val_raw(a) as u64, lo: hex_val_raw(b) as u64 }));
    assert(hex_val_raw(a) as u64 == u.hi);
    assert(hex_val_raw(b) as u64 == u.lo);
}

/// What a JSON value denotes as a UUID.
pub open spec fn uuid_of_json(v: Json) -> Option<Uuid> {
    match v {
        Json::Str(s) => uuid_of_chars(s@),
        _ => None,
    }
}

/// What a required member denotes as a UUID.
#[verifier::opaque]
pub open spec fn mem_uuid(j: Json, k: Seq<char>) -> Option<Uuid> {
    match member(j, k) {
        Some(v) => uuid_of_json(v),
        None => None,
    }
}

/// A required UUID member.
pub fn get_uuid(j: &Json, k: &str) -> (r: Result<Uuid, DecodeError>)
    ensures
        r matches Ok(u) ==> mem_uuid(*j, k@) == Some(u),
        r is Err ==> mem_uuid(*j, k@) is None,
{
    proof {
        reveal(crate::ids::mem_uuid);
    }
    let c = req_member(j, k)?;
    match c {
        Json::Str(s) => match parse_uuid(s.as_str()) {
            Some(u) => Ok(u),
            None => Err(DecodeError::at(k)),
        },
        _ => Err(DecodeError::at(k)),
    }
}

} // verus!
