//! How an instance is billed.
//!
//! The billing kind is written to the wire as a lowercase word, and read
//! back from any letter case: `"Hourly"` and `"HOURLY"` both name the
//! hourly kind, which is how the service's older clients wrote it.

use vstd::prelude::*;

verus! {

#[derive(Debug, Clone, Copy, PartialEq, Eq, Structural)]
pub enum BillingType {
    Hourly,
    Monthly,
}

/// The wire word of a billing kind.
pub open spec fn billing_label(b: BillingType) -> Seq<char> {
    match b {
        BillingType::Hourly => "hourly"@,
        BillingType::Monthly => "monthly"@,
    }
}

/// ASCII lowercasing of one character; anything but `A ..= Z` is kept.
pub open spec fn lower_char(c: char) -> char {
    if c == 'A' {
        'a'
    } else if c == 'B' {
        'b'
    } else if c == 'C' {
        'c'
    } else if c == 'D' {
        'd'
    } else if c == 'E' {
        'e'
    } else if c == 'F' {
        'f'
    } else if c == 'G' {
        'g'
    } else if c == 'H' {
        'h'
    } else if c == 'I' {
        'i'
    } else if c == 'J' {
        'j'
    } else if c == 'K' {
        'k'
    } else if c == 'L' {
        'l'
    } else if c == 'M' {
        'm'
    } else if c == 'N' {
        'n'
    } else if c == 'O' {
        'o'
    } else if c == 'P' {
        'p'
    } else if c == 'Q' {
        'q'
    } else if c == 'R' {
        'r'
    } else if c == 'S' {
        's'
    } else if c == 'T' {
        't'
    } else if c == 'U' {
        'u'
    } else if c == 'V' {
        'v'
    } else if c == 'W' {
        'w'
    } else if c == 'X' {
        'x'
    } else if c == 'Y' {
        'y'
    } else if c == 'Z' {
        'z'
    } else {
        c
    }
}

pub open spec fn lower_seq(s: Seq<char>) -> Seq<char> {
    s.map_values(|c: char| lower_char(c))
}

/// ASCII lowercasing of one character, at run time.
fn lower_char_exec(c: char) -> (r: char)
    ensures
        r == lower_char(c),
{
    match c {
        'A' => 'a',
        'B' => 'b',
        'C' => 'c',
        'D' => 'd',
        'E' => 'e',
        'F' => 'f',
        'G' => 'g',
        'H' => 'h',
        'I' => 'i',
        'J' => 'j',
        'K' => 'k',
        'L' => 'l',
        'M' => 'm',
        'N' => 'n',
        'O' => 'o',
        'P' => 'p',
        'Q' => 'q',
        'R' => 'r',
        'S' => 's',
        'T' => 't',
        'U' => 'u',
        'V' => 'v',
        'W' => 'w',
        'X' => 'x',
        'Y' => 'y',
        'Z' => 'z',
        _ => c,
    }
}

/// Compares a string, ASCII-lowercased, against an already-lowercase word.
fn eq_lowered(s: &str, t: &str) -> (r: bool)
    ensures
        r == (lower_seq(s@) == t@),
{
    let n = s.unicode_len();
    let m = t.unicode_len();
    if n != m {
        proof {
            assert(lower_seq(s@).len() == s@.len());
        }
        return false;
    }
    let mut i: usize = 0;
    while i < n
        invariant
            i <= n,
            n == s@.len() == t@.len(),
            forall|w: int| 0 <= w < i ==> lower_char(#[trigger] s@[w]) == t@[w],
        decreases n - i,
    {
        let c = lower_char_exec(s.get_char(i));
        let d = t.get_char(i);
        if c != d {
            proof {
                assert(lower_seq(s@)[i as int] != t@[i as int]);
            }
            return false;
        }
        i += 1;
    }
    proof {
        assert(lower_seq(s@) =~= t@);
    }
    true
}

impl BillingType {
    /// The wire word: `"hourly"` or `"monthly"`.
    pub fn label(&self) -> (r: &'static str)
        ensures
            r@ == billing_label(*self),
    {
        match self {
            BillingType::Hourly => "hourly",
            BillingType::Monthly => "monthly",
        }
    }

    /// Reads a billing kind from a word of any letter case. The error
    /// message names the rejected input.
    pub fn from_str(s: &str) -> (r: Result<BillingType, String>)
        ensures
            r matches Ok(b) ==> lower_seq(s@) == billing_label(b),
            r is Err ==> lower_seq(s@) != billing_label(BillingType::Hourly) && lower_seq(s@)
                != billing_label(BillingType::Monthly),
            r matches Err(m) ==> m@ == "Invalid billing type: "@ + s@,
    {
        if eq_lowered(s, "hourly") {
            Ok(BillingType::Hourly)
        } else if eq_lowered(s, "monthly") {
            Ok(BillingType::Monthly)
        } else {
            let mut m = String::from_str("Invalid billing type: ");
            m.append(s);
            Err(m)
        }
    }
}

} // verus!
