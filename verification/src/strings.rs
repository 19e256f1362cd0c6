//! Verified text helpers: character-wise string comparison, decimal
//! rendering of integers, and the bracketed progress bar used by the
//! loss visualization.

use vstd::prelude::*;
use vstd::string::StrSliceExecFns;
use vstd::string::StringExecFns;

verus! {

/// The character for one decimal digit.
pub open spec fn digit_char(d: nat) -> char {
    if d == 0 {
        '0'
    } else if d == 1 {
        '1'
    } else if d == 2 {
        '2'
    } else if d == 3 {
        '3'
    } else if d == 4 {
        '4'
    } else if d == 5 {
        '5'
    } else if d == 6 {
        '6'
    } else if d == 7 {
        '7'
    } else if d == 8 {
        '8'
    } else {
        '9'
    }
}

/// Decimal digits of a natural number, most significant first.
pub open spec fn dec_digits(n: nat) -> Seq<char>
    decreases n,
{
    if n < 10 {
        seq![digit_char(n)]
    } else {
        dec_digits(n / 10) + seq![digit_char(n % 10)]
    }
}

/// Decimal rendering of an integer, with a leading minus sign when negative.
pub open spec fn dec_int(n: int) -> Seq<char> {
    if n < 0 {
        seq!['-'] + dec_digits((-n) as nat)
    } else {
        dec_digits(n as nat)
    }
}

/// One-character string slice for a decimal digit.
fn digit_str(d: u64) -> (r: &'static str)
    requires
        d < 10,
    ensures
        r@ == seq![digit_char(d as nat)],
{
    proof {
        reveal_strlit("0");
        reveal_strlit("1");
        reveal_strlit("2");
        reveal_strlit("3");
        reveal_strlit("4");
        reveal_strlit("5");
        reveal_strlit("6");
        reveal_strlit("7");
        reveal_strlit("8");
        reveal_strlit("9");
    }
    let r: &'static str = if d == 0 {
        "0"
    } else if d == 1 {
        "1"
    } else if d == 2 {
        "2"
    } else if d == 3 {
        "3"
    } else if d == 4 {
        "4"
    } else if d == 5 {
        "5"
    } else if d == 6 {
        "6"
    } else if d == 7 {
        "7"
    } else if d == 8 {
        "8"
    } else {
        "9"
    };
    proof {
        assert(r@ =~= seq![digit_char(d as nat)]);
    }
    r
}

/// Appends the decimal digits of `n` to `s`.
fn append_dec_u64(n: u64, s: &mut String)
    ensures
        final(s)@ == old(s)@ + dec_digits(n as nat),
    decreases n,
{
    if n < 10 {
        s.append(digit_str(n));
    } else {
        append_dec_u64(n / 10, s);
        s.append(digit_str(n % 10));
        proof {
            assert(old(s)@ + dec_digits((n / 10) as nat) + seq![digit_char((n % 10) as nat)]
                =~= old(s)@ + dec_digits(n as nat));
        }
    }
}

/// Renders a signed 32-bit integer in decimal.
pub fn i32_to_string(n: i32) -> (r: String)
    ensures
        r@ == dec_int(n as int),
{
    let mut s = String::new();
    if n < 0 {
        proof {
            reveal_strlit("-");
        }
        s.append("-");
        proof {
            assert(s@ =~= seq!['-']);
        }
        let magnitude: u64 = (-(n as i64)) as u64;
        append_dec_u64(magnitude, &mut s);
        proof {
            assert(seq!['-'] + dec_digits(magnitude as nat) =~= dec_int(n as int));
        }
    } else {
        append_dec_u64(n as u64, &mut s);
        proof {
            assert(Seq::<char>::empty() + dec_digits(n as nat) =~= dec_int(n as int));
        }
    }
    s
}

/// Tells whether two string slices hold the same characters.
pub fn str_eq(a: &str, b: &str) -> (r: bool)
    ensures
        r == (a@ == b@),
{
    let a_len = a.unicode_len();
    let b_len = b.unicode_len();
    if a_len != b_len {
        return false;
    }
    let mut i: usize = 0;
    while i < a_len
        invariant
            a_len == a@.len(),
            b_len == b@.len(),
            a_len == b_len,
            i <= a_len,
            forall|j: int| 0 <= j < i ==> a@[j] == b@[j],
        decreases a_len - i,
    {
        if a.get_char(i) != b.get_char(i) {
            return false;
        }
        i = i + 1;
    }
    proof {
        assert(a@ =~= b@);
    }
    true
}

/// Character sequence of the bracketed progress bar: `filled` hash marks,
/// then spaces, `width` columns in all.
pub open spec fn bar_seq(filled: int, width: nat) -> Seq<char> {
    seq!['['] + Seq::new(width, |j: int| if j < filled { '#' } else { ' ' }) + seq![']']
}

/// Draws the bracketed portion of a loss-visualization line: the first
/// `filled` of `width` columns carry a hash mark, the rest a space.
pub fn progress_bar(filled: usize, width: usize) -> (r: String)
    ensures
        r@ == bar_seq(filled as int, width as nat),
{
    proof {
        reveal_strlit("[");
        reveal_strlit("]");
    }
    let mut s = String::new();
    s.append("[");
    proof {
        assert(s@ =~= seq!['['] + Seq::new(0nat, |j: int| if j < filled { '#' } else { ' ' }));
    }
    let mut i: usize = 0;
    while i < width
        invariant
            i <= width,
            s@ == seq!['['] + Seq::new(i as nat, |j: int| if j < filled { '#' } else { ' ' }),
        decreases width - i,
    {
        if i < filled {
            s.append("#");
        } else {
            s.append(" ");
        }
        i = i + 1;
        proof {
            reveal_strlit("#");
            reveal_strlit(" ");
            assert(s@ =~= seq!['['] + Seq::new(i as nat, |j: int| if j < filled { '#' } else { ' ' }));
        }
    }
    s.append("]");
    proof {
        assert(s@ =~= bar_seq(filled as int, width as nat));
    }
    s
}

} // verus!
