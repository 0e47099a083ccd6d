//! Decimal rendering of the integers that ride on the command channel.

use vstd::prelude::*;
use vstd::string::StringExecFns;

verus! {

/// The character for one decimal digit.
pub open spec fn digit_char(d: nat) -> char
    recommends
        d < 10,
{
    ((d + 48) as u8) as char
}

/// The decimal digit sequence of a natural number, most significant first.
pub open spec fn dec_digits(n: nat) -> Seq<char>
    decreases n,
{
    if n < 10 {
        seq![digit_char(n)]
    } else {
        dec_digits(n / 10).push(digit_char(n % 10))
    }
}

/// The decimal rendering of an integer: a minus sign for negatives, then the
/// digits of the magnitude.
pub open spec fn dec_int(i: int) -> Seq<char> {
    if i < 0 {
        seq!['-'] + dec_digits((-i) as nat)
    } else {
        dec_digits(i as nat)
    }
}

/// The character of a decimal digit lies between `'0'` and `'9'`.
pub proof fn lemma_digit_char_range(d: nat)
    requires
        d < 10,
    ensures
        '0' <= digit_char(d) <= '9',
{
    assert('0' == (48u8 as char));
    assert('9' == (57u8 as char));
    assert(digit_char(d) == (((d + 48) as u8) as char));
}

/// Decimal digits are drawn from `'0'..='9'`.
pub proof fn lemma_dec_digits_range(n: nat)
    ensures
        forall|i: int| 0 <= i < dec_digits(n).len() ==> '0' <= #[trigger] dec_digits(n)[i] <= '9',
    decreases n,
{
    if n < 10 {
        lemma_digit_char_range(n);
        assert(dec_digits(n)[0] == digit_char(n));
    } else {
        lemma_dec_digits_range(n / 10);
        lemma_digit_char_range(n % 10);
        let prefix = dec_digits(n / 10);
        assert forall|i: int| 0 <= i < dec_digits(n).len() implies '0' <= #[trigger] dec_digits(
            n,
        )[i] <= '9' by {
            if i < prefix.len() {
                assert(dec_digits(n)[i] == prefix[i]);
            } else {
                assert(dec_digits(n)[i] == digit_char(n % 10));
            }
        }
    }
}

/// A decimal rendering never holds a null byte or a space.
pub proof fn lemma_dec_int_plain(i: int)
    ensures
        forall|k: int|
            0 <= k < dec_int(i).len() ==> #[trigger] dec_int(i)[k] != '\0' && dec_int(i)[k] != ' ',
{
    if i < 0 {
        lemma_dec_digits_range((-i) as nat);
    } else {
        lemma_dec_digits_range(i as nat);
    }
}

/// The one-character string of a decimal digit.
fn digit_str(d: u64) -> (r: &'static str)
    requires
        d < 10,
    ensures
        r@ == seq![digit_char(d as nat)],
{
    proof {
        reveal_strlit("0");
        reveal_strlit("1");
        reveal_strlit("2");
        reveal_strlit("3");
        reveal_strlit("4");
        reveal_strlit("5");
        reveal_strlit("6");
        reveal_strlit("7");
        reveal_strlit("8");
        reveal_strlit("9");
    }
    let r: &'static str = match d {
        0 => "0",
        1 => "1",
        2 => "2",
        3 => "3",
        4 => "4",
        5 => "5",
        6 => "6",
        7 => "7",
        8 => "8",
        _ => "9",
    };
    proof {
        assert(r@ =~= seq![digit_char(d as nat)]);
    }
    r
}

/// Render an unsigned integer in decimal.
pub fn u64_to_string(n: u64) -> (s: String)
    ensures
        s@ == dec_digits(n as nat),
    decreases n,
{
    if n < 10 {
        String::from_str(digit_str(n))
    } else {
        let mut s = u64_to_string(n / 10);
        s.append(digit_str(n % 10));
        proof {
            assert(s@ =~= dec_digits(n as nat));
        }
        s
    }
}

/// Render a signed integer in decimal.
pub fn i64_to_string(i: i64) -> (s: String)
    ensures
        s@ == dec_int(i as int),
{
    if i >= 0 {
        u64_to_string(i as u64)
    } else {
        let mag: u64 = (0i128 - (i as i128)) as u64;
        proof {
            reveal_strlit("-");
        }
        let mut s = String::from_str("-");
        s.append(u64_to_string(mag).as_str());
        proof {
            assert(s@ =~= dec_int(i as int));
        }
        s
    }
}

/// Render a machine-sized unsigned integer in decimal.
pub fn usize_to_string(n: usize) -> (s: String)
    ensures
        s@ == dec_digits(n as nat),
{
    u64_to_string(n as u64)
}

} // verus!
