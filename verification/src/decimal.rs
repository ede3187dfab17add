//! Verified decimal rendering of ids, used to substitute snowflakes into
//! request URIs.

use vstd::prelude::*;

verus! {

/// The character of one decimal digit.
pub open spec fn digit_char(d: nat) -> char {
    if d == 0 {
        '0'
    } else if d == 1 {
        '1'
    } else if d == 2 {
        '2'
    } else if d == 3 {
        '3'
    } else if d == 4 {
        '4'
    } else if d == 5 {
        '5'
    } else if d == 6 {
        '6'
    } else if d == 7 {
        '7'
    } else if d == 8 {
        '8'
    } else {
        '9'
    }
}

/// The decimal rendering of `n`, most significant digit first, with no
/// leading zeros (and `0` rendered as the single digit `0`).
pub open spec fn decimal_of(n: nat) -> Seq<char>
    decreases n,
{
    if n < 10 {
        seq![digit_char(n)]
    } else {
        decimal_of(n / 10).push(digit_char(n % 10))
    }
}

/// The single-character string of one decimal digit.
fn digit_str(d: u64) -> (r: &'static str)
    requires
        d < 10,
    ensures
        r@ == seq![digit_char(d as nat)],
{
    proof {
        reveal_strlit("0");
        reveal_strlit("1");
        reveal_strlit("2");
        reveal_strlit("3");
        reveal_strlit("4");
        reveal_strlit("5");
        reveal_strlit("6");
        reveal_strlit("7");
        reveal_strlit("8");
        reveal_strlit("9");
    }
    match d {
        0 => "0",
        1 => "1",
        2 => "2",
        3 => "3",
        4 => "4",
        5 => "5",
        6 => "6",
        7 => "7",
        8 => "8",
        _ => "9",
    }
}

/// Render `n` in decimal.
pub fn u64_to_decimal(n: u64) -> (r: String)
    ensures
        r@ == decimal_of(n as nat),
{
    if n == 0 {
        proof {
            reveal_strlit("0");
            assert("0"@ =~= seq![digit_char(0)]);
        }
        return String::from_str("0");
    }
    let mut digits: Vec<u64> = Vec::new();
    let mut m: u64 = n;
    proof {
        assert(decimal_of(n as nat) + rev_chars(digits@) =~= decimal_of(n as nat));
    }
    while m > 0
        invariant
            forall|i: int| 0 <= i < digits@.len() ==> #[trigger] digits@[i] < 10,
            m > 0 || digits@.len() > 0,
            decimal_of(n as nat) == if m > 0 {
                decimal_of(m as nat) + rev_chars(digits@)
            } else {
                rev_chars(digits@)
            },
        decreases m,
    {
        let d = m % 10;
        let next = m / 10;
        proof {
            let olddigits = digits@;
            assert(rev_chars(olddigits.push(d)) =~= seq![digit_char(d as nat)] + rev_chars(
                olddigits,
            ));
            if m >= 10 {
                assert(decimal_of(m as nat) == decimal_of((m / 10) as nat).push(
                    digit_char((m % 10) as nat),
                ));
                assert(decimal_of(m as nat) + rev_chars(olddigits) =~= decimal_of(next as nat) + (
                seq![digit_char(d as nat)] + rev_chars(olddigits)));
            } else {
                assert(decimal_of(m as nat) =~= seq![digit_char(d as nat)]);
                assert(decimal_of(m as nat) + rev_chars(olddigits) =~= seq![
                    digit_char(d as nat),
                ] + rev_chars(olddigits));
            }
        }
        digits.push(d);
        m = next;
    }
    let mut r = String::new();
    let mut j: usize = digits.len();
    proof {
        assert(rev_chars(digits@).skip(digits@.len() as int) =~= Seq::<char>::empty());
    }
    while j > 0
        invariant
            j <= digits@.len(),
            forall|i: int| 0 <= i < digits@.len() ==> #[trigger] digits@[i] < 10,
            decimal_of(n as nat) == rev_chars(digits@),
            r@ == rev_chars(digits@).take(digits@.len() - j),
        decreases j,
    {
        j = j - 1;
        r.append(digit_str(digits[j]));
        proof {
            let k = digits@.len() - j - 1;
            assert(rev_chars(digits@)[k] == digit_char(digits@[j as int] as nat));
            assert(rev_chars(digits@).take(k + 1) =~= rev_chars(digits@).take(k).push(
                rev_chars(digits@)[k],
            ));
            assert(r@ =~= rev_chars(digits@).take(digits@.len() - j));
        }
    }
    proof {
        assert(rev_chars(digits@).take(digits@.len() as int) =~= rev_chars(digits@));
    }
    r
}

/// The digits as characters, last collected digit first: collection works
/// from the least significant end, rendering from the most significant.
pub open spec fn rev_chars(digits: Seq<u64>) -> Seq<char> {
    Seq::new(digits.len(), |i: int| digit_char(digits[digits.len() - 1 - i] as nat))
}

} // verus!
