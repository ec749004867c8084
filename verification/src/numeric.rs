//! Decimal rendering and parsing of unsigned amounts, used to print fee
//! amounts into observability attributes and to read configured fee amounts
//! from their stored string form.

use vstd::prelude::*;

verus! {

/// The character for one decimal digit value.
pub open spec fn digit_char(d: nat) -> char {
    if d == 0 {
        '0'
    } else if d == 1 {
        '1'
    } else if d == 2 {
        '2'
    } else if d == 3 {
        '3'
    } else if d == 4 {
        '4'
    } else if d == 5 {
        '5'
    } else if d == 6 {
        '6'
    } else if d == 7 {
        '7'
    } else if d == 8 {
        '8'
    } else {
        '9'
    }
}

/// The canonical decimal rendering of a number: no sign, no leading zeroes
/// (except for the number zero itself).
pub open spec fn dec_str_of(n: nat) -> Seq<char>
    decreases n,
{
    if n < 10 {
        seq![digit_char(n)]
    } else {
        dec_str_of(n / 10).push(digit_char(n % 10))
    }
}

/// Renders a number in decimal.
pub fn u128_to_dec_string(n: u128) -> (r: String)
    ensures
        r@ == dec_str_of(n as nat),
    decreases n,
{
    let digits = "0123456789";
    proof {
        reveal_strlit("0123456789");
    }
    let d = (n % 10) as usize;
    let digit = digits.substring_char(d, d + 1);
    proof {
        assert(digit@ =~= seq![digit_char((n % 10) as nat)]);
    }
    if n < 10 {
        let mut s = String::new();
        s.append(digit);
        proof {
            assert(s@ =~= dec_str_of(n as nat));
        }
        s
    } else {
        let mut s = u128_to_dec_string(n / 10);
        s.append(digit);
        proof {
            assert(s@ =~= dec_str_of(n as nat));
        }
        s
    }
}

/// The digit value of a character, if it is a decimal digit.
pub open spec fn char_digit(c: char) -> Option<nat> {
    if c == '0' {
        Some(0 as nat)
    } else if c == '1' {
        Some(1 as nat)
    } else if c == '2' {
        Some(2 as nat)
    } else if c == '3' {
        Some(3 as nat)
    } else if c == '4' {
        Some(4 as nat)
    } else if c == '5' {
        Some(5 as nat)
    } else if c == '6' {
        Some(6 as nat)
    } else if c == '7' {
        Some(7 as nat)
    } else if c == '8' {
        Some(8 as nat)
    } else if c == '9' {
        Some(9 as nat)
    } else {
        None
    }
}

/// Whether every character of the sequence is a decimal digit.
pub open spec fn all_digits(s: Seq<char>) -> bool {
    forall|i: int| 0 <= i < s.len() ==> char_digit(s[i]) is Some
}

/// The numeric value of a digit sequence, most significant digit first.
pub open spec fn dec_val(s: Seq<char>) -> nat
    decreases s.len(),
{
    if s.len() == 0 {
        0
    } else {
        dec_val(s.drop_last()) * 10 + char_digit(s.last()).unwrap_or(0 as nat)
    }
}

/// A digit string's value only grows as more digits are appended.
proof fn lemma_dec_val_prefix(s: Seq<char>, i: int)
    requires
        0 <= i <= s.len(),
    ensures
        dec_val(s.take(i)) <= dec_val(s),
    decreases s.len() - i,
{
    if i < s.len() {
        lemma_dec_val_prefix(s, i + 1);
        assert(s.take(i + 1).drop_last() =~= s.take(i));
        assert(dec_val(s.take(i)) <= dec_val(s.take(i + 1)));
    } else {
        assert(s.take(i) =~= s);
    }
}

/// Returns the digit value of a character, if it is a decimal digit.
fn digit_of_char(c: char) -> (r: Option<u128>)
    ensures
        match r {
            Some(d) => char_digit(c) == Some(d as nat),
            None => char_digit(c) is None,
        },
{
    let u = c as u32;
    if u >= 48 && u <= 57 {
        proof {
            crate::string_order::lemma_char_eq_code_point(c, '0');
            crate::string_order::lemma_char_eq_code_point(c, '1');
            crate::string_order::lemma_char_eq_code_point(c, '2');
            crate::string_order::lemma_char_eq_code_point(c, '3');
            crate::string_order::lemma_char_eq_code_point(c, '4');
            crate::string_order::lemma_char_eq_code_point(c, '5');
            crate::string_order::lemma_char_eq_code_point(c, '6');
            crate::string_order::lemma_char_eq_code_point(c, '7');
            crate::string_order::lemma_char_eq_code_point(c, '8');
            crate::string_order::lemma_char_eq_code_point(c, '9');
        }
        Some((u - 48) as u128)
    } else {
        proof {
            crate::string_order::lemma_char_eq_code_point(c, '0');
            crate::string_order::lemma_char_eq_code_point(c, '1');
            crate::string_order::lemma_char_eq_code_point(c, '2');
            crate::string_order::lemma_char_eq_code_point(c, '3');
            crate::string_order::lemma_char_eq_code_point(c, '4');
            crate::string_order::lemma_char_eq_code_point(c, '5');
            crate::string_order::lemma_char_eq_code_point(c, '6');
            crate::string_order::lemma_char_eq_code_point(c, '7');
            crate::string_order::lemma_char_eq_code_point(c, '8');
            crate::string_order::lemma_char_eq_code_point(c, '9');
        }
        None
    }
}

/// Parses an unsigned decimal number.  Succeeds exactly on non-empty strings
/// of decimal digits whose value fits in the result type.
pub fn parse_u128_dec(s: &str) -> (r: Option<u128>)
    ensures
        match r {
            Some(v) => s@.len() > 0 && all_digits(s@) && dec_val(s@) == v as nat,
            None => s@.len() == 0 || !all_digits(s@) || dec_val(s@) > u128::MAX,
        },
{
    let len = s.unicode_len();
    if len == 0 {
        return None;
    }
    let mut acc: u128 = 0;
    let mut i: usize = 0;
    while i < len
        invariant
            0 < len == s@.len(),
            i <= len,
            all_digits(s@.take(i as int)),
            acc as nat == dec_val(s@.take(i as int)),
        decreases len - i,
    {
        let c = s.get_char(i);
        let d = match digit_of_char(c) {
            Some(d) => d,
            None => {
                proof {
                    assert(char_digit(s@[i as int]) is None);
                }
                return None;
            },
        };
        let next = match acc.checked_mul(10) {
            Some(m) => m.checked_add(d),
            None => None,
        };
        acc = match next {
            Some(v) => v,
            None => {
                proof {
                    assert(s@.take(i as int + 1).drop_last() =~= s@.take(i as int));
                    assert(dec_val(s@.take(i as int + 1)) > u128::MAX);
                    lemma_dec_val_prefix(s@, i as int + 1);
                }
                return None;
            },
        };
        proof {
            assert(s@.take(i as int + 1).drop_last() =~= s@.take(i as int));
            assert(s@.take(i as int + 1).last() == s@[i as int]);
        }
        i = i + 1;
    }
    proof {
        assert(s@.take(len as int) =~= s@);
    }
    Some(acc)
}

} // verus!
