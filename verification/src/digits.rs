//! Decimal digit strings: the value of a digit sequence, the decimal text of
//! an integer, and executable conversions proved against those models.

use vstd::prelude::*;

verus! {

/// A decimal digit, `'0'` through `'9'`.
pub open spec fn is_digit(c: char) -> bool {
    48 <= c as int <= 57
}

/// Numeric value of one decimal digit character.
pub open spec fn digit_val(c: char) -> int {
    c as int - 48
}

/// Every character of `s` is a decimal digit.
pub open spec fn all_digits(s: Seq<char>) -> bool {
    forall|i: int| 0 <= i < s.len() ==> is_digit(#[trigger] s[i])
}

/// Value of a digit string, most significant digit first.
pub open spec fn digits_val(s: Seq<char>) -> int
    decreases s.len(),
{
    if s.len() == 0 {
        0
    } else {
        digits_val(s.drop_last()) * 10 + digit_val(s.last())
    }
}

/// The digit character for a value in `0 ..= 9`.
pub open spec fn digit_char(d: int) -> char {
    ((48 + d) as u8) as char
}

/// Decimal text of a nonnegative integer, without sign or leading zeros.
pub open spec fn dec_str(n: int) -> Seq<char>
    decreases n,
{
    if n < 10 {
        seq![digit_char(n)]
    } else {
        dec_str(n / 10).push(digit_char(n % 10))
    }
}

/// Decimal text of an integer, with a leading `'-'` when negative.
pub open spec fn int_str(n: int) -> Seq<char> {
    if n < 0 {
        seq!['-'] + dec_str(-n)
    } else {
        dec_str(n)
    }
}

/// A digit string has a nonnegative value.
pub proof fn lemma_digits_val_nonneg(s: Seq<char>)
    requires
        all_digits(s),
    ensures
        digits_val(s) >= 0,
    decreases s.len(),
{
    if s.len() > 0 {
        assert(all_digits(s.drop_last()));
        lemma_digits_val_nonneg(s.drop_last());
        assert(digit_val(s.last()) >= 0);
    }
}

/// The value of a prefix of a digit string never exceeds the whole string's value.
pub proof fn lemma_digits_val_prefix_le(s: Seq<char>, i: int)
    requires
        all_digits(s),
        0 <= i <= s.len(),
    ensures
        digits_val(s.take(i)) <= digits_val(s),
    decreases s.len(),
{
    if i == s.len() {
        assert(s.take(i) =~= s);
    } else {
        assert(all_digits(s.drop_last()));
        assert(s.take(i) =~= s.drop_last().take(i));
        lemma_digits_val_prefix_le(s.drop_last(), i);
        lemma_digits_val_nonneg(s.drop_last());
        assert(digits_val(s.drop_last()) * 10 >= digits_val(s.drop_last()));
        assert(digit_val(s.last()) >= 0);
    }
}

/// Decimal text consists of digits, is nonempty, and reading it back gives
/// the number it was made from.
pub proof fn lemma_dec_str_val(n: int)
    requires
        n >= 0,
    ensures
        all_digits(dec_str(n)),
        dec_str(n).len() >= 1,
        digits_val(dec_str(n)) == n,
    decreases n,
{
    if n < 10 {
        let s = seq![digit_char(n)];
        assert(digit_char(n) as int == 48 + n);
        assert(s.len() == 1);
        assert(s.last() == digit_char(n));
        assert(s.drop_last() =~= Seq::<char>::empty());
        assert(digits_val(s.drop_last()) == 0);
        assert(digits_val(s) == digit_val(digit_char(n)));
    } else {
        lemma_dec_str_val(n / 10);
        let p = dec_str(n / 10);
        let c = digit_char(n % 10);
        let s = p.push(c);
        assert(0 <= n % 10 < 10);
        assert(c as int == 48 + n % 10);
        assert(s.drop_last() =~= p);
        assert(s.last() == c);
        assert(forall|i: int| 0 <= i < s.len() ==> is_digit(#[trigger] s[i])) by {
            assert(forall|i: int| 0 <= i < p.len() ==> s[i] == #[trigger] p[i]);
        }
        assert(digits_val(s) == (n / 10) * 10 + n % 10);
        vstd::arithmetic::div_mod::lemma_fundamental_div_mod(n, 10);
    }
}

/// Parses a nonempty all-digit string as an `i128`, reporting `None` when the
/// text is empty, holds a non-digit, or names a value above `i128::MAX`.
pub fn parse_dec_i128(s: &str) -> (r: Option<i128>)
    ensures
        r is Some <==> (s@.len() >= 1 && all_digits(s@) && digits_val(s@) <= i128::MAX),
        r is Some ==> r->0 == digits_val(s@),
{
    let n = s.unicode_len();
    if n == 0 {
        return None;
    }
    let mut acc: i128 = 0;
    let mut i: usize = 0;
    while i < n
        invariant
            0 < n == s@.len(),
            0 <= i <= n,
            all_digits(s@.take(i as int)),
            acc == digits_val(s@.take(i as int)),
            0 <= acc,
        decreases n - i,
    {
        let c = s.get_char(i);
        let v = c as u32;
        if v < 48 || v > 57 {
            proof {
                assert(!is_digit(s@[i as int]));
            }
            return None;
        }
        let d = (v - 48) as i128;
        proof {
            assert(is_digit(s@[i as int]));
            assert(d == digit_val(s@[i as int]));
        }
        if acc > (i128::MAX - d) / 10 {
            proof {
                let q = (i128::MAX - d) / 10;
                let rem = (i128::MAX - d) % 10;
                vstd::arithmetic::div_mod::lemma_fundamental_div_mod(i128::MAX - d, 10);
                assert(i128::MAX - d == 10 * q + rem);
                assert(acc >= q + 1);
                vstd::arithmetic::mul::lemma_mul_inequality(q + 1, acc as int, 10);
                assert((q + 1) * 10 <= acc * 10);
                assert((q + 1) * 10 == 10 * q + 10) by (nonlinear_arith);
                assert(acc * 10 + d > i128::MAX);
                let t = s@.take(i + 1);
                assert(t.drop_last() =~= s@.take(i as int));
                assert(t.last() == s@[i as int]);
                assert(digits_val(t) == acc * 10 + d);
                assert(all_digits(t));
                if all_digits(s@) {
                    lemma_digits_val_prefix_le(s@, i + 1);
                    assert(digits_val(s@) > i128::MAX);
                }
            }
            return None;
        }
        proof {
            let q = (i128::MAX - d) / 10;
            let rem = (i128::MAX - d) % 10;
            vstd::arithmetic::div_mod::lemma_fundamental_div_mod(i128::MAX - d, 10);
            assert(acc <= q);
            vstd::arithmetic::mul::lemma_mul_inequality(acc as int, q, 10);
            assert(acc * 10 <= q * 10);
            assert(q * 10 == 10 * q) by (nonlinear_arith);
            assert(acc * 10 + d <= i128::MAX);
            let t = s@.take(i + 1);
            assert(t.drop_last() =~= s@.take(i as int));
            assert(t.last() == s@[i as int]);
            assert(digits_val(t) == acc * 10 + d);
            assert(all_digits(t));
        }
        acc = acc * 10 + d;
        i = i + 1;
    }
    proof {
        assert(s@.take(n as int) =~= s@);
    }
    Some(acc)
}

/// The text of one digit value.
fn digit_str(d: u128) -> (r: &'static str)
    requires
        d < 10,
    ensures
        r@ =~= seq![digit_char(d as int)],
{
    proof {
        reveal_strlit("0");
        reveal_strlit("1");
        reveal_strlit("2");
        reveal_strlit("3");
        reveal_strlit("4");
        reveal_strlit("5");
        reveal_strlit("6");
        reveal_strlit("7");
        reveal_strlit("8");
        reveal_strlit("9");
    }
    if d == 0 {
        "0"
    } else if d == 1 {
        "1"
    } else if d == 2 {
        "2"
    } else if d == 3 {
        "3"
    } else if d == 4 {
        "4"
    } else if d == 5 {
        "5"
    } else if d == 6 {
        "6"
    } else if d == 7 {
        "7"
    } else if d == 8 {
        "8"
    } else {
        "9"
    }
}

/// Decimal text of a `u128`.
fn u128_dec(n: u128) -> (r: String)
    ensures
        r@ == dec_str(n as int),
    decreases n,
{
    if n < 10 {
        String::from_str(digit_str(n))
    } else {
        let q = n / 10;
        let d = n % 10;
        let s = u128_dec(q);
        let r = s.concat(digit_str(d));
        proof {
            assert(r@ =~= dec_str(q as int).push(digit_char(d as int)));
        }
        r
    }
}

/// Decimal text of an `i128`, with a leading `'-'` when negative.
pub fn i128_to_string(n: i128) -> (r: String)
    ensures
        r@ == int_str(n as int),
{
    if n >= 0 {
        u128_dec(n as u128)
    } else {
        let m: u128 = ((-(n + 1)) as u128) + 1;
        proof {
            assert(m as int == -(n as int));
        }
        let sign = String::from_str("-");
        proof {
            reveal_strlit("-");
        }
        let r = sign.concat(u128_dec(m).as_str());
        proof {
            assert(r@ =~= seq!['-'] + dec_str(-(n as int)));
        }
        r
    }
}

} // verus!
