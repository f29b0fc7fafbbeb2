//! Decimal digit strings: a specification of canonical decimal notation for
//! natural numbers, together with verified formatting and parsing routines
//! that are proved to be mutual inverses.

use vstd::prelude::*;

verus! {

/// The character that denotes a single decimal digit value.
pub open spec fn digit_char(d: int) -> char {
    if d == 0 {
        '0'
    } else if d == 1 {
        '1'
    } else if d == 2 {
        '2'
    } else if d == 3 {
        '3'
    } else if d == 4 {
        '4'
    } else if d == 5 {
        '5'
    } else if d == 6 {
        '6'
    } else if d == 7 {
        '7'
    } else if d == 8 {
        '8'
    } else {
        '9'
    }
}

/// Whether `c` is an ASCII decimal digit.
pub open spec fn is_digit_char(c: char) -> bool {
    c == '0' || c == '1' || c == '2' || c == '3' || c == '4' || c == '5' || c == '6' || c == '7'
        || c == '8' || c == '9'
}

/// The value a decimal digit character denotes; non-digits count as zero.
pub open spec fn digit_value(c: char) -> nat {
    if c == '1' {
        1
    } else if c == '2' {
        2
    } else if c == '3' {
        3
    } else if c == '4' {
        4
    } else if c == '5' {
        5
    } else if c == '6' {
        6
    } else if c == '7' {
        7
    } else if c == '8' {
        8
    } else if c == '9' {
        9
    } else {
        0
    }
}

/// The canonical decimal notation of `n`: no sign, no leading zero
/// (except for the single digit of zero itself).
pub open spec fn dec_digits(n: nat) -> Seq<char>
    decreases n,
{
    if n < 10 {
        seq![digit_char(n as int)]
    } else {
        dec_digits(n / 10) + seq![digit_char((n % 10) as int)]
    }
}

/// Whether every character of `s` is a decimal digit.
pub open spec fn all_digits(s: Seq<char>) -> bool {
    forall|i: int| 0 <= i < s.len() ==> is_digit_char(#[trigger] s[i])
}

/// The number denoted by a digit string, read most significant digit first.
pub open spec fn dec_value(s: Seq<char>) -> nat
    decreases s.len(),
{
    if s.len() == 0 {
        0
    } else {
        dec_value(s.drop_last()) * 10 + digit_value(s.last())
    }
}

/// Formatting `n` yields a non-empty, all-digit string that parses back to `n`.
pub proof fn lemma_dec_digits_value(n: nat)
    ensures
        dec_digits(n).len() >= 1,
        all_digits(dec_digits(n)),
        dec_value(dec_digits(n)) == n,
    decreases n,
{
    if n < 10 {
        let s = dec_digits(n);
        assert(s =~= seq![digit_char(n as int)]);
        assert(s.drop_last() =~= Seq::<char>::empty());
        assert(dec_value(Seq::<char>::empty()) == 0);
        assert(s.last() == digit_char(n as int));
        assert(dec_value(s) == dec_value(s.drop_last()) * 10 + digit_value(s.last()));
    } else {
        lemma_dec_digits_value(n / 10);
        let hi = dec_digits(n / 10);
        let last = digit_char((n % 10) as int);
        let s = dec_digits(n);
        assert(s =~= hi + seq![last]);
        assert(s.drop_last() =~= hi);
        assert(s.last() == last);
        assert(dec_value(s) == dec_value(hi) * 10 + digit_value(last));
        assert(digit_value(last) == n % 10);
        vstd::arithmetic::div_mod::lemma_fundamental_div_mod(n as int, 10);
    }
}

/// A digit string's value only grows as more digits are appended.
pub proof fn lemma_dec_value_prefix_le(s: Seq<char>, i: int)
    requires
        0 <= i <= s.len(),
    ensures
        dec_value(s.subrange(0, i)) <= dec_value(s),
    decreases s.len() - i,
{
    if i == s.len() {
        assert(s.subrange(0, i) =~= s);
    } else {
        lemma_dec_value_prefix_le(s, i + 1);
        let shorter = s.subrange(0, i);
        let longer = s.subrange(0, i + 1);
        assert(longer.drop_last() =~= shorter);
        assert(dec_value(longer) == dec_value(shorter) * 10 + digit_value(longer.last()));
        assert(dec_value(shorter) <= dec_value(shorter) * 10) by (nonlinear_arith);
    }
}

/// The string for one decimal digit.
fn digit_str(d: u8) -> (s: &'static str)
    requires
        d < 10,
    ensures
        s@ =~= seq![digit_char(d as int)],
{
    proof {
        reveal_strlit("0");
        reveal_strlit("1");
        reveal_strlit("2");
        reveal_strlit("3");
        reveal_strlit("4");
        reveal_strlit("5");
        reveal_strlit("6");
        reveal_strlit("7");
        reveal_strlit("8");
        reveal_strlit("9");
    }
    match d {
        0 => "0",
        1 => "1",
        2 => "2",
        3 => "3",
        4 => "4",
        5 => "5",
        6 => "6",
        7 => "7",
        8 => "8",
        _ => "9",
    }
}

/// Render `n` in canonical decimal notation.
pub fn format_u128(n: u128) -> (s: String)
    ensures
        s@ == dec_digits(n as nat),
    decreases n,
{
    if n < 10 {
        let s = digit_str(n as u8).to_owned();
        proof {
            assert(s@ =~= dec_digits(n as nat));
        }
        s
    } else {
        let mut s = format_u128(n / 10);
        s.append(digit_str((n % 10) as u8));
        proof {
            assert(s@ =~= dec_digits(n as nat));
        }
        s
    }
}

/// The canonical decimal notation of an integer: a leading minus sign for
/// negative values.
pub open spec fn int_digits(v: int) -> Seq<char> {
    if v < 0 {
        seq!['-'] + dec_digits((-v) as nat)
    } else {
        dec_digits(v as nat)
    }
}

/// Render `v` in canonical decimal notation, with a sign when negative.
pub fn format_i128(v: i128) -> (s: String)
    requires
        v != i128::MIN,
    ensures
        s@ == int_digits(v as int),
{
    if v < 0 {
        let mut s = "-".to_owned();
        s.append(format_u128((-v) as u128).as_str());
        proof {
            reveal_strlit("-");
            assert("-"@ =~= seq!['-']);
            assert(s@ =~= int_digits(v as int));
        }
        s
    } else {
        format_u128(v as u128)
    }
}

/// Render `n` in canonical decimal notation.
pub fn format_usize(n: usize) -> (s: String)
    ensures
        s@ == dec_digits(n as nat),
{
    format_u128(n as u128)
}

/// Reduce into `0..m` by wrapping; the divisor must be positive.
pub(crate) fn emod_i128(a: i128, m: i128) -> (r: i128)
    requires
        1 <= m,
        a != i128::MIN,
    ensures
        r == (a as int) % (m as int),
        0 <= r < m,
{
    if a >= 0 {
        a % m
    } else {
        let t = -(a + 1);
        let r0 = t % m;
        proof {
            let c = a as int;
            let mi = m as int;
            let q = (t as int) / mi;
            vstd::arithmetic::div_mod::lemma_fundamental_div_mod(t as int, mi);
            assert(mi * (-1 - q) == -mi + mi * (-q)) by (nonlinear_arith);
            assert(mi * (-q) == -(mi * q)) by (nonlinear_arith);
            assert(c == mi * (-1 - q) + (mi - r0 - 1));
            vstd::arithmetic::div_mod::lemma_fundamental_div_mod_converse(
                c,
                mi,
                -1 - q,
                mi - r0 - 1,
            );
        }
        m - r0 - 1
    }
}

/// The value of one decimal digit character, or `None` for any other character.
pub fn char_digit(c: char) -> (r: Option<u8>)
    ensures
        r is Some <==> is_digit_char(c),
        r matches Some(d) ==> d == digit_value(c) && d < 10,
{
    match c {
        '0' => Some(0),
        '1' => Some(1),
        '2' => Some(2),
        '3' => Some(3),
        '4' => Some(4),
        '5' => Some(5),
        '6' => Some(6),
        '7' => Some(7),
        '8' => Some(8),
        '9' => Some(9),
        _ => None,
    }
}

/// Parse a string of decimal digits.
///
/// Succeeds exactly on non-empty digit strings whose value fits in `usize`.
pub fn parse_usize(s: &str) -> (r: Option<usize>)
    ensures
        r is Some <==> s@.len() > 0 && all_digits(s@) && dec_value(s@) <= usize::MAX,
        r matches Some(n) ==> n == dec_value(s@),
{
    let len = s.unicode_len();
    if len == 0 {
        return None;
    }
    let mut i: usize = 0;
    let mut acc: usize = 0;
    while i < len
        invariant
            0 <= i <= len,
            len == s@.len(),
            forall|j: int| 0 <= j < i ==> is_digit_char(#[trigger] s@[j]),
            acc == dec_value(s@.subrange(0, i as int)),
        decreases len - i,
    {
        let c = s.get_char(i);
        let ghost prefix = s@.subrange(0, i as int);
        let ghost longer = s@.subrange(0, i as int + 1);
        proof {
            assert(longer.drop_last() =~= prefix);
            assert(longer.last() == s@[i as int]);
        }
        match char_digit(c) {
            None => {
                assert(!all_digits(s@));
                return None;
            },
            Some(d) => {
                if acc > (usize::MAX - d as usize) / 10 {
                    proof {
                        assert(dec_value(longer) == acc * 10 + d);
                        assert(acc * 10 + d > usize::MAX) by (nonlinear_arith)
                            requires
                                acc > (usize::MAX - d as usize) / 10,
                                d < 10,
                        ;
                        lemma_dec_value_prefix_le(s@, i as int + 1);
                    }
                    return None;
                }
                proof {
                    assert(acc * 10 + d <= usize::MAX) by (nonlinear_arith)
                        requires
                            acc <= (usize::MAX - d as usize) / 10,
                            d < 10,
                    ;
                }
                acc = acc * 10 + d as usize;
                i += 1;
            },
        }
    }
    proof {
        assert(s@.subrange(0, len as int) =~= s@);
    }
    Some(acc)
}

} // verus!
