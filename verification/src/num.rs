//! Digit arithmetic on natural numbers: counting, extracting and splitting
//! decimal digits, all tied to the canonical decimal notation.

use vstd::prelude::*;

use crate::numfmt::dec_digits;

verus! {

/// The number of decimal digits of `n`; zero has one digit.
pub open spec fn spec_num_digits(n: nat) -> nat
    decreases n,
{
    if n < 10 {
        1
    } else {
        1 + spec_num_digits(n / 10)
    }
}

/// The `e`-th power of ten.
pub open spec fn pow10(e: nat) -> nat
    decreases e,
{
    if e == 0 {
        1
    } else {
        10 * pow10((e - 1) as nat)
    }
}

/// A digit count is never larger than the number itself plus one.
pub proof fn lemma_num_digits_le(n: nat)
    ensures
        1 <= spec_num_digits(n) <= n + 1,
    decreases n,
{
    if n >= 10 {
        lemma_num_digits_le(n / 10);
    }
}

/// The canonical decimal notation has exactly `spec_num_digits` characters.
pub proof fn lemma_dec_digits_len(n: nat)
    ensures
        dec_digits(n).len() == spec_num_digits(n),
    decreases n,
{
    if n >= 10 {
        lemma_dec_digits_len(n / 10);
    }
}

/// Powers of ten grow with the exponent.
pub proof fn lemma_pow10_monotone(a: nat, b: nat)
    requires
        a <= b,
    ensures
        pow10(a) <= pow10(b),
    decreases b,
{
    if a < b {
        lemma_pow10_monotone(a, (b - 1) as nat);
        assert(pow10(b) == 10 * pow10((b - 1) as nat));
        assert(pow10((b - 1) as nat) <= 10 * pow10((b - 1) as nat)) by (nonlinear_arith)
            requires
                pow10((b - 1) as nat) >= 0,
        ;
    }
}

/// Ten to one less than the digit count never exceeds the number.
pub proof fn lemma_pow10_below(n: nat)
    requires
        1 <= n,
    ensures
        pow10((spec_num_digits(n) - 1) as nat) <= n,
    decreases n,
{
    if n < 10 {
    } else {
        lemma_pow10_below(n / 10);
        lemma_num_digits_le(n / 10);
        let d = spec_num_digits(n / 10);
        assert(pow10(d) == 10 * pow10((d - 1) as nat));
        assert(10 * pow10((d - 1) as nat) <= 10 * (n / 10)) by (nonlinear_arith)
            requires
                pow10((d - 1) as nat) <= n / 10,
        ;
        assert(10 * (n / 10) <= n) by {
            vstd::arithmetic::div_mod::lemma_fundamental_div_mod(n as int, 10);
        }
    }
}

/// A number that fits the machine has at most twenty digits.
pub proof fn lemma_usize_digits(n: nat)
    requires
        n <= usize::MAX,
    ensures
        spec_num_digits(n) <= 20,
{
    if spec_num_digits(n) > 20 {
        assert(n >= 10);
        lemma_pow10_below(n);
        lemma_pow10_monotone(20, (spec_num_digits(n) - 1) as nat);
        assert(pow10(20) == 100000000000000000000) by {
            reveal_with_fuel(pow10, 21);
        }
        assert(false);
    }
}

/// The number of decimal digits of `num`.
pub fn num_digits(num: usize) -> (r: usize)
    ensures
        r == spec_num_digits(num as nat),
        r == dec_digits(num as nat).len(),
    decreases num,
{
    proof {
        lemma_num_digits_le(num as nat);
        lemma_dec_digits_len(num as nat);
    }
    if num < 10 {
        1
    } else {
        proof {
            lemma_num_digits_le((num / 10) as nat);
        }
        1 + num_digits(num / 10)
    }
}

/// Ten to the `e`-th power.
fn pow10_exec(e: usize) -> (r: usize)
    requires
        pow10(e as nat) <= usize::MAX,
    ensures
        r == pow10(e as nat),
    decreases e,
{
    if e == 0 {
        1
    } else {
        proof {
            lemma_pow10_monotone((e - 1) as nat, e as nat);
            assert(pow10(e as nat) == 10 * pow10((e - 1) as nat));
        }
        let lower = pow10_exec(e - 1);
        10 * lower
    }
}

/// Split `num` at digit `idx` from the right: the digits above the split,
/// and the `idx` digits below it.
pub fn split_num_at(num: usize, idx: u32) -> (r: (usize, usize))
    requires
        pow10(idx as nat) <= usize::MAX,
    ensures
        r.0 == num as nat / pow10(idx as nat),
        r.1 == num as nat % pow10(idx as nat),
{
    let div = pow10_exec(idx as usize);
    proof {
        assert(pow10(idx as nat) >= 1) by {
            lemma_pow10_monotone(0, idx as nat);
        }
    }
    (num / div, num % div)
}

/// The decimal digit of `num` at position `idx` from the right.
pub fn digit_at(num: usize, idx: usize) -> (r: usize)
    requires
        pow10(idx as nat) <= usize::MAX,
    ensures
        r == num as nat / pow10(idx as nat) % 10,
{
    let div = pow10_exec(idx);
    proof {
        assert(pow10(idx as nat) >= 1) by {
            lemma_pow10_monotone(0, idx as nat);
        }
    }
    num / div % 10
}

/// Split `num` in the middle: an even digit count splits exactly in half,
/// an odd one leaves the extra digit on the left.
pub fn split_num_once(num: usize) -> (r: (usize, usize))
    ensures
        r.0 == num as nat / pow10(spec_num_digits(num as nat) / 2),
        r.1 == num as nat % pow10(spec_num_digits(num as nat) / 2),
{
    let digits = num_digits(num);
    proof {
        lemma_num_digits_le(num as nat);
        lemma_usize_digits(num as nat);
        if digits >= 2 {
            lemma_pow10_below(num as nat);
            lemma_pow10_monotone((digits / 2) as nat, (digits - 1) as nat);
        } else {
            assert(pow10((digits / 2) as nat) == 1);
        }
    }
    split_num_at(num, (digits / 2) as u32)
}

/// The digits of a number, least significant first.
///
/// A quirk to be aware of: iteration stops after `size - 1` digits, so the
/// most significant digit is never yielded.
pub struct Digits {
    pub num: usize,
    pub size: usize,
    pub curr_digit: usize,
}

impl Digits {
    /// A digit cursor over `num`, starting at the least significant digit.
    pub fn new(num: usize) -> (r: Digits)
        ensures
            r.num == num,
            r.size == spec_num_digits(num as nat),
            r.curr_digit == 0,
    {
        let size = num_digits(num);
        Digits { num, size, curr_digit: 0 }
    }

    /// Well-formedness: the cursor sits within the digit count of its
    /// number.
    pub open spec fn wf(&self) -> bool {
        &&& self.size == spec_num_digits(self.num as nat)
        &&& self.curr_digit < self.size
    }

    /// The next digit, or nothing once `size - 1` digits were yielded.
    pub fn next(&mut self) -> (r: Option<usize>)
        requires
            old(self).wf(),
        ensures
            final(self).num == old(self).num,
            final(self).size == old(self).size,
            old(self).curr_digit == old(self).size - 1 ==> r is None && final(self).curr_digit
                == old(self).curr_digit,
            old(self).curr_digit < old(self).size - 1 ==> (final(self).curr_digit == old(
                self,
            ).curr_digit + 1 && (r matches Some(d) && d == old(self).num as nat / pow10(
                old(self).curr_digit as nat,
            ) % 10)),
            final(self).wf(),
    {
        if self.curr_digit == self.size - 1 {
            None
        } else {
            proof {
                assert(self.num >= 10);
                lemma_pow10_below(self.num as nat);
                lemma_pow10_monotone(self.curr_digit as nat, (self.size - 1) as nat);
                lemma_num_digits_le(self.num as nat);
            }
            let res = digit_at(self.num, self.curr_digit);
            self.curr_digit = self.curr_digit + 1;
            Some(res)
        }
    }
}

} // verus!
