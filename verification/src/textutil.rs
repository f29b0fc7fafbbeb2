//! Small text helpers shared by the day parsers: line and token splitting
//! and bounded integer parsing.

use vstd::prelude::*;

use crate::numfmt::parse_usize;

verus! {

/// Index of the first occurrence of `sep` in `s`, or `s.len()` if none.
pub open spec fn first_at(s: Seq<char>, sep: char) -> int
    decreases s.len(),
{
    if s.len() == 0 {
        0
    } else if s[0] == sep {
        0
    } else {
        1 + first_at(s.drop_first(), sep)
    }
}

/// The characterization of `first_at`: it is the least occurrence of `sep`,
/// or the length when `sep` does not occur.
pub proof fn lemma_first_at(s: Seq<char>, sep: char)
    ensures
        0 <= first_at(s, sep) <= s.len(),
        first_at(s, sep) < s.len() ==> s[first_at(s, sep)] == sep,
        forall|j: int| 0 <= j < first_at(s, sep) ==> s[j] != sep,
        first_at(s, sep) == s.len() ==> forall|j: int| 0 <= j < s.len() ==> s[j] != sep,
    decreases s.len(),
{
    if s.len() == 0 {
    } else if s[0] == sep {
    } else {
        lemma_first_at(s.drop_first(), sep);
        assert(forall|j: int| 1 <= j < s.len() ==> #[trigger] s[j] == s.drop_first()[j - 1]);
    }
}

/// The segments of `s` between occurrences of `sep`, empty ones kept.
pub open spec fn spec_split_char(s: Seq<char>, sep: char) -> Seq<Seq<char>>
    decreases s.len(),
    via spec_split_char_decreases
{
    let cut = first_at(s, sep);
    if cut == s.len() {
        seq![s]
    } else {
        seq![s.subrange(0, cut)] + spec_split_char(s.subrange(cut + 1, s.len() as int), sep)
    }
}

#[via_fn]
proof fn spec_split_char_decreases(s: Seq<char>, sep: char) {
    lemma_first_at(s, sep);
}

/// Find the first occurrence of `sep` in `s`, or the length of `s`.
fn find_at(s: &str, sep: char) -> (i: usize)
    ensures
        i == first_at(s@, sep),
{
    let len = s.unicode_len();
    let mut i: usize = 0;
    while i < len
        invariant
            0 <= i <= len,
            len == s@.len(),
            forall|j: int| 0 <= j < i ==> s@[j] != sep,
        decreases len - i,
    {
        if s.get_char(i) == sep {
            proof {
                lemma_first_at(s@, sep);
            }
            return i;
        }
        i = i + 1;
    }
    proof {
        lemma_first_at(s@, sep);
    }
    len
}

/// Split `s` at every occurrence of `sep`, keeping empty segments.
pub fn split_char<'a>(s: &'a str, sep: char) -> (parts: Vec<&'a str>)
    ensures
        parts@.len() == spec_split_char(s@, sep).len(),
        forall|i: int|
            0 <= i < parts@.len() ==> (#[trigger] parts@[i])@ == spec_split_char(s@, sep)[i],
{
    let mut parts: Vec<&'a str> = Vec::new();
    let mut rest: &'a str = s;
    loop
        invariant_except_break
            spec_split_char(s@, sep).len() == parts@.len() + spec_split_char(rest@, sep).len(),
            forall|i: int|
                0 <= i < parts@.len() ==> (#[trigger] parts@[i])@ == spec_split_char(s@, sep)[i],
            forall|i: int|
                0 <= i < spec_split_char(rest@, sep).len() ==> #[trigger] spec_split_char(
                    rest@,
                    sep,
                )[i] == spec_split_char(s@, sep)[parts@.len() + i],
        ensures
            parts@.len() == spec_split_char(s@, sep).len(),
            forall|i: int|
                0 <= i < parts@.len() ==> (#[trigger] parts@[i])@ == spec_split_char(s@, sep)[i],
        decreases rest@.len(),
    {
        let len = rest.unicode_len();
        let cut = find_at(rest, sep);
        proof {
            lemma_first_at(rest@, sep);
        }
        if cut == len {
            proof {
                assert(spec_split_char(rest@, sep) =~= seq![rest@]);
                assert(spec_split_char(rest@, sep)[0] == rest@);
            }
            parts.push(rest);
            break ;
        }
        let head = rest.substring_char(0, cut);
        let tail = rest.substring_char(cut + 1, len);
        proof {
            assert(tail@.len() < rest@.len());
            assert(spec_split_char(rest@, sep) =~= seq![rest@.subrange(0, cut as int)]
                + spec_split_char(tail@, sep));
            assert(spec_split_char(rest@, sep)[0] == rest@.subrange(0, cut as int));
            assert(forall|i: int|
                0 <= i < spec_split_char(tail@, sep).len() ==> #[trigger] spec_split_char(
                    tail@,
                    sep,
                )[i] == spec_split_char(rest@, sep)[i + 1]);
        }
        parts.push(head);
        rest = tail;
    }
    parts
}

/// Whether `c` separates tokens: an ASCII blank.
pub open spec fn is_blank_char(c: char) -> bool {
    c == ' ' || c == '\t' || c == '\r' || c == '\n'
}

/// Whether `c` separates tokens: an ASCII blank.
fn is_blank(c: char) -> (r: bool)
    ensures
        r == is_blank_char(c),
{
    c == ' ' || c == '\t' || c == '\r' || c == '\n'
}

/// Index of the first blank of `s`, or `s.len()` if there is none.
pub open spec fn first_blank(s: Seq<char>) -> int
    decreases s.len(),
{
    if s.len() == 0 {
        0
    } else if is_blank_char(s[0]) {
        0
    } else {
        1 + first_blank(s.drop_first())
    }
}

/// The characterization of `first_blank`: it is the least blank position,
/// or the length when no blank occurs.
pub proof fn lemma_first_blank(s: Seq<char>)
    ensures
        0 <= first_blank(s) <= s.len(),
        first_blank(s) < s.len() ==> is_blank_char(s[first_blank(s)]),
        forall|j: int| 0 <= j < first_blank(s) ==> !is_blank_char(s[j]),
        first_blank(s) == s.len() ==> forall|j: int| 0 <= j < s.len() ==> !is_blank_char(s[j]),
    decreases s.len(),
{
    if s.len() == 0 {
    } else if is_blank_char(s[0]) {
    } else {
        lemma_first_blank(s.drop_first());
        assert(forall|j: int| 1 <= j < s.len() ==> #[trigger] s[j] == s.drop_first()[j - 1]);
    }
}

/// The maximal runs of non-blank characters of `s`, in order.
pub open spec fn spec_tokens(s: Seq<char>) -> Seq<Seq<char>>
    decreases s.len(),
    via spec_tokens_decreases
{
    if s.len() == 0 {
        Seq::empty()
    } else if is_blank_char(s[0]) {
        spec_tokens(s.drop_first())
    } else {
        let cut = first_blank(s);
        seq![s.subrange(0, cut)] + spec_tokens(s.subrange(cut, s.len() as int))
    }
}

#[via_fn]
proof fn spec_tokens_decreases(s: Seq<char>) {
    lemma_first_blank(s);
}

/// Find the first blank of `s`, or the length of `s`.
fn find_blank(s: &str) -> (i: usize)
    ensures
        i == first_blank(s@),
{
    let len = s.unicode_len();
    let mut i: usize = 0;
    while i < len
        invariant
            0 <= i <= len,
            len == s@.len(),
            forall|j: int| 0 <= j < i ==> !is_blank_char(s@[j]),
        decreases len - i,
    {
        if is_blank(s.get_char(i)) {
            proof {
                lemma_first_blank(s@);
            }
            return i;
        }
        i = i + 1;
    }
    proof {
        lemma_first_blank(s@);
    }
    len
}

/// The maximal runs of non-blank characters of `s`, in order.
pub fn tokens<'a>(s: &'a str) -> (parts: Vec<&'a str>)
    ensures
        parts@.len() == spec_tokens(s@).len(),
        forall|i: int|
            0 <= i < parts@.len() ==> (#[trigger] parts@[i])@ == spec_tokens(s@)[i],
{
    let mut parts: Vec<&'a str> = Vec::new();
    let mut rest: &'a str = s;
    loop
        invariant_except_break
            spec_tokens(s@).len() == parts@.len() + spec_tokens(rest@).len(),
            forall|i: int|
                0 <= i < parts@.len() ==> (#[trigger] parts@[i])@ == spec_tokens(s@)[i],
            forall|i: int|
                0 <= i < spec_tokens(rest@).len() ==> #[trigger] spec_tokens(rest@)[i]
                    == spec_tokens(s@)[parts@.len() + i],
        ensures
            parts@.len() == spec_tokens(s@).len(),
            forall|i: int|
                0 <= i < parts@.len() ==> (#[trigger] parts@[i])@ == spec_tokens(s@)[i],
        decreases rest@.len(),
    {
        let len = rest.unicode_len();
        if len == 0 {
            proof {
                assert(spec_tokens(rest@) =~= Seq::<Seq<char>>::empty());
            }
            break ;
        }
        if is_blank(rest.get_char(0)) {
            let tail = rest.substring_char(1, len);
            proof {
                assert(tail@ =~= rest@.drop_first());
                assert(spec_tokens(rest@) == spec_tokens(rest@.drop_first()));
            }
            rest = tail;
        } else {
            let cut = find_blank(rest);
            proof {
                lemma_first_blank(rest@);
            }
            let head = rest.substring_char(0, cut);
            let tail = rest.substring_char(cut, len);
            proof {
                assert(spec_tokens(rest@) =~= seq![rest@.subrange(0, cut as int)] + spec_tokens(
                    tail@,
                ));
                assert(spec_tokens(rest@)[0] == rest@.subrange(0, cut as int));
                assert(forall|i: int|
                    0 <= i < spec_tokens(tail@).len() ==> #[trigger] spec_tokens(tail@)[i]
                        == spec_tokens(rest@)[i + 1]);
            }
            parts.push(head);
            rest = tail;
        }
    }
    parts
}

/// Parse a non-negative decimal number that fits in an `i32`.
pub fn parse_i32(s: &str) -> (r: Option<i32>)
    ensures
        r matches Some(n) ==> n >= 0,
{
    match parse_usize(s) {
        Some(v) => {
            if v <= i32::MAX as usize {
                Some(v as i32)
            } else {
                None
            }
        },
        None => None,
    }
}

/// Parse a non-negative decimal number into a `u64`.
pub fn parse_u64(s: &str) -> Option<u64> {
    match parse_usize(s) {
        Some(v) => Some(v as u64),
        None => None,
    }
}

} // verus!
