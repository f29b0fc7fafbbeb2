//! The selection grammar: compact addressing strings of the form
//! `"year:day:part"`, where each colon-separated segment is either the
//! wildcard token `*` or a non-negative integer, and missing trailing
//! segments default to the wildcard.

use vstd::prelude::*;

use crate::numfmt::{all_digits, dec_digits, dec_value, is_digit_char, lemma_dec_digits_value};
use crate::numfmt::{format_usize, parse_usize};

verus! {

/// One component of a selector: everything, or one exact ordinal.
#[derive(Clone, Copy, Debug, PartialEq, Eq, Structural)]
pub enum Selection {
    All,
    Single(usize),
}

/// The only way selector parsing fails: a segment that is neither `*` nor a
/// non-negative integer that fits the machine.
#[derive(Clone, Copy, Debug, PartialEq, Eq, Structural)]
pub enum SelectorError {
    MalformedSelector,
}

/// A day/part address, as accepted by a single year's runner.
#[derive(Clone, Copy, Debug, PartialEq, Eq, Structural)]
pub struct DP {
    pub day: Selection,
    pub part: Selection,
}

/// A year/day/part address, as accepted by the global runner.
#[derive(Clone, Copy, Debug, PartialEq, Eq, Structural)]
pub struct YDP {
    pub year: Selection,
    pub day: Selection,
    pub part: Selection,
}

/// Index of the first colon of `s`, or `s.len()` if there is none.
pub open spec fn first_colon(s: Seq<char>) -> int
    decreases s.len(),
{
    if s.len() == 0 {
        0
    } else if s[0] == ':' {
        0
    } else {
        1 + first_colon(s.drop_first())
    }
}

/// The characterization of `first_colon`: it is the least colon index,
/// or the length when no colon occurs.
pub proof fn lemma_first_colon(s: Seq<char>)
    ensures
        0 <= first_colon(s) <= s.len(),
        first_colon(s) < s.len() ==> s[first_colon(s)] == ':',
        forall|j: int| 0 <= j < first_colon(s) ==> s[j] != ':',
        first_colon(s) == s.len() ==> forall|j: int| 0 <= j < s.len() ==> s[j] != ':',
    decreases s.len(),
{
    if s.len() == 0 {
    } else if s[0] == ':' {
    } else {
        lemma_first_colon(s.drop_first());
        assert(forall|j: int| 1 <= j < s.len() ==> #[trigger] s[j] == s.drop_first()[j - 1]);
    }
}

/// Any index that is a least colon position (or the length, when no colon
/// occurs) is `first_colon`.
pub proof fn lemma_first_colon_is(s: Seq<char>, i: int)
    requires
        0 <= i <= s.len(),
        i < s.len() ==> s[i] == ':',
        forall|j: int| 0 <= j < i ==> s[j] != ':',
        i == s.len() ==> forall|j: int| 0 <= j < s.len() ==> s[j] != ':',
    ensures
        first_colon(s) == i,
{
    lemma_first_colon(s);
}

/// What parsing a single segment yields.
pub open spec fn spec_parse_segment(s: Seq<char>) -> Result<Selection, SelectorError> {
    if s == seq!['*'] {
        Ok(Selection::All)
    } else if s.len() > 0 && all_digits(s) && dec_value(s) <= usize::MAX {
        Ok(Selection::Single(dec_value(s) as usize))
    } else {
        Err(SelectorError::MalformedSelector)
    }
}

/// The first colon-separated segment of `s`.
pub open spec fn head_segment(s: Seq<char>) -> Seq<char> {
    s.subrange(0, first_colon(s))
}

/// What follows the first colon of `s`, if any colon occurs.
pub open spec fn tail_segments(s: Seq<char>) -> Option<Seq<char>> {
    if first_colon(s) < s.len() {
        Some(s.subrange(first_colon(s) + 1, s.len() as int))
    } else {
        None
    }
}

/// What parsing a day/part selector yields: up to two positional segments,
/// missing ones defaulting to the wildcard, any further segments ignored.
pub open spec fn spec_parse_dp(s: Seq<char>) -> Result<DP, SelectorError> {
    if s.len() == 0 {
        Ok(DP { day: Selection::All, part: Selection::All })
    } else {
        match spec_parse_segment(head_segment(s)) {
            Err(e) => Err(e),
            Ok(day) => match tail_segments(s) {
                None => Ok(DP { day, part: Selection::All }),
                Some(rest) => match spec_parse_segment(head_segment(rest)) {
                    Err(e) => Err(e),
                    Ok(part) => Ok(DP { day, part }),
                },
            },
        }
    }
}

/// What parsing a year/day/part selector yields: up to three positional
/// segments, missing ones defaulting to the wildcard, any further segments
/// ignored.  Only the selector as a whole may be empty; an empty segment
/// after a colon is malformed.
pub open spec fn spec_parse_ydp(s: Seq<char>) -> Result<YDP, SelectorError> {
    if s.len() == 0 {
        Ok(YDP { year: Selection::All, day: Selection::All, part: Selection::All })
    } else {
        match spec_parse_segment(head_segment(s)) {
            Err(e) => Err(e),
            Ok(year) => match tail_segments(s) {
                None => Ok(YDP { year, day: Selection::All, part: Selection::All }),
                Some(rest) => match spec_parse_segment(head_segment(rest)) {
                    Err(e) => Err(e),
                    Ok(day) => match tail_segments(rest) {
                        None => Ok(YDP { year, day, part: Selection::All }),
                        Some(rest2) => match spec_parse_segment(head_segment(rest2)) {
                            Err(e) => Err(e),
                            Ok(part) => Ok(YDP { year, day, part }),
                        },
                    },
                },
            },
        }
    }
}

/// The canonical text of one selector component.
pub open spec fn spec_segment_string(sel: Selection) -> Seq<char> {
    match sel {
        Selection::All => seq!['*'],
        Selection::Single(n) => dec_digits(n as nat),
    }
}

/// The canonical text of a day/part selector.
pub open spec fn spec_dp_string(dp: DP) -> Seq<char> {
    spec_segment_string(dp.day) + seq![':'] + spec_segment_string(dp.part)
}

/// The canonical text of a year/day/part selector.
pub open spec fn spec_ydp_string(ydp: YDP) -> Seq<char> {
    spec_segment_string(ydp.year) + seq![':'] + spec_segment_string(ydp.day) + seq![':']
        + spec_segment_string(ydp.part)
}

/// A canonical segment never contains a colon and never fails to parse back
/// to the component it came from.
pub proof fn lemma_segment_round_trip(sel: Selection)
    ensures
        spec_segment_string(sel).len() >= 1,
        forall|j: int|
            0 <= j < spec_segment_string(sel).len() ==> #[trigger] spec_segment_string(sel)[j]
                != ':',
        spec_parse_segment(spec_segment_string(sel)) == Ok::<Selection, SelectorError>(sel),
{
    match sel {
        Selection::All => {
            let s = spec_segment_string(sel);
            assert(s =~= seq!['*']);
        },
        Selection::Single(n) => {
            let s = spec_segment_string(sel);
            lemma_dec_digits_value(n as nat);
            assert(forall|j: int| 0 <= j < s.len() ==> is_digit_char(#[trigger] s[j]));
            assert(forall|j: int| 0 <= j < s.len() ==> #[trigger] s[j] != ':');
            assert(s != seq!['*']) by {
                if s == seq!['*'] {
                    assert(s[0] == '*');
                    assert(is_digit_char(s[0]));
                }
            }
        },
    }
}

/// Parsing the canonical text of a day/part selector gives that selector back.
pub proof fn lemma_dp_round_trip(dp: DP)
    ensures
        spec_parse_dp(spec_dp_string(dp)) == Ok::<DP, SelectorError>(dp),
{
    let d = spec_segment_string(dp.day);
    let p = spec_segment_string(dp.part);
    let s = spec_dp_string(dp);
    lemma_segment_round_trip(dp.day);
    lemma_segment_round_trip(dp.part);
    assert(s.len() == d.len() + 1 + p.len());
    assert(s[d.len() as int] == ':');
    assert(forall|j: int| 0 <= j < d.len() ==> s[j] == d[j]);
    lemma_first_colon_is(s, d.len() as int);
    assert(head_segment(s) =~= d);
    let rest = s.subrange(d.len() as int + 1, s.len() as int);
    assert(rest =~= p);
    lemma_first_colon_is(p, p.len() as int);
    assert(head_segment(p) =~= p);
}

/// Parsing the canonical text of a year/day/part selector gives that selector
/// back: serialization round-trips through the grammar.
pub proof fn lemma_ydp_round_trip(ydp: YDP)
    ensures
        spec_parse_ydp(spec_ydp_string(ydp)) == Ok::<YDP, SelectorError>(ydp),
{
    let y = spec_segment_string(ydp.year);
    let d = spec_segment_string(ydp.day);
    let p = spec_segment_string(ydp.part);
    let s = spec_ydp_string(ydp);
    lemma_segment_round_trip(ydp.year);
    lemma_segment_round_trip(ydp.day);
    lemma_segment_round_trip(ydp.part);
    assert(s.len() == y.len() + 1 + d.len() + 1 + p.len());
    assert(s[y.len() as int] == ':');
    assert(forall|j: int| 0 <= j < y.len() ==> s[j] == y[j]);
    lemma_first_colon_is(s, y.len() as int);
    assert(head_segment(s) =~= y);
    let rest = s.subrange(y.len() as int + 1, s.len() as int);
    assert(rest =~= d + seq![':'] + p);
    assert(rest[d.len() as int] == ':');
    assert(forall|j: int| 0 <= j < d.len() ==> rest[j] == d[j]);
    lemma_first_colon_is(rest, d.len() as int);
    assert(head_segment(rest) =~= d);
    let rest2 = rest.subrange(d.len() as int + 1, rest.len() as int);
    assert(rest2 =~= p);
    lemma_first_colon_is(p, p.len() as int);
    assert(head_segment(p) =~= p);
}

/// Find the first colon of `s`, reporting its index or the length of `s`.
fn find_colon(s: &str) -> (i: usize)
    ensures
        i == first_colon(s@),
{
    let len = s.unicode_len();
    let mut i: usize = 0;
    while i < len
        invariant
            0 <= i <= len,
            len == s@.len(),
            forall|j: int| 0 <= j < i ==> s@[j] != ':',
        decreases len - i,
    {
        if s.get_char(i) == ':' {
            proof {
                lemma_first_colon_is(s@, i as int);
            }
            return i;
        }
        i += 1;
    }
    proof {
        lemma_first_colon_is(s@, len as int);
    }
    len
}

/// Split `s` at its first colon: the head segment, and what follows the
/// colon, if there is one.
fn split_once_colon<'a>(s: &'a str) -> (r: (&'a str, Option<&'a str>))
    ensures
        r.0@ == head_segment(s@),
        r.1 is Some <==> tail_segments(s@) is Some,
        r.1 matches Some(rest) ==> tail_segments(s@) matches Some(t) && rest@ == t,
{
    let len = s.unicode_len();
    let i = find_colon(s);
    proof {
        lemma_first_colon(s@);
    }
    let head = s.substring_char(0, i);
    if i < len {
        let rest = s.substring_char(i + 1, len);
        (head, Some(rest))
    } else {
        (head, None)
    }
}

impl Selection {
    /// Parse one selector segment: `*` means all, digits mean one exact
    /// ordinal, anything else is malformed.
    pub fn parse(s: &str) -> (r: Result<Selection, SelectorError>)
        ensures
            r == spec_parse_segment(s@),
    {
        let len = s.unicode_len();
        if len == 1 {
            let c = s.get_char(0);
            if c == '*' {
                proof {
                    assert(s@ =~= seq!['*']);
                }
                return Ok(Selection::All);
            }
        }
        proof {
            assert(seq!['*'].len() == 1);
            assert(s@ != seq!['*']) by {
                if s@ == seq!['*'] {
                    assert(s@[0] == '*');
                }
            }
        }
        match parse_usize(s) {
            Some(n) => Ok(Selection::Single(n)),
            None => Err(SelectorError::MalformedSelector),
        }
    }

    /// The canonical text of this component.
    pub fn segment_string(&self) -> (r: String)
        ensures
            r@ == spec_segment_string(*self),
    {
        match self {
            Selection::All => {
                let r = "*".to_owned();
                proof {
                    reveal_strlit("*");
                    assert(r@ =~= seq!['*']);
                }
                r
            },
            Selection::Single(n) => format_usize(*n),
        }
    }
}

impl DP {
    /// Parse a day/part selector string.
    pub fn parse(s: &str) -> (r: Result<DP, SelectorError>)
        ensures
            r == spec_parse_dp(s@),
    {
        let len = s.unicode_len();
        if len == 0 {
            return Ok(DP { day: Selection::All, part: Selection::All });
        }
        let (head, rest) = split_once_colon(s);
        let day = match Selection::parse(head) {
            Ok(day) => day,
            Err(e) => {
                return Err(e);
            },
        };
        match rest {
            None => Ok(DP { day, part: Selection::All }),
            Some(rest) => {
                let (part_seg, _ignored) = split_once_colon(rest);
                match Selection::parse(part_seg) {
                    Ok(part) => Ok(DP { day, part }),
                    Err(e) => Err(e),
                }
            },
        }
    }

    /// The selector addressing every day and every part.
    pub fn all() -> (r: DP)
        ensures
            r == (DP { day: Selection::All, part: Selection::All }),
    {
        DP { day: Selection::All, part: Selection::All }
    }

    /// The canonical text of this selector.
    pub fn to_selector_string(&self) -> (r: String)
        ensures
            r@ == spec_dp_string(*self),
    {
        let mut r = self.day.segment_string();
        r.append(":");
        let part = self.part.segment_string();
        r.append(part.as_str());
        proof {
            reveal_strlit(":");
            assert(":"@ =~= seq![':']);
            assert(r@ =~= spec_dp_string(*self));
        }
        r
    }
}

impl YDP {
    /// Parse a year/day/part selector string.
    pub fn parse(s: &str) -> (r: Result<YDP, SelectorError>)
        ensures
            r == spec_parse_ydp(s@),
    {
        let len = s.unicode_len();
        if len == 0 {
            return Ok(YDP { year: Selection::All, day: Selection::All, part: Selection::All });
        }
        let (head, rest) = split_once_colon(s);
        let year = match Selection::parse(head) {
            Ok(year) => year,
            Err(e) => {
                return Err(e);
            },
        };
        match rest {
            None => Ok(YDP { year, day: Selection::All, part: Selection::All }),
            Some(rest) => {
                let (day_seg, rest2) = split_once_colon(rest);
                let day = match Selection::parse(day_seg) {
                    Ok(day) => day,
                    Err(e) => {
                        return Err(e);
                    },
                };
                match rest2 {
                    None => Ok(YDP { year, day, part: Selection::All }),
                    Some(rest2) => {
                        let (part_seg, _ignored) = split_once_colon(rest2);
                        match Selection::parse(part_seg) {
                            Ok(part) => Ok(YDP { year, day, part }),
                            Err(e) => Err(e),
                        }
                    },
                }
            },
        }
    }

    /// Forget the year component of this selector.
    pub fn to_dp(&self) -> (r: DP)
        ensures
            r == (DP { day: self.day, part: self.part }),
    {
        DP { day: self.day, part: self.part }
    }

    /// The canonical text of this selector.
    pub fn to_selector_string(&self) -> (r: String)
        ensures
            r@ == spec_ydp_string(*self),
    {
        let mut r = self.year.segment_string();
        r.append(":");
        let dp = self.to_dp().to_selector_string();
        r.append(dp.as_str());
        proof {
            reveal_strlit(":");
            assert(":"@ =~= seq![':']);
            assert(r@ =~= spec_ydp_string(*self));
        }
        r
    }
}

} // verus!
