//! Verified construction of the one-line reports the harness prints, and the
//! comparison of an answer against a day's stored expected output.

use vstd::prelude::*;

use crate::numfmt::{dec_digits, format_u128, format_usize};

verus! {

/// The view of an optional answer: the answer's characters, or nothing.
pub open spec fn spec_answer(answer: Option<String>) -> Option<Seq<char>> {
    match answer {
        Some(a) => Some(a@),
        None => None,
    }
}

/// The text reported for an answer: the answer itself, or a fixed note for a
/// part that has no solution yet.
pub open spec fn spec_answer_text(answer: Option<Seq<char>>) -> Seq<char> {
    match answer {
        Some(a) => a,
        None => "Not implemented"@,
    }
}

/// `"Day {day} Part {part}: {answer} ({ms}ms)"`.
pub open spec fn spec_part_report_line(
    day: nat,
    part: nat,
    answer: Option<Seq<char>>,
    ms: nat,
) -> Seq<char> {
    "Day "@ + dec_digits(day) + " Part "@ + dec_digits(part) + ": "@ + spec_answer_text(answer)
        + " ("@ + dec_digits(ms) + "ms)"@
}

/// `"{indent}Day {day}:"`.
pub open spec fn spec_day_header_line(indent: Seq<char>, day: nat) -> Seq<char> {
    indent + "Day "@ + dec_digits(day) + ":"@
}

/// `"{indent}  Part {part}: {answer} ({ms}ms)"`.
pub open spec fn spec_indented_part_line(
    indent: Seq<char>,
    part: nat,
    answer: Option<Seq<char>>,
    ms: nat,
) -> Seq<char> {
    indent + "  Part "@ + dec_digits(part) + ": "@ + spec_answer_text(answer) + " ("@ + dec_digits(
        ms,
    ) + "ms)"@
}

/// `"Day {day} Parse Func: {nanos}ns (N = {samples})"`.
pub open spec fn spec_bench_parse_line(day: nat, nanos: nat, samples: nat) -> Seq<char> {
    "Day "@ + dec_digits(day) + " Parse Func: "@ + dec_digits(nanos) + "ns (N = "@ + dec_digits(
        samples,
    ) + ")"@
}

/// `"Day {day} Part {part}: {nanos}ns (N = {samples})"`.
pub open spec fn spec_bench_part_line(day: nat, part: nat, nanos: nat, samples: nat) -> Seq<char> {
    "Day "@ + dec_digits(day) + " Part "@ + dec_digits(part) + ": "@ + dec_digits(nanos)
        + "ns (N = "@ + dec_digits(samples) + ")"@
}

/// `"Year {year}:"`.
pub open spec fn spec_year_header_line(year: nat) -> Seq<char> {
    "Year "@ + dec_digits(year) + ":"@
}

/// `"Unknown year: {year}"`.
pub open spec fn spec_unknown_year_line(year: nat) -> Seq<char> {
    "Unknown year: "@ + dec_digits(year)
}

/// The answer's text, or the fixed note for an unimplemented part.
pub fn answer_text(answer: &Option<String>) -> (r: &str)
    ensures
        r@ == spec_answer_text(spec_answer(*answer)),
{
    match answer {
        Some(a) => a.as_str(),
        None => "Not implemented",
    }
}

/// Build the report line for one run of one part.
pub fn part_report_line(day: usize, part: usize, answer: &Option<String>, ms: u128) -> (r: String)
    ensures
        r@ == spec_part_report_line(day as nat, part as nat, spec_answer(*answer), ms as nat),
{
    let mut r = "Day ".to_owned();
    r.append(format_usize(day).as_str());
    r.append(" Part ");
    r.append(format_usize(part).as_str());
    r.append(": ");
    r.append(answer_text(answer));
    r.append(" (");
    r.append(format_u128(ms).as_str());
    r.append("ms)");
    r
}

/// Build the header line naming a day.
pub fn day_header_line(indent: &str, day: usize) -> (r: String)
    ensures
        r@ == spec_day_header_line(indent@, day as nat),
{
    let mut r = indent.to_owned();
    r.append("Day ");
    r.append(format_usize(day).as_str());
    r.append(":");
    r
}

/// Build the indented report line for one part run against its example.
pub fn indented_part_line(indent: &str, part: usize, answer: &Option<String>, ms: u128) -> (r:
    String)
    ensures
        r@ == spec_indented_part_line(indent@, part as nat, spec_answer(*answer), ms as nat),
{
    let mut r = indent.to_owned();
    r.append("  Part ");
    r.append(format_usize(part).as_str());
    r.append(": ");
    r.append(answer_text(answer));
    r.append(" (");
    r.append(format_u128(ms).as_str());
    r.append("ms)");
    r
}

/// Build the benchmark report line for a day's parse function.
pub fn bench_parse_line(day: usize, nanos: u128, samples: usize) -> (r: String)
    ensures
        r@ == spec_bench_parse_line(day as nat, nanos as nat, samples as nat),
{
    let mut r = "Day ".to_owned();
    r.append(format_usize(day).as_str());
    r.append(" Parse Func: ");
    r.append(format_u128(nanos).as_str());
    r.append("ns (N = ");
    r.append(format_usize(samples).as_str());
    r.append(")");
    r
}

/// Build the benchmark report line for one part's solve function.
pub fn bench_part_line(day: usize, part: usize, nanos: u128, samples: usize) -> (r: String)
    ensures
        r@ == spec_bench_part_line(day as nat, part as nat, nanos as nat, samples as nat),
{
    let mut r = "Day ".to_owned();
    r.append(format_usize(day).as_str());
    r.append(" Part ");
    r.append(format_usize(part).as_str());
    r.append(": ");
    r.append(format_u128(nanos).as_str());
    r.append("ns (N = ");
    r.append(format_usize(samples).as_str());
    r.append(")");
    r
}

/// Build the header line naming a year.
pub fn year_header_line(year: usize) -> (r: String)
    ensures
        r@ == spec_year_header_line(year as nat),
{
    let mut r = "Year ".to_owned();
    r.append(format_usize(year).as_str());
    r.append(":");
    r
}

/// Build the diagnostic for a year outside the registry.
pub fn unknown_year_line(year: usize) -> (r: String)
    ensures
        r@ == spec_unknown_year_line(year as nat),
{
    let mut r = "Unknown year: ".to_owned();
    r.append(format_usize(year).as_str());
    r
}

/// Whether two strings hold the same characters.
pub fn str_eq(a: &str, b: &str) -> (r: bool)
    ensures
        r == (a@ == b@),
{
    let alen = a.unicode_len();
    let blen = b.unicode_len();
    if alen != blen {
        return false;
    }
    let mut i: usize = 0;
    while i < alen
        invariant
            0 <= i <= alen,
            alen == a@.len(),
            alen == b@.len(),
            forall|j: int| 0 <= j < i ==> a@[j] == b@[j],
        decreases alen - i,
    {
        if a.get_char(i) != b.get_char(i) {
            return false;
        }
        i += 1;
    }
    proof {
        assert(a@ =~= b@);
    }
    true
}

/// Whether an answer passes self-verification against a stored expected
/// output: an absent answer means the part is not implemented yet and is
/// never a failure; a present answer must match exactly.
pub fn answer_matches(actual: &Option<String>, expected: &str) -> (ok: bool)
    ensures
        actual is None ==> ok,
        ok == (actual is None || (actual matches Some(a) && a@ == expected@)),
{
    match actual {
        None => true,
        Some(a) => str_eq(a.as_str(), expected),
    }
}

} // verus!
