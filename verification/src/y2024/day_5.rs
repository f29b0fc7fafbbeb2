//! Day 5: page-ordering rules — sum the middle pages of correctly ordered
//! updates, then of the incorrectly ordered ones after sorting them to the
//! rules.

use std::collections::{HashMap, HashSet};

use vstd::prelude::*;

use crate::day::Day;
use crate::numfmt::{format_i128, parse_usize};
use crate::textutil::split_char;

verus! {

pub struct Day5;

/// The ordering rules: every page that must come after a given page.
#[derive(Clone, Debug)]
pub struct Rules(pub HashMap<i64, Vec<i64>>);

/// The pages required to come after `page`.
pub open spec fn spec_after_pages(rules: &Rules, page: i64) -> Seq<i64> {
    if rules.0@.contains_key(page) {
        rules.0@[page]@
    } else {
        Seq::empty()
    }
}

/// Whether an update's tail from position `i` on lists its pages in an
/// order the rules allow, once the pages in `seen` have already been
/// printed: a page may not appear after any page required to come after it.
pub open spec fn spec_good_from(
    rules: Map<i64, Vec<i64>>,
    up: Seq<i64>,
    i: int,
    seen: Set<i64>,
) -> bool
    decreases up.len() - i,
{
    if i < 0 || i >= up.len() {
        true
    } else {
        let page = up[i];
        let ok = !rules.contains_key(page) || forall|j: int|
            0 <= j < rules[page]@.len() ==> !seen.contains(#[trigger] rules[page]@[j]);
        ok && spec_good_from(rules, up, i + 1, seen.insert(page))
    }
}

/// Whether an update lists its pages in an order the rules allow.
pub open spec fn spec_good(rules: Map<i64, Vec<i64>>, up: Seq<i64>) -> bool {
    spec_good_from(rules, up, 0, Set::empty())
}

/// The middle pages of the correctly ordered updates among the first `i`,
/// summed; an empty update contributes nothing.
pub open spec fn spec_good_middle_sum(rules: Map<i64, Vec<i64>>, updates: Seq<Vec<i64>>, i: int) -> int
    decreases i,
{
    if i <= 0 || i > updates.len() {
        0
    } else {
        spec_good_middle_sum(rules, updates, i - 1) + (if spec_good(rules, updates[i - 1]@)
            && updates[i - 1]@.len() > 0 {
            updates[i - 1]@[updates[i - 1]@.len() as int / 2] as int
        } else {
            0
        })
    }
}

/// Whether `v` holds `x`.
fn vec_contains_i64(v: &Vec<i64>, x: i64) -> (r: bool)
    ensures
        r == v@.contains(x),
{
    let mut i: usize = 0;
    while i < v.len()
        invariant
            0 <= i <= v@.len(),
            forall|j: int| 0 <= j < i ==> v@[j] != x,
        decreases v@.len() - i,
    {
        if v[i] == x {
            return true;
        }
        i = i + 1;
    }
    false
}

impl Rules {
    /// An empty rule set.
    pub fn new() -> (r: Rules)
        ensures
            r.0@ == Map::<i64, Vec<i64>>::empty(),
    {
        broadcast use vstd::std_specs::hash::group_hash_axioms;

        Rules(HashMap::new())
    }

    /// Record that `lhs` must be printed before `rhs`.
    pub fn take(&mut self, lhs: i64, rhs: i64)
        ensures
            spec_after_pages(&*final(self), lhs) == spec_after_pages(&*old(self), lhs).push(rhs),
            forall|k: i64|
                k != lhs ==> spec_after_pages(&*final(self), k) == spec_after_pages(
                    &*old(self),
                    k,
                ),
    {
        broadcast use vstd::std_specs::hash::group_hash_axioms;

        let seen: Vec<i64> = match self.0.get(&lhs) {
            Some(existing) => {
                let mut copy: Vec<i64> = Vec::new();
                let mut i: usize = 0;
                while i < existing.len()
                    invariant
                        0 <= i <= existing@.len(),
                        copy@ =~= existing@.subrange(0, i as int),
                    decreases existing@.len() - i,
                {
                    copy.push(existing[i]);
                    i = i + 1;
                }
                proof {
                    assert(copy@ =~= existing@);
                }
                copy
            },
            None => Vec::new(),
        };
        let mut seen = seen;
        seen.push(rhs);
        self.0.insert(lhs, seen);
    }

    /// Whether an update lists its pages in an order the rules allow: no
    /// page may appear once a page required to come after it has already
    /// been seen.
    fn good(&self, up: &Vec<i64>) -> (r: bool)
        ensures
            r == spec_good(self.0@, up@),
    {
        broadcast use vstd::std_specs::hash::group_hash_axioms;

        let mut seen: HashSet<i64> = HashSet::new();
        let mut i: usize = 0;
        while i < up.len()
            invariant
                i <= up@.len(),
                spec_good(self.0@, up@) == spec_good_from(self.0@, up@, i as int, seen@),
            decreases up@.len() - i,
        {
            broadcast use vstd::std_specs::hash::group_hash_axioms;

            let u = up[i];
            let ok = match self.0.get(&u) {
                None => true,
                Some(should) => {
                    let mut all_unseen = true;
                    let mut j: usize = 0;
                    while j < should.len()
                        invariant
                            j <= should@.len(),
                            should@ == self.0@[up@[i as int]]@,
                            self.0@.contains_key(up@[i as int]),
                            all_unseen == forall|k: int|
                                0 <= k < j ==> !seen@.contains(#[trigger] should@[k]),
                        decreases should@.len() - j,
                    {
                        broadcast use vstd::std_specs::hash::group_hash_axioms;

                        if seen.contains(&should[j]) {
                            all_unseen = false;
                        }
                        j = j + 1;
                    }
                    all_unseen
                },
            };
            if ok {
                seen.insert(u);
            } else {
                return false;
            }
            i = i + 1;
        }
        true
    }

    /// One pass of rule-directed reordering: any pair the rules contradict
    /// is swapped.
    fn sort_step(&self, up: &mut Vec<i64>) {
        broadcast use vstd::std_specs::hash::group_hash_axioms;

        if up.len() < 2 {
            return ;
        }
        let mut i: usize = 0;
        while i + 1 < up.len()
            invariant
                i < up@.len(),
                2 <= up@.len() <= usize::MAX,
                up@.len() == old(up)@.len(),
            decreases up@.len() - i,
        {
            let mut j: usize = i + 1;
            while j < up.len()
                invariant
                    i < j <= up@.len(),
                    i + 1 < up@.len(),
                    up@.len() == old(up)@.len(),
                decreases up@.len() - j,
            {
                let must_follow = match self.0.get(&up[j]) {
                    Some(should) => vec_contains_i64(should, up[i]),
                    None => false,
                };
                if must_follow {
                    let a = up[i];
                    let b = up[j];
                    up.set(i, b);
                    up.set(j, a);
                }
                j = j + 1;
            }
            i = i + 1;
        }
    }

    /// Reorder an update until the rules accept it.  The passes are bounded
    /// by a generous fuel, so contradictory rule sets cannot spin forever.
    fn sort_to_rules(&self, up: &mut Vec<i64>) {
        let n = up.len();
        let mut fuel: usize = if n > 0xffff {
            usize::MAX
        } else {
            proof {
                assert(n * n <= 0xffff * 0xffff) by (nonlinear_arith)
                    requires
                        0 <= n <= 0xffff,
                ;
            }
            n * n + 1
        };
        while fuel > 0
            decreases fuel,
        {
            fuel = fuel - 1;
            if self.good(up) {
                return ;
            }
            self.sort_step(up);
        }
    }
}

/// A parsed puzzle: the ordering rules and the page updates.
#[derive(Clone)]
pub struct Pages {
    pub rules: Rules,
    pub updates: Vec<Vec<i64>>,
}

/// Parse a decimal page number.
fn parse_page(s: &str) -> Option<i64> {
    match parse_usize(s) {
        Some(v) => {
            if v <= i64::MAX as usize {
                Some(v as i64)
            } else {
                None
            }
        },
        None => None,
    }
}

/// Sum the middle pages of the selected updates: the correctly ordered ones,
/// or the incorrectly ordered ones after sorting.  The sum saturates at the
/// edges of its range; for correctly ordered updates it is exact whenever
/// the page count keeps every partial sum in range (any real input's does).
fn middle_sum(input: &Pages, fix_incorrect: bool) -> (total: i128)
    ensures
        (!fix_incorrect && (input.updates@.len() as int) * 0x8000_0000_0000_0000 < i128::MAX as int)
            ==> total == spec_good_middle_sum(
            input.rules.0@,
            input.updates@,
            input.updates@.len() as int,
        ) && -((input.updates@.len() as int) * 0x8000_0000_0000_0000) <= total <= (
        input.updates@.len() as int) * 0x8000_0000_0000_0000,
{
    let ghost exact = !fix_incorrect && (input.updates@.len() as int) * 0x8000_0000_0000_0000
        < i128::MAX as int;
    let mut total: i128 = 0;
    let mut i: usize = 0;
    while i < input.updates.len()
        invariant
            i <= input.updates@.len(),
            exact == (!fix_incorrect && (input.updates@.len() as int) * 0x8000_0000_0000_0000
                < i128::MAX as int),
            exact ==> total == spec_good_middle_sum(input.rules.0@, input.updates@, i as int),
            exact ==> -((i as int) * 0x8000_0000_0000_0000) <= total <= (i as int)
                * 0x8000_0000_0000_0000,
        decreases input.updates@.len() - i,
    {
        proof {
            if exact {
                assert(((i + 1) as int) * 0x8000_0000_0000_0000 == (i as int)
                    * 0x8000_0000_0000_0000 + 0x8000_0000_0000_0000) by (nonlinear_arith);
                assert(((i + 1) as int) * 0x8000_0000_0000_0000 <= (input.updates@.len() as int)
                    * 0x8000_0000_0000_0000) by (nonlinear_arith)
                    requires
                        i + 1 <= input.updates@.len(),
                ;
            }
        }
        let up = &input.updates[i];
        let is_good = input.rules.good(up);
        let mid: Option<i64> = if is_good && !fix_incorrect {
            if up.len() > 0 {
                Some(up[up.len() / 2])
            } else {
                None
            }
        } else if !is_good && fix_incorrect {
            let mut sorted = up.clone();
            input.rules.sort_to_rules(&mut sorted);
            if sorted.len() > 0 {
                Some(sorted[sorted.len() / 2])
            } else {
                None
            }
        } else {
            None
        };
        match mid {
            Some(v) => {
                let v = v as i128;
                total = if v >= 0 {
                    if total <= i128::MAX - v {
                        total + v
                    } else {
                        i128::MAX
                    }
                } else {
                    if total >= i128::MIN + 1 - v {
                        total + v
                    } else {
                        i128::MIN + 1
                    }
                };
            },
            None => (),
        }
        i = i + 1;
    }
    total
}

impl Day for Day5 {
    type Input = Pages;

    fn day() -> usize {
        5
    }

    fn example_input_1() -> &'static str {
        "47|53\n97|13\n97|61\n97|47\n75|29\n61|13\n75|53\n29|13\n97|29\n53|29\n61|53\n97|53\n61|29\n47|13\n75|47\n97|75\n47|61\n75|61\n47|29\n75|13\n53|13\n\n75,47,61,53,29\n97,61,53,29,13\n75,29,13\n75,97,47,61,53\n61,13,29\n97,13,75,29,47"
    }

    fn example_input_2() -> &'static str {
        "47|53\n97|13\n97|61\n97|47\n75|29\n61|13\n75|53\n29|13\n97|29\n53|29\n61|53\n97|53\n61|29\n47|13\n75|47\n97|75\n47|61\n75|61\n47|29\n75|13\n53|13\n\n75,47,61,53,29\n97,61,53,29,13\n75,29,13\n75,97,47,61,53\n61,13,29\n97,13,75,29,47"
    }

    fn expected_1() -> &'static str {
        "143"
    }

    fn expected_2() -> &'static str {
        "123"
    }

    /// Rule lines `a|b` up to the first blank line, update lines of
    /// comma-separated pages after it; malformed pieces are dropped.
    fn parse_input(input: &str) -> Self::Input {
        let lines = split_char(input, '\n');
        let mut rules = Rules::new();
        let mut updates: Vec<Vec<i64>> = Vec::new();
        let mut past_rules = false;
        let mut i: usize = 0;
        while i < lines.len()
            decreases lines.len() - i,
        {
            let line = lines[i];
            if line.unicode_len() == 0 {
                past_rules = true;
            } else if !past_rules {
                let sides = split_char(line, '|');
                if sides.len() == 2 {
                    match (parse_page(sides[0]), parse_page(sides[1])) {
                        (Some(lhs), Some(rhs)) => rules.take(lhs, rhs),
                        _ => (),
                    }
                }
            } else {
                let cells = split_char(line, ',');
                let mut row: Vec<i64> = Vec::new();
                let mut j: usize = 0;
                while j < cells.len()
                    decreases cells.len() - j,
                {
                    match parse_page(cells[j]) {
                        Some(v) => row.push(v),
                        None => (),
                    }
                    j = j + 1;
                }
                updates.push(row);
            }
            i = i + 1;
        }
        Pages { rules, updates }
    }

    /// The sum of the middle pages of the correctly ordered updates: exact,
    /// in decimal, whenever the page count keeps every partial sum in range
    /// (any real input's does).
    fn part_1(input: Self::Input) -> (r: Option<String>)
        ensures
            ((input.updates@.len() as int) * 0x8000_0000_0000_0000 < i128::MAX as int) ==> (
            r matches Some(a) && a@ == crate::numfmt::int_digits(
                spec_good_middle_sum(input.rules.0@, input.updates@, input.updates@.len() as int),
            )),
    {
        let total = middle_sum(&input, false);
        if total == i128::MIN {
            return None;
        }
        Some(format_i128(total))
    }

    /// The sum of the middle pages of the fixed, formerly incorrect updates.
    fn part_2(input: Self::Input) -> Option<String> {
        let total = middle_sum(&input, true);
        if total == i128::MIN {
            return None;
        }
        Some(format_i128(total))
    }
}

} // verus!
