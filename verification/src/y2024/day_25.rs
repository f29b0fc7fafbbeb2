//! Day 25: locks and keys as pin-height schematics; count the pairs that fit
//! together without overlapping.

use vstd::prelude::*;

use crate::day::Day;
use crate::grid::Grid;
use crate::numfmt::format_usize;
use crate::pos::Position;
use crate::textutil::split_char;

verus! {

pub struct Day25;

/// One cell of a schematic.
#[derive(Debug, Clone, Copy, PartialEq, Eq, Structural)]
pub enum Tile {
    Fill,
    Empty,
}

/// The tile a schematic character denotes.
pub open spec fn tile_of(c: char) -> Tile {
    if c == '#' {
        Tile::Fill
    } else {
        Tile::Empty
    }
}

impl Tile {
    /// The tile a schematic character denotes.
    pub fn from_char(c: char) -> (r: Tile)
        ensures
            r == tile_of(c),
    {
        if c == '#' {
            Tile::Fill
        } else {
            Tile::Empty
        }
    }
}

/// The pin heights of locks and of keys.
#[derive(Clone)]
pub struct Schematics {
    pub locks: Vec<[u8; 5]>,
    pub keys: Vec<[u8; 5]>,
}

/// Whether two five-pin codes are identical.
fn code_eq(a: &[u8; 5], b: &[u8; 5]) -> (r: bool)
    ensures
        r == (a@ =~= b@),
{
    let mut i: usize = 0;
    while i < 5
        invariant
            0 <= i <= 5,
            forall|j: int| 0 <= j < i ==> a@[j] == b@[j],
        decreases 5 - i,
    {
        if a[i] != b[i] {
            return false;
        }
        i = i + 1;
    }
    true
}

/// Whether `codes` already holds `code`.
fn codes_contain(codes: &Vec<[u8; 5]>, code: &[u8; 5]) -> bool {
    let mut i: usize = 0;
    while i < codes.len()
        decreases codes@.len() - i,
    {
        if code_eq(&codes[i], code) {
            return true;
        }
        i = i + 1;
    }
    false
}

/// Whether a key's pins fit a lock's pins: each column's heights sum to at
/// most five.
pub open spec fn spec_fits(lock: [u8; 5], key: [u8; 5]) -> bool {
    forall|i: int| 0 <= i < 5 ==> lock@[i] + key@[i] <= 5
}

/// How many of the first `j` keys fit `lock`.
pub open spec fn spec_key_fit_count(lock: [u8; 5], keys: Seq<[u8; 5]>, j: int) -> nat
    decreases j,
{
    if j <= 0 || j > keys.len() {
        0
    } else {
        spec_key_fit_count(lock, keys, j - 1) + (if spec_fits(lock, keys[j - 1]) {
            1nat
        } else {
            0nat
        })
    }
}

/// How many lock/key pairs fit, over the first `i` locks and all keys.
pub open spec fn spec_fit_count(locks: Seq<[u8; 5]>, keys: Seq<[u8; 5]>, i: int) -> nat
    decreases i,
{
    if i <= 0 || i > locks.len() {
        0
    } else {
        spec_fit_count(locks, keys, i - 1) + spec_key_fit_count(
            locks[i - 1],
            keys,
            keys.len() as int,
        )
    }
}

/// Per-lock key counts over prefixes never shrink.
proof fn lemma_key_fit_monotone(lock: [u8; 5], keys: Seq<[u8; 5]>, i: int, j: int)
    requires
        0 <= i <= j <= keys.len(),
    ensures
        spec_key_fit_count(lock, keys, i) <= spec_key_fit_count(lock, keys, j),
    decreases j - i,
{
    if i < j {
        lemma_key_fit_monotone(lock, keys, i, j - 1);
    }
}

/// Pair counts over prefixes never shrink.
proof fn lemma_fit_count_monotone(locks: Seq<[u8; 5]>, keys: Seq<[u8; 5]>, i: int, j: int)
    requires
        0 <= i <= j <= locks.len(),
    ensures
        spec_fit_count(locks, keys, i) <= spec_fit_count(locks, keys, j),
    decreases j - i,
{
    if i < j {
        lemma_fit_count_monotone(locks, keys, i, j - 1);
    }
}

/// Whether a key's pins fit a lock's pins: each column's heights sum to at
/// most five.
fn fits(lock: &[u8; 5], key: &[u8; 5]) -> (r: bool)
    ensures
        r == spec_fits(*lock, *key),
{
    let mut i: usize = 0;
    while i < 5
        invariant
            i <= 5,
            forall|j: int| 0 <= j < i ==> lock@[j] + key@[j] <= 5,
        decreases 5 - i,
    {
        if lock[i] as u16 + key[i] as u16 > 5 {
            return false;
        }
        i = i + 1;
    }
    true
}

/// Read one schematic block into its five pin heights, and whether it is a
/// lock (filled top row) rather than a key.  A block that is not a
/// five-column rectangle reads as nothing.
fn read_schematic(block: &Vec<&str>) -> Option<([u8; 5], bool)> {
    let mut rows: Vec<Vec<Tile>> = Vec::new();
    let mut r: usize = 0;
    while r < block.len()
        decreases block@.len() - r,
    {
        let line = block[r];
        let len = line.unicode_len();
        let mut row: Vec<Tile> = Vec::new();
        let mut k: usize = 0;
        while k < len
            invariant
                len == line@.len(),
            decreases len - k,
        {
            row.push(Tile::from_char(line.get_char(k)));
            k = k + 1;
        }
        rows.push(row);
        r = r + 1;
    }
    let grid: Grid<Tile> = Grid::new(rows);
    if !grid.is_wf() {
        return None;
    }
    if grid.width() != 5 {
        return None;
    }
    let cols = grid.iter_cols();
    let mut code: [u8; 5] = [0, 0, 0, 0, 0];
    let mut c: usize = 0;
    while c < 5
        invariant
            cols@.len() == 5,
        decreases 5 - c,
    {
        let col = &cols[c];
        let mut fills: usize = 0;
        let mut k: usize = 0;
        while k < col.len()
            invariant
                fills <= k,
            decreases col@.len() - k,
        {
            if *col[k] == Tile::Fill {
                fills = fills + 1;
            }
            k = k + 1;
        }
        let height = if fills == 0 {
            0
        } else {
            fills - 1
        };
        code[c] = if height > 255 {
            255
        } else {
            height as u8
        };
        c = c + 1;
    }
    let is_lock = match grid.get(Position { x: 0, y: 0 }) {
        Some(t) => *t == Tile::Fill,
        None => false,
    };
    Some((code, is_lock))
}

impl Day for Day25 {
    type Input = Schematics;

    fn day() -> usize {
        25
    }

    fn example_input_1() -> &'static str {
        "#####\n.####\n.####\n.####\n.#.#.\n.#...\n.....\n\n#####\n##.##\n.#.##\n...##\n...#.\n...#.\n.....\n\n.....\n#....\n#....\n#...#\n#.#.#\n#.###\n#####\n\n.....\n.....\n#.#..\n###..\n###.#\n###.#\n#####\n\n.....\n.....\n.....\n#....\n#.#..\n#.#.#\n#####"
    }

    fn expected_1() -> &'static str {
        "3"
    }

    fn expected_2() -> &'static str {
        "\u{1F973}"
    }

    /// Blocks separated by blank lines, each a lock or key schematic; the
    /// distinct codes of each kind are kept.
    fn parse_input(input: &str) -> Self::Input {
        let lines = split_char(input, '\n');
        let mut locks: Vec<[u8; 5]> = Vec::new();
        let mut keys: Vec<[u8; 5]> = Vec::new();
        let mut block: Vec<&str> = Vec::new();
        let mut i: usize = 0;
        while i <= lines.len()
            invariant
                i <= lines@.len() + 1,
            decreases lines@.len() + 1 - i,
        {
            let at_end = i == lines.len();
            let blank = if at_end {
                true
            } else {
                lines[i].unicode_len() == 0
            };
            if blank {
                if block.len() > 0 {
                    match read_schematic(&block) {
                        Some((code, is_lock)) => {
                            if is_lock {
                                if !codes_contain(&locks, &code) {
                                    locks.push(code);
                                }
                            } else {
                                if !codes_contain(&keys, &code) {
                                    keys.push(code);
                                }
                            }
                        },
                        None => (),
                    }
                }
                block = Vec::new();
            } else {
                block.push(lines[i]);
            }
            if at_end {
                break ;
            }
            i = i + 1;
        }
        Schematics { locks, keys }
    }

    /// How many lock/key pairs fit together.  Whenever that count fits the
    /// machine (any real schematic set's does), the answer is exactly the
    /// count in decimal; past that it saturates.
    fn part_1(input: Self::Input) -> (r: Option<String>)
        ensures
            spec_fit_count(input.locks@, input.keys@, input.locks@.len() as int) <= usize::MAX
                ==> (r matches Some(a) && a@ == crate::numfmt::dec_digits(
                spec_fit_count(input.locks@, input.keys@, input.locks@.len() as int),
            )),
    {
        let mut count: usize = 0;
        let mut l: usize = 0;
        while l < input.locks.len()
            invariant
                l <= input.locks@.len(),
                spec_fit_count(input.locks@, input.keys@, input.locks@.len() as int) <= usize::MAX
                    ==> count == spec_fit_count(input.locks@, input.keys@, l as int),
            decreases input.locks@.len() - l,
        {
            proof {
                lemma_fit_count_monotone(
                    input.locks@,
                    input.keys@,
                    l as int + 1,
                    input.locks@.len() as int,
                );
            }
            let mut k: usize = 0;
            while k < input.keys.len()
                invariant
                    l < input.locks@.len(),
                    k <= input.keys@.len(),
                    spec_fit_count(input.locks@, input.keys@, input.locks@.len() as int)
                        <= usize::MAX ==> count == spec_fit_count(input.locks@, input.keys@, l as int)
                        + spec_key_fit_count(input.locks@[l as int], input.keys@, k as int),
                    spec_fit_count(input.locks@, input.keys@, input.locks@.len() as int)
                        <= usize::MAX ==> spec_fit_count(input.locks@, input.keys@, l as int + 1)
                        <= usize::MAX,
                decreases input.keys@.len() - k,
            {
                proof {
                    if spec_fit_count(input.locks@, input.keys@, input.locks@.len() as int)
                        <= usize::MAX {
                        assert(spec_key_fit_count(input.locks@[l as int], input.keys@, k as int + 1)
                            <= spec_key_fit_count(
                            input.locks@[l as int],
                            input.keys@,
                            input.keys@.len() as int,
                        )) by {
                            lemma_key_fit_monotone(
                                input.locks@[l as int],
                                input.keys@,
                                k as int + 1,
                                input.keys@.len() as int,
                            );
                        }
                    }
                }
                if fits(&input.locks[l], &input.keys[k]) {
                    if count < usize::MAX {
                        count = count + 1;
                    }
                }
                k = k + 1;
            }
            l = l + 1;
        }
        Some(format_usize(count))
    }

    /// There is no second half to the calendar's last door.
    fn part_2(input: Self::Input) -> (r: Option<String>)
        ensures
            r matches Some(a) && a@ == "\u{1F973}"@,
    {
        let _ = input;
        Some("\u{1F973}".to_owned())
    }
}

} // verus!
