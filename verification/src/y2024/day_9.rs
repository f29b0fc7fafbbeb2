//! Day 9: compact a fragmented disk, block by block and then file by file,
//! and checksum the result.

use vstd::prelude::*;

use crate::day::Day;
use crate::numfmt::{char_digit, digit_value, format_u128, format_usize};

verus! {

pub struct Day9;

/// One run of disk blocks: a file with its identifier, or blank space.
#[derive(Clone, Copy, Debug, PartialEq, Eq, Structural)]
pub enum Block {
    File(usize),
    Blank,
}

/// A disk as a run-length encoding: each entry is a block and its size.
#[derive(Debug, Clone)]
pub struct Disk {
    pub data: Vec<(Block, usize)>,
}

/// The blank entries among the first `upto` entries, each with its index and
/// size, in index order.
pub open spec fn spec_blanks(data: Seq<(Block, usize)>, upto: int) -> Seq<(usize, usize)>
    decreases upto,
{
    if upto <= 0 || upto > data.len() {
        Seq::empty()
    } else {
        let init = spec_blanks(data, upto - 1);
        if data[upto - 1].0 is Blank {
            init.push(((upto - 1) as usize, data[upto - 1].1))
        } else {
            init
        }
    }
}

/// The number of cells the first `i` entries occupy.
pub open spec fn spec_cells(data: Seq<(Block, usize)>, i: int) -> nat
    decreases i,
{
    if i <= 0 || i > data.len() {
        0
    } else {
        spec_cells(data, i - 1) + data[i - 1].1 as nat
    }
}

/// What a file of `size` blocks contributes from cell `idx` on:
/// `id * (idx + (idx + 1) + ... + (idx + size - 1))`.
pub open spec fn spec_file_sum(id: nat, idx: nat, size: nat) -> nat
    decreases size,
{
    if size == 0 {
        0
    } else {
        id * idx + spec_file_sum(id, idx + 1, (size - 1) as nat)
    }
}

/// The checksum of the first `i` entries: every file block's cell index
/// times its file identifier, cells counted across files and blanks alike.
pub open spec fn spec_checksum(data: Seq<(Block, usize)>, i: int) -> nat
    decreases i,
{
    if i <= 0 || i > data.len() {
        0
    } else {
        spec_checksum(data, i - 1) + (match data[i - 1].0 {
            Block::Blank => 0,
            Block::File(id) => spec_file_sum(
                id as nat,
                spec_cells(data, i - 1),
                data[i - 1].1 as nat,
            ),
        })
    }
}

/// Whether the disk is small enough for its checksum arithmetic to stay
/// exact: the cell count fits the wide accumulator and the checksum fits
/// the machine.
pub open spec fn spec_checksum_fits(data: Seq<(Block, usize)>) -> bool {
    &&& spec_cells(data, data.len() as int) <= u128::MAX
    &&& spec_checksum(data, data.len() as int) <= usize::MAX
}

/// Cell counts only grow with more entries.
proof fn lemma_cells_monotone(data: Seq<(Block, usize)>, i: int, j: int)
    requires
        0 <= i <= j <= data.len(),
    ensures
        spec_cells(data, i) <= spec_cells(data, j),
    decreases j - i,
{
    if i < j {
        lemma_cells_monotone(data, i, j - 1);
    }
}

/// Checksums only grow with more entries.
proof fn lemma_checksum_monotone(data: Seq<(Block, usize)>, i: int, j: int)
    requires
        0 <= i <= j <= data.len(),
    ensures
        spec_checksum(data, i) <= spec_checksum(data, j),
    decreases j - i,
{
    if i < j {
        lemma_checksum_monotone(data, i, j - 1);
    }
}

/// A file sum splits at any block: the first `k` blocks plus the rest.
proof fn lemma_file_sum_split(id: nat, idx: nat, k: nat, size: nat)
    requires
        k <= size,
    ensures
        spec_file_sum(id, idx, size) == spec_file_sum(id, idx, k) + spec_file_sum(
            id,
            idx + k,
            (size - k) as nat,
        ),
    decreases k,
{
    if k > 0 {
        lemma_file_sum_split(id, idx + 1, (k - 1) as nat, (size - 1) as nat);
    }
}

impl Disk {
    /// Decode the dense format: digits alternate between file sizes and
    /// blank sizes, file identifiers counting up from zero.  A character
    /// that is no digit reads as size zero.
    pub fn parse(input: &str) -> (r: Self)
        ensures
            r.data@.len() == input@.len(),
            forall|k: int|
                0 <= k < input@.len() ==> #[trigger] r.data@[k] == (
                    if k % 2 == 0 {
                        Block::File((k / 2) as usize)
                    } else {
                        Block::Blank
                    },
                    digit_value(input@[k]) as usize,
                ),
    {
        let len = input.unicode_len();
        let mut data: Vec<(Block, usize)> = Vec::new();
        let mut k: usize = 0;
        while k < len
            invariant
                0 <= k <= len,
                len == input@.len(),
                data@.len() == k,
                forall|j: int|
                    0 <= j < k ==> #[trigger] data@[j] == (
                        if j % 2 == 0 {
                            Block::File((j / 2) as usize)
                        } else {
                            Block::Blank
                        },
                        digit_value(input@[j]) as usize,
                    ),
            decreases len - k,
        {
            let c = input.get_char(k);
            let size: usize = match char_digit(c) {
                Some(d) => d as usize,
                None => 0,
            };
            let block = if k % 2 == 0 {
                Block::File(k / 2)
            } else {
                Block::Blank
            };
            data.push((block, size));
            k = k + 1;
        }
        Disk { data }
    }

    /// The filesystem checksum: the sum, over every block of every file, of
    /// the block's cell index times the file's identifier.  Whenever the
    /// disk is small enough for the sums to fit (any real disk is), the
    /// result is exactly `spec_checksum`; a sum past the machine's range
    /// saturates.
    pub fn checksum(&self) -> (r: usize)
        ensures
            spec_checksum_fits(self.data@) ==> r == spec_checksum(
                self.data@,
                self.data@.len() as int,
            ),
    {
        let n = self.data.len();
        let mut index: u128 = 0;
        let mut total: u128 = 0;
        let mut i: usize = 0;
        while i < n
            invariant
                n == self.data@.len(),
                i <= n,
                spec_checksum_fits(self.data@) ==> index == spec_cells(self.data@, i as int),
                spec_checksum_fits(self.data@) ==> total == spec_checksum(self.data@, i as int),
            decreases n - i,
        {
            let ghost fits = spec_checksum_fits(self.data@);
            let (block, size) = self.data[i];
            proof {
                if fits {
                    lemma_cells_monotone(self.data@, i as int + 1, n as int);
                    lemma_checksum_monotone(self.data@, i as int + 1, n as int);
                }
            }
            match block {
                Block::Blank => (),
                Block::File(id) => {
                    let mut k: usize = 0;
                    while k < size
                        invariant
                            n == self.data@.len(),
                            i < n,
                            fits == spec_checksum_fits(self.data@),
                            self.data@[i as int].0 == Block::File(id),
                            self.data@[i as int].1 == size,
                            k <= size,
                            spec_checksum_fits(self.data@) ==> index == spec_cells(
                                self.data@,
                                i as int,
                            ),
                            spec_checksum_fits(self.data@) ==> total == spec_checksum(
                                self.data@,
                                i as int,
                            ) + spec_file_sum(
                                id as nat,
                                spec_cells(self.data@, i as int),
                                k as nat,
                            ),
                        decreases size - k,
                    {
                        proof {
                            if fits {
                                lemma_cells_monotone(self.data@, i as int + 1, n as int);
                                lemma_checksum_monotone(self.data@, i as int + 1, n as int);
                                assert(spec_cells(self.data@, i as int + 1) == spec_cells(
                                    self.data@,
                                    i as int,
                                ) + size as nat);
                                assert(spec_checksum(self.data@, i as int + 1) == spec_checksum(
                                    self.data@,
                                    i as int,
                                ) + spec_file_sum(
                                    id as nat,
                                    spec_cells(self.data@, i as int),
                                    size as nat,
                                ));
                                lemma_file_sum_split(
                                    id as nat,
                                    spec_cells(self.data@, i as int),
                                    k as nat,
                                    size as nat,
                                );
                                lemma_file_sum_split(
                                    id as nat,
                                    spec_cells(self.data@, i as int),
                                    (k + 1) as nat,
                                    size as nat,
                                );
                                assert(spec_file_sum(
                                    id as nat,
                                    spec_cells(self.data@, i as int) + k as nat,
                                    (size - k) as nat,
                                ) == (id as nat) * (spec_cells(self.data@, i as int) + k as nat)
                                    + spec_file_sum(
                                    id as nat,
                                    spec_cells(self.data@, i as int) + k as nat + 1,
                                    (size - k - 1) as nat,
                                ));
                            }
                        }
                        let position = if index <= u128::MAX - k as u128 {
                            index + k as u128
                        } else {
                            u128::MAX
                        };
                        proof {
                            if fits && position != 0 {
                                let pm = position as int;
                                let idm = id as int;
                                vstd::arithmetic::div_mod::lemma_fundamental_div_mod(
                                    u128::MAX as int,
                                    pm,
                                );
                                assert(idm * pm <= u128::MAX ==> idm <= u128::MAX as int / pm)
                                    by (nonlinear_arith)
                                    requires
                                        pm >= 1,
                                        u128::MAX as int == pm * (u128::MAX as int / pm) + (
                                        u128::MAX as int % pm),
                                        0 <= u128::MAX as int % pm < pm,
                                ;
                            }
                        }
                        let term = if position != 0 && id as u128 > u128::MAX / position {
                            u128::MAX
                        } else {
                            proof {
                                if position != 0 {
                                    let pm = position as int;
                                    let idm = id as int;
                                    vstd::arithmetic::div_mod::lemma_fundamental_div_mod(
                                        u128::MAX as int,
                                        pm,
                                    );
                                    assert(idm * pm <= (u128::MAX as int / pm) * pm)
                                        by (nonlinear_arith)
                                        requires
                                            idm <= u128::MAX as int / pm,
                                            pm >= 1,
                                    ;
                                    assert((u128::MAX as int / pm) * pm == pm * (u128::MAX as int
                                        / pm)) by (nonlinear_arith);
                                }
                            }
                            id as u128 * position
                        };
                        total = if total <= u128::MAX - term {
                            total + term
                        } else {
                            u128::MAX
                        };
                        proof {
                            if fits {
                                assert(position == spec_cells(self.data@, i as int) + k);
                                assert(term == (id as nat) * (spec_cells(self.data@, i as int)
                                    + k as nat));
                                assert(spec_file_sum(
                                    id as nat,
                                    spec_cells(self.data@, i as int),
                                    (k + 1) as nat,
                                ) == spec_file_sum(
                                    id as nat,
                                    spec_cells(self.data@, i as int),
                                    k as nat,
                                ) + (id as nat) * (spec_cells(self.data@, i as int) + k as nat));
                                assert(total == spec_checksum(self.data@, i as int)
                                    + spec_file_sum(
                                    id as nat,
                                    spec_cells(self.data@, i as int),
                                    (k + 1) as nat,
                                ));
                            }
                        }
                        k = k + 1;
                    }
                },
            }
            index = if index <= u128::MAX - size as u128 {
                index + size as u128
            } else {
                u128::MAX
            };
            i = i + 1;
        }
        if total > usize::MAX as u128 {
            usize::MAX
        } else {
            total as usize
        }
    }

    /// The disk drawn as text: one character per block, a file's identifier
    /// digits or a dot for blank space.
    pub fn display(&self) -> String {
        let mut out = String::new();
        let mut i: usize = 0;
        while i < self.data.len()
            decreases self.data@.len() - i,
        {
            let (block, size) = self.data[i];
            let piece: String = match block {
                Block::Blank => ".".to_owned(),
                Block::File(id) => format_usize(id),
            };
            let mut k: usize = 0;
            while k < size
                decreases size - k,
            {
                out.append(piece.as_str());
                k = k + 1;
            }
            i = i + 1;
        }
        out
    }

    /// The blank entries before entry `i`, each as `(position, size)`.
    pub fn iter_blanks_before(&self, i: usize) -> (r: Vec<(usize, usize)>)
        ensures
            r@ == spec_blanks(
                self.data@,
                if i <= self.data@.len() {
                    i as int
                } else {
                    self.data@.len() as int
                },
            ),
            forall|k: int| 0 <= k < r@.len() ==> (#[trigger] r@[k]).0 < i,
    {
        let n = if i <= self.data.len() {
            i
        } else {
            self.data.len()
        };
        let mut r: Vec<(usize, usize)> = Vec::new();
        let mut j: usize = 0;
        while j < n
            invariant
                0 <= j <= n <= self.data@.len(),
                n <= i,
                r@ == spec_blanks(self.data@, j as int),
                forall|k: int| 0 <= k < r@.len() ==> (#[trigger] r@[k]).0 < j,
            decreases n - j,
        {
            let (block, size) = self.data[j];
            match block {
                Block::Blank => r.push((j, size)),
                Block::File(_) => (),
            }
            j = j + 1;
        }
        r
    }

    /// Move the file at entry `i` into the blank at entry `j`.  Equal sizes
    /// swap in place; otherwise the larger entry is split, inserting one new
    /// entry, and the call reports that the disk grew.
    pub fn swap_blocks(&mut self, i: usize, j: usize) -> (grew: bool)
        requires
            i < old(self).data@.len(),
            j < old(self).data@.len(),
            i != j,
        ensures
            ({
                let a = old(self).data@[i as int];
                let b = old(self).data@[j as int];
                if a.1 == b.1 {
                    !grew && final(self).data@ == old(self).data@.update(i as int, b).update(
                        j as int,
                        a,
                    )
                } else if a.1 > b.1 {
                    grew && final(self).data@ == old(self).data@.update(
                        i as int,
                        (a.0, (a.1 - b.1) as usize),
                    ).update(j as int, (a.0, b.1)).insert(i as int + 1, (b.0, (a.1 - b.1) as usize))
                } else {
                    grew && final(self).data@ == old(self).data@.update(j as int, a).update(
                        i as int,
                        (b.0, a.1),
                    ).insert(j as int + 1, (b.0, (b.1 - a.1) as usize))
                }
            }),
    {
        let len = self.data.len();
        let a = self.data[i];
        let b = self.data[j];
        if a.1 == b.1 {
            self.data.set(i, b);
            self.data.set(j, a);
            false
        } else if a.1 > b.1 {
            self.data.set(i, (a.0, a.1 - b.1));
            self.data.set(j, (a.0, b.1));
            self.data.insert(i + 1, (b.0, a.1 - b.1));
            true
        } else {
            self.data.set(j, a);
            self.data.set(i, (b.0, a.1));
            self.data.insert(j + 1, (b.0, b.1 - a.1));
            true
        }
    }
}

/// Compact the disk: walk the entries from the right and move each file
/// into the first blank left of it, whole-file moves only when
/// `whole_files` is set.  The walk is bounded by a generous fuel so that it
/// provably ends on any input.
fn compact(disk: &mut Disk, whole_files: bool) {
    if disk.data.len() == 0 {
        return ;
    }
    let n = disk.data.len();
    let mut fuel: usize = if n > 0xffff {
        usize::MAX
    } else {
        proof {
            assert(n * n <= 0xffff * 0xffff) by (nonlinear_arith)
                requires
                    0 <= n <= 0xffff,
            ;
        }
        n * n + n
    };
    let mut i = disk.data.len() - 1;
    while fuel > 0
        invariant
            i < disk.data@.len(),
        decreases fuel,
    {
        fuel = fuel - 1;
        let (block, size) = disk.data[i];
        let is_file = match block {
            Block::File(_) => true,
            Block::Blank => false,
        };
        if is_file {
            let blanks = disk.iter_blanks_before(i);
            let mut found: Option<usize> = None;
            let mut b: usize = 0;
            while b < blanks.len()
                invariant
                    found matches Some(j) ==> j < i,
                    forall|k: int| 0 <= k < blanks@.len() ==> (#[trigger] blanks@[k]).0 < i,
                decreases blanks@.len() - b,
            {
                let (position, blank_size) = blanks[b];
                if !whole_files || blank_size >= size {
                    found = Some(position);
                    break ;
                }
                b = b + 1;
            }
            match found {
                Some(j) => {
                    if j < i && i < disk.data.len() {
                        if disk.swap_blocks(i, j) {
                            if i < usize::MAX {
                                i = i + 1;
                            }
                        }
                    }
                },
                None => (),
            }
        }
        if i == 0 || i >= disk.data.len() {
            break ;
        }
        i = i - 1;
    }
}

impl Day for Day9 {
    type Input = Disk;

    fn day() -> usize {
        9
    }

    fn example_input_1() -> &'static str {
        "2333133121414131402"
    }

    fn example_input_2() -> &'static str {
        "2333133121414131402"
    }

    fn expected_1() -> &'static str {
        "1928"
    }

    fn expected_2() -> &'static str {
        "2858"
    }

    fn parse_input(input: &str) -> Self::Input {
        let len = input.unicode_len();
        let mut end = len;
        while end > 0 && input.get_char(end - 1) == '\n'
            invariant
                end <= input@.len(),
            decreases end,
        {
            end = end - 1;
        }
        Disk::parse(input.substring_char(0, end))
    }

    /// The checksum after compacting block by block.
    fn part_1(input: Self::Input) -> Option<String> {
        let mut disk = input;
        compact(&mut disk, false);
        Some(format_u128(disk.checksum() as u128))
    }

    /// The checksum after compacting whole files only.
    fn part_2(input: Self::Input) -> Option<String> {
        let mut disk = input;
        compact(&mut disk, true);
        Some(format_u128(disk.checksum() as u128))
    }
}

} // verus!
