//! The 2024 registry and the global dispatch: example self-consistency of
//! the real days, dispatch over the closed day set, and the end-to-end
//! selector scenario.

use advent::day::Day;
use advent::runner::run_ydp;
use advent::selector::YDP;
use advent::y2024::day_1::Day1;
use advent::y2024::day_18::Day18;
use advent::y2024::day_2::Day2;
use advent::y2024::day_10::Day10;
use advent::y2024::day_11::Day11;
use advent::y2024::day_12::Day12;
use advent::y2024::day_14::Day14;
use advent::y2024::day_17::{run_program, Day17, Registers};
use advent::y2024::day_7::Day7;
use advent::y2024::day_8::Day8;
use advent::y2024::day_22::{next_secret, secret_n_times, Day22};
use advent::y2024::day_24::{Day24, Gate, Op};
use std::collections::HashMap;
use advent::y2024::day_25::Day25;
use advent::y2024::day_4::Day4 as Day4Real;
use advent::y2024::day_3::{sum_muls, Day3};
use advent::y2024::day_5::{Day5, Rules};
use advent::y2024::day_9::{Block, Day9, Disk};
use advent::y2024::day_6::Day6;
use advent::y2024::stubs::Day13;
use advent::y2024::Year2024;
use advent::y2025::day_1::{dial_zeros, Day1 as Day1of2025, Dir, Rot};
use advent::y2025::Year2025;
use advent::year::Year;

#[test]
fn test_2024_day_1_examples() {
    assert!(Day1::assert_part_1());
    assert!(Day1::assert_part_2());
}

#[test]
fn test_2024_day_2_examples() {
    assert!(Day2::assert_part_1());
    assert!(Day2::assert_part_2());
}

#[test]
fn test_2024_day_1_answers() {
    assert_eq!(Day1::run_part(1, None), Some("11".to_string()));
    assert_eq!(Day1::run_part(2, None), Some("31".to_string()));
}

#[test]
fn test_stub_day_passes_self_verification() {
    assert!(Day13::assert_part_1());
    assert!(Day13::assert_part_2());
}

#[test]
fn test_solve_day_dispatches() {
    assert_eq!(Year2024::solve_day(1, 1, None), Some("11".to_string()));
    assert_eq!(Year2024::solve_day(2, 1, None), Some("2".to_string()));
    assert_eq!(Year2024::solve_day(2, 2, None), Some("4".to_string()));
}

#[test]
fn test_solve_day_outside_calendar_is_none() {
    assert_eq!(Year2024::solve_day(0, 1, None), None);
    assert_eq!(Year2024::solve_day(26, 1, None), None);
    assert_eq!(Year2024::solve_day(9999, 2, None), None);
}

#[test]
fn test_unimplemented_day_solves_to_none() {
    assert_eq!(Year2024::solve_day(13, 1, None), None);
}

#[test]
fn test_end_to_end_2024_2_1() {
    let ydp = YDP::parse("2024:2:1").unwrap();
    // The library-level answer behind the selector:
    assert_eq!(Year2024::solve_day(2, 1, None), Some("2".to_string()));
    assert_eq!(Some("2".to_string()), Some(Day2::expected_1().to_string()));
    // And the full dispatch path runs without incident.
    run_ydp(ydp, None);
}

#[test]
fn test_solve_day_with_explicit_input() {
    assert_eq!(
        Year2024::solve_day(2, 1, Some("1 2 3\n9 8 7\n5 5 5")),
        Some("2".to_string())
    );
}

#[test]
fn test_year_number() {
    assert_eq!(Year2024::year(), 2024);
}

#[test]
fn test_2025_day_1_examples() {
    assert!(Day1of2025::assert_part_1());
    assert!(Day1of2025::assert_part_2());
    assert_eq!(Day1of2025::run_part(1, None), Some("3".to_string()));
    assert_eq!(Day1of2025::run_part(2, None), Some("6".to_string()));
}

#[test]
fn test_2025_registry() {
    assert_eq!(Year2025::year(), 2025);
    assert_eq!(Year2025::solve_day(1, 1, None), Some("3".to_string()));
    assert_eq!(Year2025::solve_day(13, 1, None), None);
    assert_eq!(Year2025::solve_day(2, 2, None), None);
}

#[test]
fn test_2025_dial_zeros() {
    let rots = vec![
        Rot { dir: Dir::Left, amnt: 50 },
        Rot { dir: Dir::Right, amnt: 150 },
    ];
    // Landing on zero once; passing it once on the way down and once more
    // on the way back up.
    assert_eq!(dial_zeros(&rots, false), 1);
    assert_eq!(dial_zeros(&rots, true), 2);
}

#[test]
fn test_2024_day_9_examples() {
    assert!(Day9::assert_part_1());
    assert!(Day9::assert_part_2());
    assert_eq!(Day9::run_part(1, None), Some("1928".to_string()));
    assert_eq!(Day9::run_part(2, None), Some("2858".to_string()));
}

#[test]
fn test_disk_parse_and_display() {
    let disk = Disk::parse("12345");
    assert_eq!(disk.data.len(), 5);
    assert!(matches!(disk.data[0], (Block::File(0), 1)));
    assert!(matches!(disk.data[1], (Block::Blank, 2)));
    assert!(matches!(disk.data[4], (Block::File(2), 5)));
    assert_eq!(disk.display(), "0..111....22222");
}

#[test]
fn test_disk_blanks_and_swap() {
    let mut disk = Disk::parse("12345");
    let blanks = disk.iter_blanks_before(4);
    assert_eq!(blanks, vec![(1, 2), (3, 4)]);
    // Swapping equal sizes exchanges the entries in place.
    let mut equal = Disk::parse("111");
    assert!(!equal.swap_blocks(2, 1));
    assert_eq!(equal.display(), "01.");
    // Swapping a small file into a large blank splits the blank.
    let grew = disk.swap_blocks(2, 1);
    assert!(grew);
    assert_eq!(disk.display(), "0111.....22222");
}

#[test]
fn test_disk_checksum() {
    // After fully compacting the example, the checksum is the documented
    // value; on the raw example layout it differs.
    let disk = Disk::parse("12345");
    assert_eq!(
        disk.checksum(),
        3 + 4 + 5 + 10 * 2 + 11 * 2 + 12 * 2 + 13 * 2 + 14 * 2
    );
}

#[test]
fn test_2024_day_5_examples() {
    assert!(Day5::assert_part_1());
    assert!(Day5::assert_part_2());
    assert_eq!(Day5::run_part(1, None), Some("143".to_string()));
    assert_eq!(Day5::run_part(2, None), Some("123".to_string()));
}

#[test]
fn test_rules_take() {
    let mut rules = Rules::new();
    rules.take(47, 53);
    rules.take(47, 61);
    assert_eq!(rules.0.get(&47), Some(&vec![53, 61]));
    assert_eq!(rules.0.get(&53), None);
}

#[test]
fn test_2024_day_3_examples() {
    assert!(Day3::assert_part_1());
    assert!(Day3::assert_part_2());
    assert_eq!(Day3::run_part(1, None), Some("161".to_string()));
    assert_eq!(Day3::run_part(2, None), Some("48".to_string()));
}

#[test]
fn test_sum_muls() {
    assert_eq!(sum_muls("mul(3,4)", false), 12);
    assert_eq!(sum_muls("mul(3,4", false), 0);
    assert_eq!(sum_muls("mul( 3,4)", false), 0);
    assert_eq!(sum_muls("don't()mul(3,4)do()mul(2,2)", true), 4);
    assert_eq!(sum_muls("don't()mul(3,4)do()mul(2,2)", false), 16);
}

#[test]
fn test_2024_day_25_examples() {
    assert!(Day25::assert_part_1());
    assert!(Day25::assert_part_2());
    assert_eq!(Day25::run_part(1, None), Some("3".to_string()));
}

#[test]
fn test_2024_day_4_examples() {
    assert!(Day4Real::assert_part_1());
    assert!(Day4Real::assert_part_2());
    assert_eq!(Day4Real::run_part(1, None), Some("18".to_string()));
    assert_eq!(Day4Real::run_part(2, None), Some("9".to_string()));
}

#[test]
fn test_2024_day_22_secrets() {
    assert_eq!(next_secret(123), 15887950);
    assert_eq!(next_secret(15887950), 16495136);
    assert_eq!(secret_n_times(1, 2000), 8685429);
    assert_eq!(secret_n_times(100, 2000), 15273692);
    assert_eq!(
        Day22::run_part(1, Some("1\n10\n100\n2024")),
        Some("37327623".to_string())
    );
    assert_eq!(
        Day22::run_part(2, Some("1\n2\n3\n2024")),
        Some("23".to_string())
    );
}

#[test]
fn test_2024_day_17_examples() {
    assert!(Day17::assert_part_1());
    assert!(Day17::assert_part_2());
    assert_eq!(
        Day17::run_part(1, None),
        Some("4,6,3,5,6,3,5,2,1,0".to_string())
    );
    assert_eq!(
        Day17::run_part(
            2,
            Some("Register A: 2024\nRegister B: 0\nRegister C: 0\n\nProgram: 0,3,5,4,3,0")
        ),
        Some("117440".to_string())
    );
}

#[test]
fn test_run_program() {
    // The opcode walkthrough cases.
    let out = run_program(&vec![2, 6], Registers { a: 0, b: 0, c: 9 }, false);
    assert!(out.is_empty());
    let out = run_program(&vec![5, 0, 5, 1, 5, 4], Registers { a: 10, b: 0, c: 0 }, false);
    assert_eq!(out, vec![0, 1, 2]);
    let out = run_program(
        &vec![0, 1, 5, 4, 3, 0],
        Registers { a: 2024, b: 0, c: 0 },
        false,
    );
    assert_eq!(out, vec![4, 2, 5, 6, 7, 7, 7, 7, 3, 1, 0]);
}

#[test]
fn test_2024_day_7_examples() {
    assert!(Day7::assert_part_1());
    assert!(Day7::assert_part_2());
    assert_eq!(Day7::run_part(1, None), Some("3749".to_string()));
    assert_eq!(Day7::run_part(2, None), Some("11387".to_string()));
}

#[test]
fn test_2024_day_11_examples() {
    assert!(Day11::assert_part_1());
    assert_eq!(Day11::run_part(1, None), Some("55312".to_string()));
    // Six blinks of the walkthrough example leave twenty-two stones.
    assert_eq!(
        Day11::run_part(1, Some("125 17")),
        Some("55312".to_string())
    );
}

#[test]
fn test_2024_day_8_examples() {
    assert!(Day8::assert_part_1());
    assert!(Day8::assert_part_2());
    assert_eq!(Day8::run_part(1, None), Some("14".to_string()));
    assert_eq!(Day8::run_part(2, None), Some("34".to_string()));
}

#[test]
fn test_2024_day_10_examples() {
    assert!(Day10::assert_part_1());
    assert!(Day10::assert_part_2());
    assert_eq!(Day10::run_part(1, None), Some("36".to_string()));
    assert_eq!(Day10::run_part(2, None), Some("81".to_string()));
}

#[test]
fn test_2024_day_24_example() {
    assert!(Day24::assert_part_1());
    assert!(Day24::assert_part_2());
    assert_eq!(Day24::run_part(1, None), Some("4".to_string()));
}

#[test]
fn test_gate_parse_and_run() {
    let gate = Gate::parse("x00 AND y00 -> z00").unwrap();
    assert_eq!(gate.op, Op::And);
    assert_eq!(gate.lhs, "x00");
    assert_eq!(gate.rhs, "y00");
    assert_eq!(gate.target, "z00");
    assert!(Gate::parse("x00 NAND y00 -> z00").is_none());
    let mut wires: HashMap<String, bool> = HashMap::new();
    wires.insert("x00".to_string(), true);
    assert!(!gate.run(&mut wires));
    wires.insert("y00".to_string(), true);
    assert!(gate.run(&mut wires));
    assert_eq!(wires.get("z00"), Some(&true));
}

#[test]
fn test_day_24_swap_search() {
    // A three-stage adder with the middle stage's sum and carry targets
    // crossed: the search names exactly those two wires.
    let input = "x00: 1\nx01: 0\nx02: 0\ny00: 1\ny01: 1\ny02: 0\n\nx00 AND y00 -> c00\nx00 XOR y00 -> z00\nx01 AND y01 -> a01\nx01 XOR y01 -> s01\nc00 XOR s01 -> c01\nc00 AND s01 -> b01\nb01 OR a01 -> z01\nx02 AND y02 -> a02\nx02 XOR y02 -> s02\nc01 XOR s02 -> z02\nc01 AND s02 -> b02\nb02 OR a02 -> z03";
    let circuit = Day24::parse_input(input);
    let swapped = Day24::part_2(circuit);
    assert_eq!(swapped, Some("c01,z01".to_string()));
}

#[test]
fn test_2024_day_6_examples() {
    assert!(Day6::assert_part_1());
    assert!(Day6::assert_part_2());
    assert_eq!(Day6::run_part(1, None), Some("41".to_string()));
    assert_eq!(Day6::run_part(2, None), Some("6".to_string()));
}

#[test]
fn test_2024_day_18_examples() {
    assert!(Day18::assert_part_1());
    assert!(Day18::assert_part_2());
    assert_eq!(Day18::run_part(1, None), Some("22".to_string()));
    assert_eq!(Day18::run_part(2, None), Some("6,1".to_string()));
}

#[test]
fn test_2024_day_14_examples() {
    assert!(Day14::assert_part_1());
    assert!(Day14::assert_part_2());
    assert_eq!(Day14::run_part(1, None), Some("12".to_string()));
    // A floor other than the full-size one has no picture to find.
    assert_eq!(Day14::run_part(2, None), Some(String::new()));
}

#[test]
fn test_2024_day_12_examples() {
    assert!(Day12::assert_part_1());
    assert!(Day12::assert_part_2());
    assert_eq!(Day12::run_part(1, None), Some("1930".to_string()));
    assert_eq!(Day12::run_part(2, None), Some("1206".to_string()));
    // The small walkthrough garden: four regions pricing 140, then 80.
    assert_eq!(
        Day12::run_part(1, Some("AAAA\nBBCD\nBBCC\nEEEC")),
        Some("140".to_string())
    );
    assert_eq!(
        Day12::run_part(2, Some("AAAA\nBBCD\nBBCC\nEEEC")),
        Some("80".to_string())
    );
}
