//! The geometry and number utilities, against their documented examples.

use advent::dir::Direction;
use advent::geom::{area, perimeter};
use advent::line::Line;
use advent::misc::{all_combos_remove_one, counts, follows_diff_range, FollowRangeResult};
use advent::num::{digit_at, num_digits, split_num_at, split_num_once, Digits};
use advent::numfmt::{format_u128, format_usize, parse_usize};
use advent::pos::Position;
use advent::range::{BetterRange, RangeSplitBehavior};

#[test]
fn test_position_flip() {
    assert_eq!(Position::new(1, 2).flip(), Position::new(2, 1));
}

#[test]
fn test_position_normalize() {
    assert_eq!(Position::new(1, 1).normalize(), Position::new(1, 1));
    assert_eq!(Position::new(50, -45).normalize(), Position::new(1, -1));
    assert_eq!(Position::new(-30, 0).normalize(), Position::new(-1, 0));
}

#[test]
fn test_position_abs_sum_diff() {
    assert_eq!(Position::new(-1, -1).abs(), Position::new(1, 1));
    assert_eq!(Position::new(1, 1).sum(), 2);
    assert_eq!(Position::new(1, 1).diff(), 0);
}

#[test]
fn test_position_arithmetic() {
    assert_eq!(
        Position::new(1, 1).add(&Position::new(5, 4)),
        Position::new(6, 5)
    );
    assert_eq!(
        Position::new(1, 1).sub(&Position::new(5, 5)),
        Position::new(-4, -4)
    );
    assert_eq!(
        Position::new(1, 1).multiply(&Position::new(5, 4)),
        Position::new(5, 4)
    );
    assert_eq!(Position::new(1, 1).dot(&Position::new(5, 4)), 9);
    assert_eq!(Position::new(2, 3).cross(&Position::new(5, 4)), -7);
    assert_eq!(Position::new(1, 1).multiply_comp(5), Position::new(5, 5));
}

#[test]
fn test_position_distances() {
    assert_eq!(Position::new(1, 1).manhattan(&Position::new(5, 5)), 8);
    assert_eq!(Position::new(1, 1).chebyshev(&Position::new(5, 5)), 4);
}

#[test]
fn test_position_dir() {
    assert_eq!(
        Position::new(1, 1).get_dir(&Position::new(5, 1)),
        Direction::East
    );
    assert_eq!(
        Position::new(5, 1).get_dir(&Position::new(1, 1)),
        Direction::West
    );
    assert_eq!(
        Position::new(1, 1).get_dir(&Position::new(1, 5)),
        Direction::South
    );
}

#[test]
fn test_position_check_and_bind() {
    assert!(Position::new(0, 0).check((10, 10)));
    assert!(!Position::new(50, 50).check((5, 5)));
    assert_eq!(Position::bind_comp(-1, 10), 9);
    assert_eq!(Position::bind_comp(-10, 5), 0);
    assert_eq!(Position::bind_comp(10, 5), 0);
    assert_eq!(Position::bind_comp(3, 6), 3);
    assert_eq!(Position::new(-1, -1).bind((11, 11)), (10, 10));
    assert_eq!(Position::new(-10, -10).bind((6, 6)), (2, 2));
    assert_eq!(Position::new(10, 10).bind((6, 6)), (4, 4));
}

#[test]
fn test_position_moves() {
    assert_eq!(
        Position::new(0, 0).move_dir(Direction::North),
        Position::new(0, -1)
    );
    assert_eq!(
        Position::new(0, 0).move_dir(Direction::East),
        Position::new(1, 0)
    );
    assert_eq!(
        Position::new(0, 0).move_times(Direction::North, 5),
        Position::new(0, -5)
    );
    assert_eq!(
        Position::new(0, 0).move_dir_checked(Direction::East, (10, 10)),
        Some(Position::new(1, 0))
    );
    assert_eq!(
        Position::new(40, 40).move_dir_checked(Direction::East, (40, 40)),
        None
    );
}

#[test]
fn test_position_relatives() {
    let relatives =
        Position::new(0, 0).relatives(&vec![Direction::North, Direction::East]);
    assert_eq!(
        relatives,
        vec![
            (Position::new(0, -1), Direction::North),
            (Position::new(1, 0), Direction::East)
        ]
    );
    let checked = Position::new(0, 0)
        .relatives_checked(&vec![Direction::North, Direction::East], (10, 10));
    assert_eq!(checked, vec![(Position::new(1, 0), Direction::East)]);
}

#[test]
fn test_position_relatives_expand() {
    let relatives =
        Position::new(0, 0).relatives_expand_by(&vec![Direction::North, Direction::East], 2);
    assert_eq!(
        relatives,
        vec![
            ((Direction::North, 1), Position::new(0, -1)),
            ((Direction::North, 2), Position::new(0, -2)),
            ((Direction::East, 1), Position::new(1, 0)),
            ((Direction::East, 2), Position::new(2, 0)),
        ]
    );
    let checked = Position::new(0, 0).relatives_expand_by_checked(
        &vec![Direction::North, Direction::East],
        2,
        (10, 10),
    );
    assert_eq!(
        checked,
        vec![
            ((Direction::East, 1), Position::new(1, 0)),
            ((Direction::East, 2), Position::new(2, 0)),
        ]
    );
}

#[test]
fn test_position_adjacents() {
    let adjacents = Position::new(0, 0).adjacents();
    assert_eq!(
        adjacents,
        vec![
            (Position::new(0, -1), Direction::North),
            (Position::new(0, 1), Direction::South),
            (Position::new(1, 0), Direction::East),
            (Position::new(-1, 0), Direction::West),
        ]
    );
    let adjacents = Position::new(0, 0).adjacents_checked((2, 2));
    assert_eq!(
        adjacents,
        vec![
            (Position::new(0, 1), Direction::South),
            (Position::new(1, 0), Direction::East),
        ]
    );
}

#[test]
fn test_direction() {
    assert_eq!(Direction::North.opposite(), Direction::South);
    assert_eq!(Direction::East.opposite(), Direction::West);
    assert_eq!(Direction::North.ninety_deg(true), Direction::East);
    assert_eq!(Direction::North.ninety_deg(false), Direction::West);
    assert_eq!(Direction::South.ninety_deg(true), Direction::West);
    assert_eq!(Direction::South.ninety_deg(false), Direction::East);
}

#[test]
fn test_num_digits() {
    assert_eq!(num_digits(2226), 4);
    assert_eq!(num_digits(120938747), 9);
    assert_eq!(num_digits(0), 1);
}

#[test]
fn test_split_num() {
    assert_eq!(split_num_at(123456, 3), (123, 456));
    assert_eq!(split_num_once(55556666), (5555, 6666));
}

#[test]
fn test_digit_at() {
    assert_eq!(digit_at(123, 0), 3);
    assert_eq!(digit_at(123, 2), 1);
    assert_eq!(digit_at(123, 5), 0);
}

#[test]
fn test_digits_cursor() {
    let mut digits = Digits::new(1234);
    assert_eq!(digits.next(), Some(4));
    assert_eq!(digits.next(), Some(3));
    assert_eq!(digits.next(), Some(2));
    assert_eq!(digits.next(), None);
}

#[test]
fn test_counts() {
    let m = counts(&vec![1i32, 2, 2, 3, 3, 3]);
    assert_eq!(m.get(&1), Some(&1));
    assert_eq!(m.get(&2), Some(&2));
    assert_eq!(m.get(&3), Some(&3));
    assert_eq!(m.get(&4), None);
}

#[test]
fn test_range_contains() {
    let range = BetterRange::new(0, 10);
    assert!(range.contains(&5));
    assert!(!range.contains(&10));
    assert!(range.contains_range(&BetterRange::new(5, 7)));
    assert!(!range.contains_range(&BetterRange::new(5, 15)));
}

#[test]
fn test_range_merge() {
    let a = BetterRange::new(1, 5);
    let b = BetterRange::new(6, 11);
    let c = BetterRange::new(4, 8);
    let d = BetterRange::new(3, 4);
    assert!(a.merge(&b).is_none());
    assert!(d.merge(&b).is_none());
    assert_eq!(a.merge(&c).unwrap(), BetterRange::new(1, 8));
    assert_eq!(c.merge(&a).unwrap(), BetterRange::new(1, 8));
    assert_eq!(a.merge(&d).unwrap(), a);
    assert_eq!(d.merge(&a).unwrap(), a);
    assert_eq!(c.merge(&d).unwrap(), BetterRange::new(3, 8));
    assert_eq!(d.merge(&c).unwrap(), BetterRange::new(3, 8));
}

#[test]
fn test_range_split() {
    let range = BetterRange::new(0, 10);
    let (lower, upper) = range.split(&5, RangeSplitBehavior::IncludeLower);
    assert_eq!(lower, Some(BetterRange::new(0, 6)));
    assert_eq!(upper, Some(BetterRange::new(6, 10)));
    let (lower, upper) = range.split(&5, RangeSplitBehavior::IncludeUpper);
    assert_eq!(lower, Some(BetterRange::new(0, 5)));
    assert_eq!(upper, Some(BetterRange::new(5, 10)));
    let (lower, upper) = range.split(&5, RangeSplitBehavior::Exclude);
    assert_eq!(lower, Some(BetterRange::new(0, 5)));
    assert_eq!(upper, Some(BetterRange::new(6, 10)));
    let (lower, upper) = range.split(&20, RangeSplitBehavior::Exclude);
    assert_eq!(lower, None);
    assert_eq!(upper, None);
}

#[test]
fn test_line() {
    let line = Line::new(Position::new(0, 0), Position::new(2, 2));
    assert_eq!(line.start(), Position::new(0, 0));
    assert_eq!(line.end(), Position::new(2, 2));
    assert!(line.check_after(&Position::new(1, 1)));
    assert!(!line.check_after(&Position::new(-1, -1)));
    let line = Line::from_dir(Position::new(0, 0), Direction::East);
    assert_eq!(line.end().x, 1);
}

#[test]
fn test_line_intersection() {
    let line1 = Line::new(Position::new(2, -2), Position::new(-2, 2));
    let line2 = Line::new(Position::new(2, 2), Position::new(-2, -2));
    assert_eq!(
        line1.get_intersection(&line2, true),
        Some(Position::new(0, 0))
    );
    let line1 = Line::new(Position::new(5, 0), Position::new(6, 8));
    let line2 = Line::new(Position::new(0, 1), Position::new(-4, -3));
    assert_eq!(line1.get_intersection(&line2, true), None);
    // Parallel lines never intersect.
    let line1 = Line::new(Position::new(0, 0), Position::new(1, 1));
    let line2 = Line::new(Position::new(0, 1), Position::new(1, 2));
    assert_eq!(line1.get_intersection(&line2, false), None);
}

#[test]
fn test_geom() {
    // A unit square, closed by repeating the first vertex.
    let square = vec![
        Position::new(0, 0),
        Position::new(2, 0),
        Position::new(2, 2),
        Position::new(0, 2),
        Position::new(0, 0),
    ];
    assert_eq!(area(&square), 4);
    assert_eq!(perimeter(&square), 8);
}

#[test]
fn test_format_and_parse() {
    assert_eq!(format_usize(0), "0");
    assert_eq!(format_usize(907), "907");
    assert_eq!(format_u128(12345678901234567890), "12345678901234567890");
    assert_eq!(parse_usize("907"), Some(907));
    assert_eq!(parse_usize(""), None);
    assert_eq!(parse_usize("12a"), None);
    assert_eq!(parse_usize("99999999999999999999999999"), None);
}

#[test]
fn test_follows_diff_range() {
    assert_eq!(
        follows_diff_range(&vec![5], 0..4, true, true),
        FollowRangeResult::ListTooShort
    );
    assert_eq!(
        follows_diff_range(&vec![1, 2, 3, 5], 0..4, true, true),
        FollowRangeResult::Increasing
    );
    assert_eq!(
        follows_diff_range(&vec![3, 2, 1], -3..0, true, true),
        FollowRangeResult::Decreasing
    );
    assert_eq!(
        follows_diff_range(&vec![1, 10, 11], 0..4, true, true),
        FollowRangeResult::InvalidPair(1, 10)
    );
    assert_eq!(
        follows_diff_range(&vec![1, 2], 0..4, true, true),
        FollowRangeResult::Fluctuates
    );
    assert_eq!(
        follows_diff_range(&vec![0, 1, 2, 1], -4..4, true, true),
        FollowRangeResult::InvalidPair(2, 1)
    );
}

#[test]
fn test_all_combos_remove_one() {
    let combos = all_combos_remove_one(&vec![1, 2, 3]);
    assert_eq!(combos, vec![vec![2, 3], vec![1, 3], vec![1, 2]]);
    let combos = all_combos_remove_one(&Vec::<i32>::new());
    assert!(combos.is_empty());
}
