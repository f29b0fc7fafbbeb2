//! The Day contract's self-verification behaviour, exercised through two
//! small in-test day implementations.

use advent::day::Day;

struct TestDay;

impl Day for TestDay {
    type Input = String;

    fn example_input_1() -> &'static str {
        "Hello, world!"
    }

    fn example_input_2() -> &'static str {
        "Hello, world!"
    }

    fn expected_1() -> &'static str {
        "Goodbye, world!"
    }

    fn expected_2() -> &'static str {
        "Hello, moon!"
    }

    fn parse_input(input: &str) -> String {
        input.to_string()
    }

    fn part_1(input: String) -> Option<String> {
        Some(input.replace("Hello", "Goodbye"))
    }

    fn part_2(input: String) -> Option<String> {
        Some(input.replace("world", "moon"))
    }
}

struct TestDay2;

impl Day for TestDay2 {
    type Input = Vec<String>;

    fn example_input_1() -> &'static str {
        "A\nB\nC"
    }

    fn expected_1() -> &'static str {
        "A,B,C"
    }

    fn parse_input(input: &str) -> Vec<String> {
        input.lines().map(|l| l.to_string()).collect::<Vec<_>>()
    }

    fn part_1(input: Vec<String>) -> Option<String> {
        Some(input.join(",").to_string())
    }
}

#[test]
fn test_day_1() {
    assert!(TestDay::assert_part_1());
    assert!(TestDay::assert_part_2());
}

#[test]
fn test_day_2() {
    assert!(TestDay2::assert_part_1());
    // Should skip
    assert!(TestDay2::assert_part_2());
}

#[test]
fn test_day_get_example_input() {
    assert_eq!(TestDay::get_example_input(1), "Hello, world!");
    assert_eq!(TestDay2::get_example_input(2), "");
}

#[test]
fn test_day_run_part_with_input() {
    assert_eq!(
        TestDay::run_part(1, Some("Hello!")),
        Some("Goodbye!".to_string())
    );
}

#[test]
fn test_day_unimplemented_part_reports_none() {
    assert_eq!(TestDay2::run_part(2, None), None);
}
