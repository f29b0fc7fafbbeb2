//! The grid: construction, parsing, access, iteration, neighbourhoods and
//! cursors, against their documented examples.

use advent::dir::Direction;
use advent::grid::{
    DirectedCursor, DirectedTile, FillableTile, FloodFillCursor, Grid, GridCursor, NumberTile,
};
use advent::pos::Position;

fn digits() -> Grid<usize> {
    Grid::new(vec![vec![1, 2, 3], vec![4, 5, 6], vec![7, 8, 9]])
}

#[test]
fn test_grid_get() {
    let grid = digits();
    assert_eq!(grid.get(Position::new(0, 0)), Some(&1));
    assert_eq!(grid.get(Position::new(1, 1)), Some(&5));
    assert_eq!(grid.get(Position::new(2, 2)), Some(&9));
    assert_eq!(grid.get(Position::new(3, 3)), None);
    assert_eq!(grid.get(Position::new(-1, 0)), None);
    assert_eq!(grid.unsafe_get(Position::new(1, 1)), &5);
}

#[test]
fn test_grid_dimensions() {
    let grid = digits();
    assert_eq!(grid.width(), 3);
    assert_eq!(grid.height(), 3);
    assert_eq!(grid.size(), (3, 3));
    assert_eq!(grid.bounds(), (2, 2));
}

#[test]
fn test_grid_get_wrapped() {
    let grid = digits();
    assert_eq!(grid.get_wrapped(Position::new(0, 0)), &1);
    assert_eq!(grid.get_wrapped(Position::new(3, 3)), &1);
    assert_eq!(grid.get_wrapped(Position::new(-1, -1)), &9);
}

#[test]
fn test_grid_rows_and_cols() {
    let grid = digits();
    assert_eq!(grid.iter_row(0).unwrap(), vec![&1, &2, &3]);
    assert!(grid.iter_row(8).is_none());
    assert_eq!(grid.iter_col(0).unwrap(), vec![&1, &4, &7]);
    assert!(grid.iter_col(8).is_none());
    assert_eq!(grid.get_row(1).unwrap(), vec![&4, &5, &6]);
    assert_eq!(grid.get_col(1).unwrap(), vec![&2, &5, &8]);
    assert_eq!(grid.iter_rows().len(), 3);
    assert_eq!(grid.iter_cols().len(), 3);
}

#[test]
fn test_grid_iter() {
    let grid = digits();
    let all = grid.iter();
    assert_eq!(all.len(), 9);
    assert_eq!(all[0], (Position::new(0, 0), &1));
    assert_eq!(all[4], (Position::new(1, 1), &5));
    let total: usize = all.iter().map(|(_, v)| **v).sum();
    assert_eq!(total, 45);
}

#[test]
fn test_grid_relatives() {
    let grid = digits();
    let kernels = vec![Direction::North, Direction::East];
    let relatives = grid.relatives(Position::new(1, 1), &kernels);
    assert_eq!(
        relatives,
        vec![
            (Direction::North, Position::new(1, 0), &2),
            (Direction::East, Position::new(2, 1), &6)
        ]
    );
    // A kernel that leaves the grid is dropped.
    let relatives = grid.relatives(Position::new(1, 0), &kernels);
    assert_eq!(relatives, vec![(Direction::East, Position::new(2, 0), &3)]);
}

#[test]
fn test_grid_adjacent() {
    let grid = digits();
    let adjacent = grid.adjacent(Position::new(0, 0));
    assert_eq!(
        adjacent,
        vec![
            (Direction::South, Position::new(0, 1), &4),
            (Direction::East, Position::new(1, 0), &2)
        ]
    );
    let wrapped = grid.adjacent_wrapped(Position::new(0, 0));
    assert_eq!(wrapped.len(), 4);
    assert_eq!(wrapped[0], (Direction::North, Position::new(0, -1), &7));
}

#[test]
fn test_grid_expand() {
    let grid = digits();
    let expanded = grid.adjacent_expand_by(Position::new(0, 0), 2);
    assert_eq!(
        expanded,
        vec![
            ((Direction::South, 1), Position::new(0, 1), &4),
            ((Direction::South, 2), Position::new(0, 2), &7),
            ((Direction::East, 1), Position::new(1, 0), &2),
            ((Direction::East, 2), Position::new(2, 0), &3),
        ]
    );
    let wrapped = grid.adjacent_expand_by_wrapped(Position::new(0, 0), 1);
    assert_eq!(wrapped.len(), 4);
}

#[test]
fn test_grid_parse_number_tiles() {
    let grid: Grid<NumberTile> = Grid::parse("12\n34");
    assert_eq!(grid.get(Position::new(0, 0)).unwrap().value, 1);
    assert_eq!(grid.get(Position::new(1, 0)).unwrap().value, 2);
    assert_eq!(grid.get(Position::new(0, 1)).unwrap().value, 3);
    assert_eq!(grid.get(Position::new(1, 1)).unwrap().value, 4);
}

#[test]
fn test_grid_cursor() {
    let grid = digits();
    let mut cursor = GridCursor::zero(&grid);
    assert_eq!(cursor.get(), Some(&1));
    cursor.move_forward();
    assert_eq!(cursor.get(), Some(&2));
    cursor.turn(true);
    assert_eq!(cursor.advance_get(), Some(&5));
    cursor.turn_around();
    cursor.move_forward();
    assert_eq!(cursor.get(), Some(&2));
}

#[derive(Debug, Clone, Copy, PartialEq, Eq)]
enum Arrow {
    Right,
    Down,
    Left,
    Up,
}

impl From<char> for Arrow {
    fn from(c: char) -> Self {
        match c {
            '>' => Arrow::Right,
            'v' => Arrow::Down,
            '<' => Arrow::Left,
            _ => Arrow::Up,
        }
    }
}

impl DirectedTile<Direction> for Arrow {
    fn next_dir(&self, _previous_dir: Direction, _pos: Position) -> Option<Direction> {
        match self {
            Arrow::Right => Some(Direction::East),
            Arrow::Down => Some(Direction::South),
            Arrow::Left => Some(Direction::West),
            Arrow::Up => Some(Direction::North),
        }
    }
}

#[test]
fn test_directed_cursor() {
    let grid: Grid<Arrow> = Grid::new(vec![
        vec![Arrow::Right, Arrow::Right, Arrow::Down],
        vec![Arrow::Up, Arrow::Left, Arrow::Down],
        vec![Arrow::Up, Arrow::Left, Arrow::Left],
    ]);
    let mut cursor = DirectedCursor::new(&grid, Position::new(0, 0), Direction::East);
    let mut path = Vec::new();
    for _ in 0..8 {
        match cursor.next() {
            Some((p, _, _)) => path.push(p),
            None => break,
        }
    }
    assert_eq!(
        path,
        vec![
            Position::new(1, 0),
            Position::new(2, 0),
            Position::new(2, 1),
            Position::new(2, 2),
            Position::new(1, 2),
            Position::new(0, 2),
            Position::new(0, 1),
            Position::new(0, 0),
        ]
    );
}

#[derive(Debug, Clone, Copy, PartialEq, Eq)]
enum Cell {
    Floor,
    Wall,
}

impl FillableTile for Cell {
    fn get_next_tiles(&self, pos: Position, grid: &Grid<Self>) -> Vec<Position> {
        match self {
            Cell::Floor => grid
                .adjacent(pos)
                .into_iter()
                .filter(|(_, _, t)| **t == Cell::Floor)
                .map(|(_, p, _)| p)
                .collect(),
            Cell::Wall => vec![],
        }
    }
}

#[test]
fn test_flood_fill_cursor() {
    let grid: Grid<Cell> = Grid::new(vec![
        vec![Cell::Floor, Cell::Floor, Cell::Floor],
        vec![Cell::Floor, Cell::Wall, Cell::Floor],
        vec![Cell::Floor, Cell::Floor, Cell::Wall],
    ]);
    let mut cursor = FloodFillCursor::new(&grid, Position::new(0, 0), false);
    let mut filled = Vec::new();
    while let Some(pos) = cursor.next() {
        filled.push(pos);
    }
    assert_eq!(filled.len(), 7);
    assert_eq!(filled[0], Position::new(0, 0));
    assert!(filled.contains(&Position::new(2, 1)));
    assert!(!filled.contains(&Position::new(1, 1)));
    assert!(!filled.contains(&Position::new(2, 2)));
}
