//! The fixed maze that the travel mini-game drives through.

use vstd::prelude::*;

verus! {

/// Width of the maze, in cells.
pub const MAP_X: usize = 15;

/// Height of the maze, in cells.
pub const MAP_Y: usize = 10;

/// A compass heading on the maze.
#[derive(Clone, Copy, Debug, PartialEq, Eq, Structural)]
pub enum Direction {
    North,
    East,
    South,
    West,
}

impl Direction {
    pub open spec fn clockwise(self) -> Direction {
        match self {
            Direction::North => Direction::East,
            Direction::East => Direction::South,
            Direction::South => Direction::West,
            Direction::West => Direction::North,
        }
    }

    pub open spec fn counter_clockwise(self) -> Direction {
        match self {
            Direction::North => Direction::West,
            Direction::East => Direction::North,
            Direction::South => Direction::East,
            Direction::West => Direction::South,
        }
    }

    /// The lower-case English name of the heading.
    pub open spec fn name(self) -> Seq<char> {
        match self {
            Direction::North => seq!['n', 'o', 'r', 't', 'h'],
            Direction::East => seq!['e', 'a', 's', 't'],
            Direction::South => seq!['s', 'o', 'u', 't', 'h'],
            Direction::West => seq!['w', 'e', 's', 't'],
        }
    }

    pub fn turn_clockwise(&self) -> (r: Direction)
        ensures
            r == self.clockwise(),
    {
        match self {
            Direction::North => Direction::East,
            Direction::East => Direction::South,
            Direction::South => Direction::West,
            Direction::West => Direction::North,
        }
    }

    pub fn turn_counter_clockwise(&self) -> (r: Direction)
        ensures
            r == self.counter_clockwise(),
    {
        match self {
            Direction::North => Direction::West,
            Direction::East => Direction::North,
            Direction::South => Direction::East,
            Direction::West => Direction::South,
        }
    }

    pub fn as_str(&self) -> (r: &'static str)
        ensures
            r@ == self.name(),
    {
        match self {
            Direction::North => {
                proof {
                    reveal_strlit("north");
                }
                "north"
            },
            Direction::East => {
                proof {
                    reveal_strlit("east");
                }
                "east"
            },
            Direction::South => {
                proof {
                    reveal_strlit("south");
                }
                "south"
            },
            Direction::West => {
                proof {
                    reveal_strlit("west");
                }
                "west"
            },
        }
    }
}

/// The cell one step from `(x, y)` towards `d`; north is towards row 0.
pub open spec fn step(x: int, y: int, d: Direction) -> (int, int) {
    match d {
        Direction::North => (x, y - 1),
        Direction::East => (x + 1, y),
        Direction::South => (x, y + 1),
        Direction::West => (x - 1, y),
    }
}

/// The open cells of the maze, row by row: bit `x` of `MAZE_ROWS[y]` is set
/// when cell `(x, y)` is open.
pub const MAZE_ROWS: [u16; MAP_Y] = [
    0x1fff, 0x1251, 0x1ff5, 0x0827, 0x7fe0, 0x523e, 0x5a22, 0x422e, 0x43e2, 0x7e3e,
];

/// The maze of the game, a grid of `MAP_X` by `MAP_Y` cells each open or
/// closed. Its layout is `MAZE_ROWS`, fixed for the life of the program.
#[derive(Clone, Copy, Debug)]
pub struct Maze;

/// The one maze that every travel state drives through.
pub const MAZE: Maze = Maze;

impl Maze {
    /// Whether `(x, y)` lies on the grid and is open; every cell off the grid
    /// counts as closed.
    pub open spec fn is_open(&self, x: int, y: int) -> bool {
        &&& 0 <= x < MAP_X as int
        &&& 0 <= y < MAP_Y as int
        &&& (MAZE_ROWS[y] >> (x as u16)) & 1u16 == 1u16
    }

    /// Whether the neighbour of `(x, y)` towards `d` is open.
    pub open spec fn open_toward(&self, x: int, y: int, d: Direction) -> bool {
        self.is_open(step(x, y, d).0, step(x, y, d).1)
    }

    /// What a lookup of the neighbour of `(x, y)` towards `d` gives: that
    /// cell when it is open, else nothing.
    pub open spec fn neighbour(&self, x: int, y: int, d: Direction) -> Option<(usize, usize)> {
        if self.open_toward(x, y, d) {
            Some((step(x, y, d).0 as usize, step(x, y, d).1 as usize))
        } else {
            None
        }
    }

    pub fn get(&self, x: usize, y: usize) -> (r: bool)
        ensures
            r == self.is_open(x as int, y as int),
    {
        if x >= MAP_X || y >= MAP_Y {
            return false;
        }
        let row = MAZE_ROWS[y];
        (row >> (x as u16)) & 1 == 1
    }

    pub fn above(&self, x: usize, y: usize) -> (r: Option<(usize, usize)>)
        ensures
            r == self.neighbour(x as int, y as int, Direction::North),
    {
        if y == 0 {
            return None;
        }
        if self.get(x, y - 1) {
            Some((x, y - 1))
        } else {
            None
        }
    }

    pub fn below(&self, x: usize, y: usize) -> (r: Option<(usize, usize)>)
        ensures
            r == self.neighbour(x as int, y as int, Direction::South),
    {
        if y >= MAP_Y {
            return None;
        }
        if self.get(x, y + 1) {
            Some((x, y + 1))
        } else {
            None
        }
    }

    pub fn left(&self, x: usize, y: usize) -> (r: Option<(usize, usize)>)
        ensures
            r == self.neighbour(x as int, y as int, Direction::West),
    {
        if x == 0 {
            return None;
        }
        if self.get(x - 1, y) {
            Some((x - 1, y))
        } else {
            None
        }
    }

    pub fn right(&self, x: usize, y: usize) -> (r: Option<(usize, usize)>)
        ensures
            r == self.neighbour(x as int, y as int, Direction::East),
    {
        if x >= MAP_X {
            return None;
        }
        if self.get(x + 1, y) {
            Some((x + 1, y))
        } else {
            None
        }
    }

    pub fn direction(&self, x: usize, y: usize, direction: Direction) -> (r: Option<(usize, usize)>)
        ensures
            r == self.neighbour(x as int, y as int, direction),
    {
        match direction {
            Direction::North => self.above(x, y),
            Direction::East => self.right(x, y),
            Direction::South => self.below(x, y),
            Direction::West => self.left(x, y),
        }
    }
}

/// A set cell of row `r` has a set cell beside it in `r`, or the same bit
/// set in the row above (`a`) or below (`b`), whenever no set bit of `r`
/// lacks all four.
proof fn lemma_row_cell_has_neighbour(r: u16, a: u16, b: u16, x: u16)
    requires
        x < 15,
        r < 0x8000,
        r & !((r << 1u16) | (r >> 1u16) | a | b) == 0,
        (r >> x) & 1u16 == 1u16,
    ensures
        (x > 0 && (r >> ((x - 1) as u16)) & 1u16 == 1u16) || (x < 14 && (r >> ((x + 1)
            as u16)) & 1u16 == 1u16) || (a >> x) & 1u16 == 1u16 || (b >> x) & 1u16 == 1u16,
{
    assert((x > 0 && (r >> ((x - 1) as u16)) & 1u16 == 1u16) || (x < 14 && (r >> ((x + 1)
        as u16)) & 1u16 == 1u16) || (a >> x) & 1u16 == 1u16 || (b >> x) & 1u16 == 1u16)
        by (bit_vector)
        requires
            x < 15,
            r < 0x8000,
            r & !((r << 1u16) | (r >> 1u16) | a | b) == 0,
            (r >> x) & 1u16 == 1u16,
    ;
}

/// Every open cell of the maze has an open neighbour above, below, to the
/// left or to the right, so that a driver standing on it can always turn
/// towards a cell it may enter.
pub proof fn lemma_open_cell_has_open_neighbour(x: int, y: int)
    requires
        MAZE.is_open(x, y),
    ensures
        MAZE.open_toward(x, y, Direction::North) || MAZE.open_toward(x, y, Direction::South)
            || MAZE.open_toward(x, y, Direction::West) || MAZE.open_toward(x, y, Direction::East),
{
    let rows = MAZE_ROWS;
    assert(rows[0] == 0x1fffu16 && rows[1] == 0x1251u16 && rows[2] == 0x1ff5u16 && rows[3]
        == 0x0827u16 && rows[4] == 0x7fe0u16 && rows[5] == 0x523eu16 && rows[6] == 0x5a22u16
        && rows[7] == 0x422eu16 && rows[8] == 0x43e2u16 && rows[9] == 0x7e3eu16);
    assert(0x1fffu16 & !((0x1fffu16 << 1u16) | (0x1fffu16 >> 1u16) | 0u16 | 0x1251u16) == 0
        && 0x1251u16 & !((0x1251u16 << 1u16) | (0x1251u16 >> 1u16) | 0x1fffu16 | 0x1ff5u16) == 0
        && 0x1ff5u16 & !((0x1ff5u16 << 1u16) | (0x1ff5u16 >> 1u16) | 0x1251u16 | 0x0827u16) == 0
        && 0x0827u16 & !((0x0827u16 << 1u16) | (0x0827u16 >> 1u16) | 0x1ff5u16 | 0x7fe0u16) == 0
        && 0x7fe0u16 & !((0x7fe0u16 << 1u16) | (0x7fe0u16 >> 1u16) | 0x0827u16 | 0x523eu16) == 0
        && 0x523eu16 & !((0x523eu16 << 1u16) | (0x523eu16 >> 1u16) | 0x7fe0u16 | 0x5a22u16) == 0
        && 0x5a22u16 & !((0x5a22u16 << 1u16) | (0x5a22u16 >> 1u16) | 0x523eu16 | 0x422eu16) == 0
        && 0x422eu16 & !((0x422eu16 << 1u16) | (0x422eu16 >> 1u16) | 0x5a22u16 | 0x43e2u16) == 0
        && 0x43e2u16 & !((0x43e2u16 << 1u16) | (0x43e2u16 >> 1u16) | 0x422eu16 | 0x7e3eu16) == 0
        && 0x7e3eu16 & !((0x7e3eu16 << 1u16) | (0x7e3eu16 >> 1u16) | 0x43e2u16 | 0u16) == 0)
        by (bit_vector);
    let col = x as u16;
    assert((0u16 >> col) & 1u16 == 0u16) by (bit_vector);
    let above: u16 = if y == 0 { 0 } else { rows[y - 1] };
    let below: u16 = if y == 9 { 0 } else { rows[y + 1] };
    lemma_row_cell_has_neighbour(rows[y], above, below, col);
}

} // verus!
