//! The travel mini-game: a player drives through the maze towards a goal,
//! steered by the lane it rides in.

use crate::game::Screen;
use crate::gfx::{
    centered, centered_at, decimal, decimal_string, filled, lemma_ascii_bytes, lemma_decimal_u32,
    small_text, text_align_right, Canvas, Color, Font, Shape, ShapeView, CHAR_WIDTH, DISPLAY_HEIGHT,
    DISPLAY_WIDTH,
};
use crate::map::{lemma_open_cell_has_open_neighbour, step, Direction, MAP_X, MAP_Y, MAZE};
use crate::random::next_u32;
use rand::rngs::SmallRng;
use vstd::prelude::*;

verus! {

/// Ticks that make up one logical step through the maze.
pub const TICKS_PER_TRAVEL_SQUARE: u8 = 7;

/// Number of lanes the player can ride in.
pub const NUM_LANES: u8 = 3;

/// Length of a dash of the road's middle strip, in pixels.
pub const MIDDLE_STRIP_LENGTH: u8 = 5;

/// Gap between two dashes of the middle strip, in pixels.
pub const MIDDLE_STRIP_GAP: u8 = 10;

/// How far the middle strip scrolls each tick, in pixels.
pub const MIDDLE_STRIP_STEP_SIZE: u8 = 3;

/// Height of a lane on the big screen, in pixels.
pub const LANE_HEIGHT: i32 = 18;

/// Top of the first lane on the big screen.
pub const FIRST_LANE_TOP_OFFSET: i32 = DISPLAY_HEIGHT - (LANE_HEIGHT + 1) * 3;

/// Top of the second lane on the big screen.
pub const SECOND_LANE_TOP_OFFSET: i32 = FIRST_LANE_TOP_OFFSET + (LANE_HEIGHT + 1);

/// Top of the third lane on the big screen.
pub const THIRD_LANE_TOP_OFFSET: i32 = SECOND_LANE_TOP_OFFSET + (LANE_HEIGHT + 1);

/// Left edge of the bike on the big screen.
pub const BIKE_LEFT_OFFSET: i32 = 13;

/// How far below the top of its lane the bike rides.
pub const BIKE_Y_OFFSET: i32 = 3;

/// Size of a maze cell on the small screen, in pixels.
pub const CELL_SIZE: u32 = 5;

/// Length of the line from a cell's centre towards an open neighbour.
pub const SUB_CELL_SIZE: u32 = 2;

/// Score earned by reaching a goal.
pub const GOAL_REWARD: u32 = 100;

/// How many draws a random placement makes before it settles for a fixed
/// cell. With more than half of the maze open, running out is a chance of
/// less than one in 2^64.
pub const MAX_POSITION_DRAWS: u32 = 64;

/// Whether the cell at `p` is open.
pub open spec fn open_at(p: (usize, usize)) -> bool {
    MAZE.is_open(p.0 as int, p.1 as int)
}

/// The cell that a random draw `num` points at: the draw taken modulo the
/// number of cells, read row by row.
pub open spec fn drawn_cell(num: u32) -> (usize, usize) {
    let i = num as int % (MAP_X * MAP_Y) as int;
    ((i % MAP_X as int) as usize, (i / MAP_X as int) as usize)
}

/// The cell that a random draw `num` selects: the cell it points at when
/// that one is open, else nothing (the draw is rejected).
pub fn position_from_draw(num: u32) -> (r: Option<(usize, usize)>)
    ensures
        r == (if open_at(drawn_cell(num)) {
            Some(drawn_cell(num))
        } else {
            None
        }),
{
    let idx = num as usize % (MAP_X * MAP_Y);
    let y = idx / MAP_X;
    let x = idx - y * MAP_X;
    if MAZE.get(x, y) {
        Some((x, y))
    } else {
        None
    }
}

/// A fixed open cell other than `avoid`.
fn open_cell_other_than(avoid: (usize, usize)) -> (r: (usize, usize))
    ensures
        open_at(r),
        r != avoid,
{
    assert((0x1fffu16 >> 0u16) & 1u16 == 1u16 && (0x1fffu16 >> 1u16) & 1u16 == 1u16)
        by (bit_vector);
    if avoid.0 == 0 && avoid.1 == 0 {
        (1, 0)
    } else {
        (0, 0)
    }
}

/// Picks an open cell by rejection sampling: draws cells uniformly over the
/// whole grid and rejects closed ones. After `MAX_POSITION_DRAWS` rejected
/// draws it settles for cell `(0, 0)`.
pub fn random_valid_position(random: &mut SmallRng) -> (r: (usize, usize))
    ensures
        open_at(r),
{
    let mut draws: u32 = 0;
    while draws < MAX_POSITION_DRAWS
        invariant
            draws <= MAX_POSITION_DRAWS,
        decreases MAX_POSITION_DRAWS - draws,
    {
        let num = next_u32(random);
        if let Some(p) = position_from_draw(num) {
            return p;
        }
        draws += 1;
    }
    open_cell_other_than((1, 0))
}

/// Picks an open cell other than `avoid`, drawing again while the draw
/// lands on `avoid`. After `MAX_POSITION_DRAWS` such draws it settles for a
/// fixed open cell other than `avoid`.
fn random_position_except(random: &mut SmallRng, avoid: (usize, usize)) -> (r: (usize, usize))
    ensures
        open_at(r),
        r != avoid,
{
    let mut draws: u32 = 0;
    while draws < MAX_POSITION_DRAWS
        invariant
            draws <= MAX_POSITION_DRAWS,
        decreases MAX_POSITION_DRAWS - draws,
    {
        let p = random_valid_position(random);
        if p.0 != avoid.0 || p.1 != avoid.1 {
            return p;
        }
        draws += 1;
    }
    open_cell_other_than(avoid)
}

/// The heading that the lane proposes: the left lane turns counter-clockwise,
/// the right lane clockwise, the middle lane keeps the heading.
pub open spec fn lane_bias(lane: u8, d: Direction) -> Direction {
    if lane == 0 {
        d.counter_clockwise()
    } else if lane == 2 {
        d.clockwise()
    } else {
        d
    }
}

/// The heading after a turn from `d` to `candidate` is tried at `p`: the
/// turn is taken only when it faces an open cell.
pub open spec fn turned(p: (usize, usize), d: Direction, candidate: Direction) -> Direction {
    if MAZE.open_toward(p.0 as int, p.1 as int, candidate) {
        candidate
    } else {
        d
    }
}

/// The neighbour of `p` towards `d`.
pub open spec fn ahead(p: (usize, usize), d: Direction) -> (usize, usize) {
    let s = step(p.0 as int, p.1 as int, d);
    (s.0 as usize, s.1 as usize)
}

/// Where one drive from `p` facing `d` leaves the player, and its heading:
/// forward when the cell ahead is open, else a clockwise turn, else a
/// counter-clockwise turn, else a reversal.
pub open spec fn drive_result(p: (usize, usize), d: Direction) -> ((usize, usize), Direction) {
    let (x, y) = (p.0 as int, p.1 as int);
    if MAZE.open_toward(x, y, d) {
        (ahead(p, d), d)
    } else if MAZE.open_toward(x, y, d.clockwise()) {
        (p, d.clockwise())
    } else if MAZE.open_toward(x, y, d.counter_clockwise()) {
        (p, d.counter_clockwise())
    } else {
        (p, d.clockwise().clockwise())
    }
}

/// State of the travel mini-game.
#[derive(Clone, Copy, Debug, PartialEq, Eq)]
pub struct TravelState {
    /// Score of the whole game so far.
    pub score: u32,
    /// The cell to reach.
    pub goal: (usize, usize),
    /// The cell the player stands on.
    pub player: (usize, usize),
    /// The heading of the player.
    pub direction: Direction,
    /// Ticks left until the next logical step.
    pub next_square: u8,
    /// The lane the player rides in, 0 to `NUM_LANES - 1`.
    pub active_lane: u8,
    /// Scroll offset of the road's middle strip, for the animation.
    pub middle_strip: u8,
    /// A screen change that this mini-game asks for.
    pub transition: Option<Screen>,
}

impl TravelState {
    /// The state's invariant: player and goal stand on distinct open cells,
    /// and the counters stay in their ranges.
    pub open spec fn wf(&self) -> bool {
        &&& open_at(self.player)
        &&& open_at(self.goal)
        &&& self.goal != self.player
        &&& self.next_square <= TICKS_PER_TRAVEL_SQUARE
        &&& self.active_lane < NUM_LANES
        &&& self.middle_strip < MIDDLE_STRIP_LENGTH + MIDDLE_STRIP_GAP
    }

    /// Whether the coming tick makes a logical step.
    pub open spec fn step_due(&self) -> bool {
        self.next_square <= 1
    }

    /// Whether `next` is this state after one tick: the middle strip
    /// scrolls; when a step is due the counter restarts, the lane's turn is
    /// tried and the player drives; reaching the goal adds `GOAL_REWARD` to
    /// the score and asks for the lock mini-game. When no step is due only
    /// the counter runs down. The new goal is not fixed here: `wf` keeps it
    /// open and off the player.
    pub open spec fn ticks_to(self, next: TravelState) -> bool {
        let strip = ((self.middle_strip + MIDDLE_STRIP_STEP_SIZE) % (MIDDLE_STRIP_LENGTH
            + MIDDLE_STRIP_GAP) as int) as u8;
        if self.step_due() {
            let heading = turned(
                self.player,
                self.direction,
                lane_bias(self.active_lane, self.direction),
            );
            let (player, direction) = drive_result(self.player, heading);
            if player == self.goal {
                next == TravelState {
                    score: self.score.saturating_add(GOAL_REWARD),
                    goal: next.goal,
                    player,
                    direction,
                    next_square: TICKS_PER_TRAVEL_SQUARE,
                    middle_strip: strip,
                    transition: Some(Screen::Lock),
                    ..self
                }
            } else {
                next == TravelState {
                    player,
                    direction,
                    next_square: TICKS_PER_TRAVEL_SQUARE,
                    middle_strip: strip,
                    ..self
                }
            }
        } else {
            next == TravelState {
                next_square: (self.next_square - 1) as u8,
                middle_strip: strip,
                ..self
            }
        }
    }

    /// A fresh travel state: score 0, heading north in the middle lane,
    /// player and goal on random distinct open cells.
    pub fn new(random: &mut SmallRng) -> (r: TravelState)
        ensures
            r.wf(),
            r.fresh(),
    {
        let mut state = TravelState {
            score: 0,
            goal: (0, 0),
            player: (0, 0),
            direction: Direction::North,
            next_square: TICKS_PER_TRAVEL_SQUARE,
            active_lane: 1,
            middle_strip: 0,
            transition: None,
        };
        state.set_random_player(random);
        state.set_random_goal(random);
        state
    }

    /// Places the player on a random open cell.
    pub fn set_random_player(&mut self, random: &mut SmallRng)
        ensures
            open_at(final(self).player),
            *final(self) == (TravelState { player: final(self).player, ..*old(self) }),
    {
        self.player = random_valid_position(random);
    }

    /// Places the goal on a random open cell other than the player's.
    pub fn set_random_goal(&mut self, random: &mut SmallRng)
        ensures
            open_at(final(self).goal),
            final(self).goal != old(self).player,
            *final(self) == (TravelState { goal: final(self).goal, ..*old(self) }),
    {
        self.goal = random_position_except(random, self.player);
    }

    /// Turns towards `new_direction` when that faces an open cell.
    pub fn try_turn(&mut self, new_direction: Direction)
        ensures
            *final(self) == (TravelState {
                direction: turned(old(self).player, old(self).direction, new_direction),
                ..*old(self)
            }),
    {
        let (x, y) = self.player;
        if MAZE.direction(x, y, new_direction).is_some() {
            self.direction = new_direction;
        }
    }

    /// One logical action: moves one cell ahead when that cell is open, else
    /// turns clockwise, else counter-clockwise, else around, whichever first
    /// faces an open cell. It moves or turns, never both, and the player
    /// ends up on an open cell or facing one.
    pub fn drive(&mut self)
        requires
            open_at(old(self).player),
        ensures
            (final(self).player, final(self).direction) == drive_result(
                old(self).player,
                old(self).direction,
            ),
            *final(self) == (TravelState {
                player: final(self).player,
                direction: final(self).direction,
                ..*old(self)
            }),
            ({
                let moved = final(self).player != old(self).player && final(self).direction
                    == old(self).direction && final(self).player == ahead(
                    old(self).player,
                    old(self).direction,
                ) && open_at(final(self).player);
                let turned = final(self).player == old(self).player && final(self).direction
                    != old(self).direction && MAZE.open_toward(
                    old(self).player.0 as int,
                    old(self).player.1 as int,
                    final(self).direction,
                );
                moved != turned
            }),
    {
        let (x, y) = self.player;
        if let Some(pos) = MAZE.direction(x, y, self.direction) {
            self.player = pos;
            return;
        }
        let clockwise = self.direction.turn_clockwise();
        if MAZE.direction(x, y, clockwise).is_some() {
            self.direction = clockwise;
            return;
        }
        let counter_clockwise = self.direction.turn_counter_clockwise();
        if MAZE.direction(x, y, counter_clockwise).is_some() {
            self.direction = counter_clockwise;
            return;
        }
        proof {
            lemma_open_cell_has_open_neighbour(x as int, y as int);
        }
        self.direction = clockwise.turn_clockwise();
    }

    /// The state one lane up, stopping at the first lane.
    pub open spec fn lane_up(self) -> TravelState {
        TravelState { active_lane: self.active_lane.saturating_sub(1), ..self }
    }

    /// The state one lane down, stopping at the last lane.
    pub open spec fn lane_down(self) -> TravelState {
        TravelState {
            active_lane: if self.active_lane + 1 < NUM_LANES {
                (self.active_lane + 1) as u8
            } else {
                (NUM_LANES - 1) as u8
            },
            ..self
        }
    }

    /// Whether this is how a travel state starts: score 0, heading north
    /// in the middle lane, a full step ahead, nothing asked for.
    pub open spec fn fresh(&self) -> bool {
        &&& self.score == 0
        &&& self.direction == Direction::North
        &&& self.next_square == TICKS_PER_TRAVEL_SQUARE
        &&& self.active_lane == 1
        &&& self.middle_strip == 0
        &&& self.transition is None
    }

    /// Moves one lane up, stopping at the first lane.
    pub fn button_up(&mut self)
        ensures
            *final(self) == old(self).lane_up(),
    {
        self.active_lane = self.active_lane.saturating_sub(1);
    }

    /// Moves one lane down, stopping at the last lane.
    pub fn button_down(&mut self)
        requires
            old(self).active_lane < NUM_LANES,
        ensures
            *final(self) == old(self).lane_down(),
    {
        let lane = self.active_lane + 1;
        self.active_lane = if lane < NUM_LANES {
            lane
        } else {
            NUM_LANES - 1
        };
    }

    /// Advances the animation, and every `TICKS_PER_TRAVEL_SQUARE` ticks makes
    /// one logical step: tries the lane's turn, drives, and when the player
    /// reaches the goal adds `GOAL_REWARD` to the score, places a new goal and
    /// asks for the lock mini-game.
    pub fn tick(&mut self, random: &mut SmallRng)
        requires
            old(self).wf(),
        ensures
            final(self).wf(),
            old(self).ticks_to(*final(self)),
    {
        self.middle_strip = (self.middle_strip + MIDDLE_STRIP_STEP_SIZE) % (MIDDLE_STRIP_LENGTH
            + MIDDLE_STRIP_GAP);
        self.next_square = self.next_square.saturating_sub(1);
        if self.next_square == 0 {
            self.next_square = TICKS_PER_TRAVEL_SQUARE;
            let candidate = if self.active_lane == 0 {
                self.direction.turn_counter_clockwise()
            } else if self.active_lane == 2 {
                self.direction.turn_clockwise()
            } else {
                self.direction
            };
            self.try_turn(candidate);
            self.drive();
            if self.player.0 == self.goal.0 && self.player.1 == self.goal.1 {
                self.score = self.score.saturating_add(GOAL_REWARD);
                self.set_random_goal(random);
                self.transition = Some(Screen::Lock);
            }
        }
    }
}

/// Which way a line from a cell's centre runs.
pub enum LineOrientation {
    Horizontal,
    Vertical,
}

/// The dashes of a lane's middle strip at height `y`, one every
/// `MIDDLE_STRIP_LENGTH + MIDDLE_STRIP_GAP` pixels from `x` up to the right
/// edge.
pub open spec fn dashes(x: int, y: int) -> Seq<ShapeView>
    decreases DISPLAY_WIDTH + MIDDLE_STRIP_LENGTH + MIDDLE_STRIP_GAP - x,
{
    if x >= DISPLAY_WIDTH {
        seq![]
    } else {
        seq![filled(x, y, MIDDLE_STRIP_LENGTH as u32, 1, Color::On)] + dashes(
            x + MIDDLE_STRIP_LENGTH + MIDDLE_STRIP_GAP,
            y,
        )
    }
}

/// Top of lane `lane` on the big screen.
pub open spec fn lane_top(lane: u8) -> int {
    if lane == 0 {
        FIRST_LANE_TOP_OFFSET as int
    } else if lane == 1 {
        SECOND_LANE_TOP_OFFSET as int
    } else {
        THIRD_LANE_TOP_OFFSET as int
    }
}

/// Left edge of the maze on the small screen.
pub open spec fn maze_left() -> int {
    centered_at(DISPLAY_WIDTH as int, CELL_SIZE * MAP_X)
}

/// Top of the maze on the small screen.
pub open spec fn maze_top() -> int {
    centered_at(DISPLAY_HEIGHT as int, CELL_SIZE * MAP_Y)
}

/// A short lit line in a cell whose corner is `(cx, cy)`.
pub open spec fn cell_line(
    cx: int,
    cy: int,
    pos_x: int,
    pos_y: int,
    orientation: LineOrientation,
) -> ShapeView {
    match orientation {
        LineOrientation::Horizontal => filled(cx + pos_x, cy + pos_y, SUB_CELL_SIZE, 1, Color::On),
        LineOrientation::Vertical => filled(cx + pos_x, cy + pos_y, 1, SUB_CELL_SIZE, Color::On),
    }
}

/// `shape` when `b` holds, else nothing.
pub open spec fn when(b: bool, shape: ShapeView) -> Seq<ShapeView> {
    if b {
        seq![shape]
    } else {
        seq![]
    }
}

impl TravelState {
    /// A lane's upper edge at height `y`: a full line, or the middle strip
    /// scrolled by the animation.
    pub open spec fn lane_shapes(self, y: int, full: bool) -> Seq<ShapeView> {
        if full {
            seq![filled(0, y, DISPLAY_WIDTH as u32, 1, Color::On)]
        } else {
            dashes(-self.middle_strip, y)
        }
    }

    /// The big screen's picture: the three lanes, the bike in the active
    /// lane, the score at the top right and the heading at the top left.
    pub open spec fn big_screen(self) -> Seq<ShapeView> {
        let digits = decimal(self.score as nat);
        self.lane_shapes(FIRST_LANE_TOP_OFFSET as int, true) + self.lane_shapes(
            SECOND_LANE_TOP_OFFSET as int,
            false,
        ) + self.lane_shapes(THIRD_LANE_TOP_OFFSET as int, false) + seq![
            Shape::Bike {
                x: BIKE_LEFT_OFFSET,
                y: (lane_top(self.active_lane) + BIKE_Y_OFFSET) as i32,
            },
            small_text(DISPLAY_WIDTH - digits.len() * CHAR_WIDTH, 0, digits),
            small_text(0, 0, self.direction.name()),
        ]
    }

    /// What the small screen shows of cell `(x, y)`: nothing for a closed
    /// cell; a lit square for the player's or the goal's cell, the goal's
    /// with a dark centre; else a lit centre with a line towards each open
    /// neighbour.
    pub open spec fn cell_shapes(self, x: int, y: int) -> Seq<ShapeView> {
        let cx = maze_left() + x * CELL_SIZE;
        let cy = maze_top() + y * CELL_SIZE;
        let p = (x as usize, y as usize);
        let s = SUB_CELL_SIZE as int;
        if !MAZE.is_open(x, y) {
            seq![]
        } else if p == self.goal || p == self.player {
            seq![filled(cx + 1, cy + 1, 3, 3, Color::On)] + when(
                p == self.goal,
                filled(cx + s, cy + s, 1, 1, Color::Off),
            )
        } else {
            when(MAZE.is_open(x, y - 1), cell_line(cx, cy, s, 0, LineOrientation::Vertical))
                + when(
                MAZE.is_open(x, y + 1),
                cell_line(cx, cy, s, s + 1, LineOrientation::Vertical),
            ) + when(MAZE.is_open(x - 1, y), cell_line(cx, cy, 0, s, LineOrientation::Horizontal))
                + when(
                MAZE.is_open(x + 1, y),
                cell_line(cx, cy, s + 1, s, LineOrientation::Horizontal),
            ) + seq![filled(cx + s, cy + s, 1, 1, Color::On)]
        }
    }

    /// The first `n` cells of row `y`, left to right.
    pub open spec fn row_shapes(self, y: int, n: int) -> Seq<ShapeView>
        decreases n,
    {
        if n <= 0 {
            seq![]
        } else {
            self.row_shapes(y, n - 1) + self.cell_shapes(n - 1, y)
        }
    }

    /// The first `n` rows of the maze, top to bottom.
    pub open spec fn rows_shapes(self, n: int) -> Seq<ShapeView>
        decreases n,
    {
        if n <= 0 {
            seq![]
        } else {
            self.rows_shapes(n - 1) + self.row_shapes(n - 1, MAP_X as int)
        }
    }

    /// Draws a lane's upper edge at height `y`.
    pub fn draw_lane(&self, display: &mut Canvas, y: i32, full: bool)
        ensures
            final(display)@ == old(display)@ + self.lane_shapes(y as int, full),
    {
        if full {
            display.fill(0, y, DISPLAY_WIDTH as u32, 1, Color::On);
            assert(display@ =~= old(display)@ + self.lane_shapes(y as int, full));
        } else {
            let mut x: i32 = -(self.middle_strip as i32);
            while x < DISPLAY_WIDTH
                invariant
                    x <= DISPLAY_WIDTH + MIDDLE_STRIP_LENGTH + MIDDLE_STRIP_GAP,
                    display@ + dashes(x as int, y as int) == old(display)@ + dashes(
                        -self.middle_strip,
                        y as int,
                    ),
                decreases DISPLAY_WIDTH + MIDDLE_STRIP_LENGTH + MIDDLE_STRIP_GAP - x,
            {
                let ghost before = display@;
                display.fill(x, y, MIDDLE_STRIP_LENGTH as u32, 1, Color::On);
                x += MIDDLE_STRIP_LENGTH as i32;
                x += MIDDLE_STRIP_GAP as i32;
                assert(display@ + dashes(x as int, y as int) =~= before + dashes(
                    x - MIDDLE_STRIP_LENGTH - MIDDLE_STRIP_GAP,
                    y as int,
                ));
            }
            assert(display@ =~= display@ + dashes(x as int, y as int));
        }
    }

    /// Draws the lanes, the bike, the score and the heading.
    pub fn draw_big_screen(&self, display: &mut Canvas)
        ensures
            final(display)@ == old(display)@ + self.big_screen(),
    {
        self.draw_lane(display, FIRST_LANE_TOP_OFFSET, true);
        self.draw_lane(display, SECOND_LANE_TOP_OFFSET, false);
        self.draw_lane(display, THIRD_LANE_TOP_OFFSET, false);
        let lane_top = if self.active_lane == 0 {
            FIRST_LANE_TOP_OFFSET
        } else if self.active_lane == 1 {
            SECOND_LANE_TOP_OFFSET
        } else {
            THIRD_LANE_TOP_OFFSET
        };
        display.push(Shape::Bike { x: BIKE_LEFT_OFFSET, y: lane_top + BIKE_Y_OFFSET });
        let digits = decimal_string(self.score);
        let digits_str = digits.as_str();
        proof {
            lemma_decimal_u32(self.score);
            lemma_ascii_bytes(digits_str);
        }
        let x = text_align_right(digits_str, DISPLAY_WIDTH as u8);
        display.push(Shape::Text { x, y: 0, text: digits, font: Font::Small });
        let heading = self.direction.as_str().to_string();
        display.push(Shape::Text { x: 0, y: 0, text: heading, font: Font::Small });
        assert(display@ =~= old(display)@ + self.big_screen());
    }

    /// Draws a short line in the cell whose corner is `(cell_x, cell_y)`.
    fn draw_cell_line(
        display: &mut Canvas,
        cell_x: i32,
        cell_y: i32,
        pos_x: i32,
        pos_y: i32,
        orientation: LineOrientation,
    )
        requires
            i32::MIN <= cell_x + pos_x <= i32::MAX,
            i32::MIN <= cell_y + pos_y <= i32::MAX,
        ensures
            final(display)@ == old(display)@.push(
                cell_line(cell_x as int, cell_y as int, pos_x as int, pos_y as int, orientation),
            ),
    {
        let (width, height) = match orientation {
            LineOrientation::Horizontal => (SUB_CELL_SIZE, 1),
            LineOrientation::Vertical => (1, SUB_CELL_SIZE),
        };
        display.fill(cell_x + pos_x, cell_y + pos_y, width, height, Color::On);
    }

    /// Draws cell `(x, y)` of the maze.
    fn draw_cell(&self, display: &mut Canvas, x: usize, y: usize)
        requires
            x < MAP_X,
            y < MAP_Y,
        ensures
            final(display)@ == old(display)@ + self.cell_shapes(x as int, y as int),
    {
        if !MAZE.get(x, y) {
            assert(display@ =~= old(display)@ + self.cell_shapes(x as int, y as int));
            return;
        }
        let left = centered(DISPLAY_WIDTH, CELL_SIZE * MAP_X as u32);
        let top = centered(DISPLAY_HEIGHT, CELL_SIZE * MAP_Y as u32);
        let cx = left + x as i32 * CELL_SIZE as i32;
        let cy = top + y as i32 * CELL_SIZE as i32;
        let s = SUB_CELL_SIZE as i32;
        let at_goal = x == self.goal.0 && y == self.goal.1;
        let at_player = x == self.player.0 && y == self.player.1;
        if at_goal || at_player {
            display.fill(cx + 1, cy + 1, 3, 3, Color::On);
            if at_goal {
                display.fill(cx + s, cy + s, 1, 1, Color::Off);
            }
            assert(display@ =~= old(display)@ + self.cell_shapes(x as int, y as int));
            return;
        }
        if MAZE.above(x, y).is_some() {
            Self::draw_cell_line(display, cx, cy, s, 0, LineOrientation::Vertical);
        }
        if MAZE.below(x, y).is_some() {
            Self::draw_cell_line(display, cx, cy, s, s + 1, LineOrientation::Vertical);
        }
        if MAZE.left(x, y).is_some() {
            Self::draw_cell_line(display, cx, cy, 0, s, LineOrientation::Horizontal);
        }
        if MAZE.right(x, y).is_some() {
            Self::draw_cell_line(display, cx, cy, s + 1, s, LineOrientation::Horizontal);
        }
        display.fill(cx + s, cy + s, 1, 1, Color::On);
        assert(display@ =~= old(display)@ + self.cell_shapes(x as int, y as int));
    }

    /// Draws the maze with the player and the goal.
    pub fn draw_small_screen(&self, display: &mut Canvas)
        ensures
            final(display)@ == old(display)@ + self.rows_shapes(MAP_Y as int),
    {
        let mut y: usize = 0;
        while y < MAP_Y
            invariant
                y <= MAP_Y,
                display@ == old(display)@ + self.rows_shapes(y as int),
            decreases MAP_Y - y,
        {
            let ghost row_start = display@;
            let mut x: usize = 0;
            while x < MAP_X
                invariant
                    x <= MAP_X,
                    y < MAP_Y,
                    display@ == row_start + self.row_shapes(y as int, x as int),
                decreases MAP_X - x,
            {
                self.draw_cell(display, x, y);
                assert(display@ =~= row_start + self.row_shapes(y as int, x + 1));
                x += 1;
            }
            assert(display@ =~= old(display)@ + self.rows_shapes(y + 1));
            y += 1;
        }
    }
}

} // verus!
