//! The lock-picking mini-game: five spring-loaded pins oscillate in turn,
//! and each must be caught just below the shear line.

use crate::game::Screen;
use crate::gfx::{
    black_stroke, centered, centered_at, filled, line_tweak, render_tacos, tacos_shapes,
    white_stroke, Canvas, Color, Paint, Shape, ShapeView, DISPLAY_HEIGHT, DISPLAY_WIDTH,
};
use crate::random::gen_range_inclusive;
use rand::rngs::SmallRng;
use vstd::prelude::*;

verus! {

/// Diameter of the lock's face on the small screen.
pub const CIRCLE_DIAMETER: u32 = 40;

/// Left edge of the lock's face on the small screen.
pub const CIRCLE_X_OFFSET: i32 = 44;

/// Width of the keyhole's stroke.
pub const KEYHOLE_WIDTH: u32 = 10;

/// Height of the keyhole.
pub const KEYHOLE_HEIGHT: u32 = 26;

/// How far the keyhole's ends swing when the lock is open.
pub const KEYHOLE_OPEN_TWIST: i32 = 5;

/// Length of the tension tool.
pub const TENSION_TOOL_LENGTH: i32 = 25;

/// How far below the screen's centre the tension tool starts.
pub const TENSION_TOOL_KEYHOLE_OFFSET: i32 = 5;

/// Width of the tension tool's stroke.
pub const TENSION_TOOL_WIDTH: u32 = 4;

/// Top of the lock's face on the small screen.
pub const KEYHOLE_Y_OFFSET: i32 = 12;

/// Length of the lock body, in pixels.
pub const LOCK_LENGTH: u32 = 95;

/// Left edge of the lock body.
pub const LOCK_X_OFFSET: i32 = 25;

/// Room kept above the lock body for the score.
pub const SIDE_LOCK_Y_OFFSET: i32 = 8;

/// Radius of the lock body's corners.
pub const LOCK_ROUND_CORNERS: u32 = 6;

/// Left edge of the first pin chamber, from the left of the lock body.
pub const PINS_X_OFFSET: u32 = 20;

/// Width of a pin chamber.
pub const PIN_WIDTH: u32 = 10;

/// Gap between two pin chambers.
pub const PIN_X_SPACING: u32 = 3;

/// Length of the keyway.
pub const KEYWAY_LENGTH: u32 = PINS_X_OFFSET + 5 * (PIN_WIDTH + PIN_X_SPACING);

/// Width of the pick.
pub const PICK_WIDTH: u32 = 2;

/// Depth of the pick below the top of the keyway.
pub const PICK_Y_OFFSET: u32 = 3;

/// Height of the pick's hook.
pub const PICK_HOOK_HEIGHT: u32 = 3;

/// Height of the lock body, in pixels.
pub const LOCK_HEIGHT: u32 = 40;

/// Height of the keyway, in pixels.
pub const KEYWAY_HEIGHT: u32 = 10;

/// Top of the keyway, from the top of the lock body.
pub const KEYWAY_Y_OFFSET: u32 = LOCK_HEIGHT - KEYWAY_HEIGHT - 5;

/// Top of the pin chambers, from the top of the lock body.
pub const PINS_Y_OFFSET: u32 = 4;

/// Height of a pin chamber: the room a pin moves in.
pub const PIN_HEIGHT: u32 = KEYWAY_Y_OFFSET - PINS_Y_OFFSET;

/// Distance of the shear line above the keyway.
pub const SHEAR_LINE_DISTANCE: u32 = 5;

/// Number of pins in the lock.
pub const NUM_PINS: usize = 5;

/// Smallest height of a pin's body.
pub const MIN_CHALLENGE_SIZE: u32 = 5;

/// Largest height of a pin's body.
pub const MAX_CHALLENGE_SIZE: u32 = PIN_HEIGHT - SHEAR_LINE_DISTANCE - 4;

/// How far the active pin moves each tick.
pub const PICK_SPEED: u8 = 1;

/// How many cells below the shear line a pin may be caught.
pub const SOLVE_TOLERANCE: u32 = 2;

/// Smallest reward for opening a lock.
pub const MIN_SCORE_REWARD: u32 = 100;

/// Largest reward for opening a lock.
pub const MAX_SCORE_REWARD: u32 = 250;

/// Ticks between opening the lock and returning to the travel mini-game.
pub const SOLVE_COOLDOWN: u8 = 5;

/// The way a pin is moving: up shrinks its offset, down grows it.
#[derive(Clone, Copy, Debug, PartialEq, Eq, Structural)]
pub enum Direction {
    Up,
    Down,
}

/// One spring-loaded pin: its offset from the top of its chamber, the height
/// of its body, and the way it moves.
#[derive(Clone, Copy, Debug, PartialEq, Eq)]
pub struct LockPin {
    pub state: u8,
    pub height: u8,
    pub direction: Direction,
}

/// Whether a pin at offset `state` with a body of `height` can be caught:
/// its bottom lies above the shear line by at least one cell and at most
/// `SOLVE_TOLERANCE` cells.
pub open spec fn near_shear(state: u8, height: u8) -> bool {
    let distance = (PIN_HEIGHT - SHEAR_LINE_DISTANCE) as int - (state + height);
    0 < distance <= SOLVE_TOLERANCE
}

impl LockPin {
    /// The pin stays inside its chamber.
    pub open spec fn wf(&self) -> bool {
        self.state + self.height <= PIN_HEIGHT
    }

    /// The pin after one tick of oscillation: it moves by `PICK_SPEED`
    /// without leaving its chamber, turns down at the top and up at the
    /// bottom.
    pub open spec fn ticked(self) -> LockPin {
        let moved = match self.direction {
            Direction::Up => self.state.saturating_sub(PICK_SPEED),
            Direction::Down => self.state.saturating_add(PICK_SPEED),
        };
        let room = (PIN_HEIGHT - self.height) as u8;
        let state = if moved <= room {
            moved
        } else {
            room
        };
        LockPin {
            state,
            height: self.height,
            direction: if state + self.height >= PIN_HEIGHT {
                Direction::Up
            } else if state == 0 {
                Direction::Down
            } else {
                self.direction
            },
        }
    }

    /// A pin at the top of its chamber, moving down, with a random height
    /// from `MIN_CHALLENGE_SIZE` to `MAX_CHALLENGE_SIZE`.
    pub fn random(random: &mut SmallRng) -> (r: LockPin)
        ensures
            r.wf(),
            r.state == 0,
            MIN_CHALLENGE_SIZE <= r.height <= MAX_CHALLENGE_SIZE,
            r.direction == Direction::Down,
    {
        let height = gen_range_inclusive(random, MIN_CHALLENGE_SIZE, MAX_CHALLENGE_SIZE) as u8;
        LockPin { state: 0, height, direction: Direction::Down }
    }

    /// Whether the pin can be caught now. A pin whose body reaches down to
    /// the keyway or into the core is never caught.
    pub fn is_near_shear(&self) -> (r: bool)
        ensures
            r == near_shear(self.state, self.height),
            self.state + self.height == PIN_HEIGHT ==> !r,
            r ==> PIN_HEIGHT - SHEAR_LINE_DISTANCE - SOLVE_TOLERANCE <= self.state + self.height
                < PIN_HEIGHT - SHEAR_LINE_DISTANCE,
    {
        let total_pin = self.state as u32 + self.height as u32;
        if total_pin >= PIN_HEIGHT - SHEAR_LINE_DISTANCE {
            return false;
        }
        let distance = (PIN_HEIGHT - SHEAR_LINE_DISTANCE) - total_pin;
        distance <= SOLVE_TOLERANCE
    }

    /// Moves the pin one tick; the pin stays inside its chamber.
    pub fn tick(&mut self)
        requires
            old(self).wf(),
        ensures
            *final(self) == old(self).ticked(),
            final(self).wf(),
    {
        let moved = match self.direction {
            Direction::Up => self.state.saturating_sub(PICK_SPEED),
            Direction::Down => self.state.saturating_add(PICK_SPEED),
        };
        let room = (PIN_HEIGHT as u8) - self.height;
        self.state = if moved <= room {
            moved
        } else {
            room
        };
        if self.state + self.height >= PIN_HEIGHT as u8 {
            self.direction = Direction::Up;
        } else if self.state == 0 {
            self.direction = Direction::Down;
        }
    }
}

/// State of the lock mini-game.
#[derive(Clone, Copy, Debug, PartialEq, Eq)]
pub struct LockState {
    /// Whether every pin has been caught.
    pub open: bool,
    /// Score of the whole game so far.
    pub score: u32,
    /// What opening this lock adds to the score.
    pub reward: u32,
    pub pins: [LockPin; NUM_PINS],
    /// The pin being picked; picking runs from the last pin to pin 0.
    pub current_pin: u8,
    /// Ticks left, once open, before returning to the travel mini-game.
    pub solve_cooldown: u8,
    /// A screen change that this mini-game asks for.
    pub transition: Option<Screen>,
}

impl LockState {
    /// The state's invariant: the pin being picked exists and every pin stays
    /// inside its chamber.
    pub open spec fn wf(&self) -> bool {
        &&& self.current_pin < NUM_PINS
        &&& forall|i: int| 0 <= i < NUM_PINS ==> #[trigger] self.pins[i].wf()
    }

    /// Whether `next` is this state after one tick: once open, the cooldown
    /// runs down and at zero asks to return to travel; before that the pin
    /// being picked moves and the others stay.
    pub open spec fn ticks_to(self, next: LockState) -> bool {
        if self.open {
            let cooldown = self.solve_cooldown.saturating_sub(1);
            next == LockState {
                solve_cooldown: cooldown,
                transition: if cooldown == 0 {
                    Some(Screen::Travel)
                } else {
                    self.transition
                },
                ..self
            }
        } else {
            let i = self.current_pin as int;
            &&& next.pins@ == self.pins@.update(i, self.pins[i].ticked())
            &&& next == LockState { pins: next.pins, ..self }
        }
    }

    /// The state after a press of the action button: nothing once open; a
    /// miss moves on to the next pin, wrapping after the last; a catch moves
    /// back one pin, and a catch of pin 0 opens the lock and adds the
    /// reward to the score.
    pub open spec fn after_action(self) -> LockState {
        let i = self.current_pin;
        if self.open {
            self
        } else if !near_shear(self.pins[i as int].state, self.pins[i as int].height) {
            LockState { current_pin: ((i + 1) % NUM_PINS as int) as u8, ..self }
        } else if i == 0 {
            LockState { score: self.score.saturating_add(self.reward), open: true, ..self }
        } else {
            LockState { current_pin: (i - 1) as u8, ..self }
        }
    }

    /// Whether this is how a lock holding `score` starts: closed, a reward
    /// from `MIN_SCORE_REWARD` to `MAX_SCORE_REWARD`, every pin at the top of
    /// its chamber moving down with a height from `MIN_CHALLENGE_SIZE` to
    /// `MAX_CHALLENGE_SIZE`, picking at the last pin, the full cooldown
    /// ahead, nothing asked for.
    pub open spec fn fresh(&self, score: u32) -> bool {
        &&& !self.open
        &&& self.score == score
        &&& MIN_SCORE_REWARD <= self.reward <= MAX_SCORE_REWARD
        &&& forall|i: int|
            0 <= i < NUM_PINS ==> {
                &&& #[trigger] self.pins[i].state == 0
                &&& MIN_CHALLENGE_SIZE <= self.pins[i].height <= MAX_CHALLENGE_SIZE
                &&& self.pins[i].direction == Direction::Down
            }
        &&& self.current_pin == NUM_PINS - 1
        &&& self.solve_cooldown == SOLVE_COOLDOWN
        &&& self.transition is None
    }

    /// A closed lock holding `score`, with a random reward from
    /// `MIN_SCORE_REWARD` to `MAX_SCORE_REWARD` and five random pins at the
    /// top of their chambers; picking starts at the last pin.
    pub fn new(score: u32, random: &mut SmallRng) -> (r: LockState)
        ensures
            r.wf(),
            r.fresh(score),
    {
        let reward = gen_range_inclusive(random, MIN_SCORE_REWARD, MAX_SCORE_REWARD);
        let pins = [
            LockPin::random(random),
            LockPin::random(random),
            LockPin::random(random),
            LockPin::random(random),
            LockPin::random(random),
        ];
        LockState {
            open: false,
            score,
            reward,
            pins,
            current_pin: (NUM_PINS - 1) as u8,
            solve_cooldown: SOLVE_COOLDOWN,
            transition: None,
        }
    }

    /// Advances the lock by one tick.
    pub fn tick(&mut self)
        requires
            old(self).wf(),
        ensures
            old(self).ticks_to(*final(self)),
            final(self).wf(),
    {
        if self.open {
            self.solve_cooldown = self.solve_cooldown.saturating_sub(1);
            if self.solve_cooldown == 0 {
                self.transition = Some(Screen::Travel);
            }
        } else {
            let i = self.current_pin as usize;
            let mut pin = self.pins[i];
            pin.tick();
            self.pins[i] = pin;
        }
    }

    /// Tries to catch the pin being picked.
    pub fn button_action(&mut self)
        requires
            old(self).wf(),
        ensures
            *final(self) == old(self).after_action(),
            final(self).wf(),
    {
        if self.open {
            return;
        }
        let i = self.current_pin as usize;
        if !self.pins[i].is_near_shear() {
            self.current_pin = ((i + 1) % NUM_PINS) as u8;
            return;
        }
        if self.current_pin == 0 {
            self.score = self.score.saturating_add(self.reward);
            self.open = true;
        } else {
            self.current_pin = self.current_pin - 1;
        }
    }
}

/// Top of the lock body on the big screen: centred below the score line.
pub open spec fn lock_top() -> int {
    centered_at((DISPLAY_HEIGHT - SIDE_LOCK_Y_OFFSET) as int, LOCK_HEIGHT as int)
        + SIDE_LOCK_Y_OFFSET
}

/// Top of the keyway on the big screen.
pub open spec fn keyway_top() -> int {
    lock_top() + KEYWAY_Y_OFFSET
}

/// Left edge of pin chamber `num` on the big screen.
pub open spec fn pin_left(num: int) -> int {
    LOCK_X_OFFSET + PINS_X_OFFSET + num * (PIN_WIDTH + PIN_X_SPACING)
}

/// The chambers and bodies of the first `n` pins, in order: each chamber
/// dark, with its pin lit inside at the pin's offset.
pub open spec fn pin_shapes(pins: Seq<LockPin>, n: int) -> Seq<ShapeView>
    decreases n,
{
    if n <= 0 {
        seq![]
    } else {
        let top = lock_top() + PINS_Y_OFFSET;
        let pin = pins[n - 1];
        pin_shapes(pins, n - 1) + seq![
            filled(pin_left(n - 1), top, PIN_WIDTH, PIN_HEIGHT, Color::Off),
            filled(pin_left(n - 1) + 1, top + 1 + pin.state, (PIN_WIDTH - 2) as u32, pin.height as u32, Color::On),
        ]
    }
}

impl LockState {
    /// The big screen's picture: the lock body with its keyway and shear
    /// line, the pins, the pick under the pin being picked, and the score.
    pub open spec fn big_screen(self) -> Seq<ShapeView> {
        let pick_length = LOCK_X_OFFSET + PINS_X_OFFSET + self.current_pin * (PIN_WIDTH
            + PIN_X_SPACING) + PIN_WIDTH / 2 + PICK_WIDTH / 2;
        seq![
            Shape::RoundedRectangle {
                x: LOCK_X_OFFSET,
                y: lock_top() as i32,
                width: LOCK_LENGTH,
                height: LOCK_HEIGHT,
                corner: LOCK_ROUND_CORNERS,
                paint: Paint::Fill(Color::On),
            },
            filled(LOCK_X_OFFSET as int, keyway_top(), KEYWAY_LENGTH, KEYWAY_HEIGHT, Color::Off),
            filled(LOCK_X_OFFSET as int, keyway_top() - SHEAR_LINE_DISTANCE, KEYWAY_LENGTH, 1, Color::Off),
        ] + pin_shapes(self.pins@, NUM_PINS as int) + seq![
            filled(0, keyway_top() + PICK_Y_OFFSET + PICK_HOOK_HEIGHT, pick_length as u32, PICK_WIDTH, Color::On),
            filled(pick_length - PICK_WIDTH, keyway_top() + PICK_Y_OFFSET, PICK_WIDTH, PICK_HOOK_HEIGHT, Color::On),
        ] + tacos_shapes(self.score)
    }

    /// The small screen's picture: the lock's face with its keyhole and the
    /// tension tool, both twisted once the lock is open.
    pub open spec fn small_screen(self) -> Seq<ShapeView> {
        let twist: int = if self.open {
            KEYHOLE_OPEN_TWIST as int
        } else {
            0
        };
        let middle = centered_at(DISPLAY_WIDTH as int, 0);
        let keyhole_top = centered_at(CIRCLE_DIAMETER as int, KEYHOLE_HEIGHT as int) + KEYHOLE_Y_OFFSET;
        let tool_top = centered_at(DISPLAY_HEIGHT as int, 0) + TENSION_TOOL_KEYHOLE_OFFSET;
        seq![
            Shape::Circle {
                x: CIRCLE_X_OFFSET,
                y: KEYHOLE_Y_OFFSET,
                diameter: CIRCLE_DIAMETER,
                paint: Paint::Fill(Color::On),
            },
            Shape::Line {
                x0: (middle - 1 + twist) as i32,
                y0: keyhole_top as i32,
                x1: (middle - 1 - twist) as i32,
                y1: (keyhole_top + KEYHOLE_HEIGHT - 1) as i32,
                paint: Paint::Stroke(Color::Off, KEYHOLE_WIDTH),
            },
            Shape::Line {
                x0: (middle - twist) as i32,
                y0: tool_top as i32,
                x1: (middle + TENSION_TOOL_LENGTH - twist * 5) as i32,
                y1: (tool_top + TENSION_TOOL_LENGTH) as i32,
                paint: Paint::Stroke(Color::On, TENSION_TOOL_WIDTH),
            },
        ]
    }

    /// Draws the lock, its pins, the pick and the score.
    pub fn draw_big_screen(&self, display: &mut Canvas)
        ensures
            final(display)@ == old(display)@ + self.big_screen(),
    {
        let top = centered(DISPLAY_HEIGHT - SIDE_LOCK_Y_OFFSET, LOCK_HEIGHT)
            + SIDE_LOCK_Y_OFFSET;
        let keyway = top + KEYWAY_Y_OFFSET as i32;
        display.push(
            Shape::RoundedRectangle {
                x: LOCK_X_OFFSET,
                y: top,
                width: LOCK_LENGTH,
                height: LOCK_HEIGHT,
                corner: LOCK_ROUND_CORNERS,
                paint: Paint::Fill(Color::On),
            },
        );
        display.fill(LOCK_X_OFFSET, keyway, KEYWAY_LENGTH, KEYWAY_HEIGHT, Color::Off);
        display.fill(
            LOCK_X_OFFSET,
            keyway - SHEAR_LINE_DISTANCE as i32,
            KEYWAY_LENGTH,
            1,
            Color::Off,
        );
        let ghost before_pins = display@;
        let pins_top = top + PINS_Y_OFFSET as i32;
        let mut num: usize = 0;
        let mut left: i32 = LOCK_X_OFFSET + PINS_X_OFFSET as i32;
        while num < NUM_PINS
            invariant
                num <= NUM_PINS,
                left == pin_left(num as int),
                top == lock_top(),
                pins_top == lock_top() + PINS_Y_OFFSET,
                display@ == before_pins + pin_shapes(self.pins@, num as int),
            decreases NUM_PINS - num,
        {
            let pin = self.pins[num];
            display.fill(left, pins_top, PIN_WIDTH, PIN_HEIGHT, Color::Off);
            display.fill(
                left + 1,
                pins_top + 1 + pin.state as i32,
                PIN_WIDTH - 2,
                pin.height as u32,
                Color::On,
            );
            assert(display@ =~= before_pins + pin_shapes(self.pins@, num + 1));
            num += 1;
            left += (PIN_WIDTH + PIN_X_SPACING) as i32;
        }
        let pick_length = LOCK_X_OFFSET as u32 + PINS_X_OFFSET + self.current_pin as u32 * (
        PIN_WIDTH + PIN_X_SPACING) + PIN_WIDTH / 2 + PICK_WIDTH / 2;
        display.fill(
            0,
            keyway + (PICK_Y_OFFSET + PICK_HOOK_HEIGHT) as i32,
            pick_length,
            PICK_WIDTH,
            Color::On,
        );
        display.fill(
            (pick_length - PICK_WIDTH) as i32,
            keyway + PICK_Y_OFFSET as i32,
            PICK_WIDTH,
            PICK_HOOK_HEIGHT,
            Color::On,
        );
        render_tacos(display, self.score);
        assert(display@ =~= old(display)@ + self.big_screen());
    }

    /// Draws the lock's face, its keyhole and the tension tool.
    pub fn draw_small_screen(&self, display: &mut Canvas)
        ensures
            final(display)@ == old(display)@ + self.small_screen(),
    {
        let twist = if self.open {
            KEYHOLE_OPEN_TWIST
        } else {
            0
        };
        let middle = centered(DISPLAY_WIDTH, 0);
        let keyhole_top = centered(CIRCLE_DIAMETER as i32, KEYHOLE_HEIGHT) + KEYHOLE_Y_OFFSET;
        display.push(
            Shape::Circle {
                x: CIRCLE_X_OFFSET,
                y: KEYHOLE_Y_OFFSET,
                diameter: CIRCLE_DIAMETER,
                paint: Paint::Fill(Color::On),
            },
        );
        display.push(
            Shape::Line {
                x0: line_tweak(middle) + twist,
                y0: keyhole_top,
                x1: line_tweak(middle) - twist,
                y1: line_tweak(keyhole_top + KEYHOLE_HEIGHT as i32),
                paint: black_stroke(KEYHOLE_WIDTH),
            },
        );
        let tool_top = centered(DISPLAY_HEIGHT, 0) + TENSION_TOOL_KEYHOLE_OFFSET;
        display.push(
            Shape::Line {
                x0: middle - twist,
                y0: tool_top,
                x1: middle + TENSION_TOOL_LENGTH - (twist * 5),
                y1: tool_top + TENSION_TOOL_LENGTH,
                paint: white_stroke(TENSION_TOOL_WIDTH),
            },
        );
        assert(display@ =~= old(display)@ + self.small_screen());
    }
}

} // verus!
