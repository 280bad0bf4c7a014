//! The screen state machine that owns the mini-games and dispatches events.

use crate::gfx::{Canvas, Font, ShapeView};
use crate::lock::LockState;
use crate::start::{instruction_shapes, Start};
use crate::travel::TravelState;
use rand::rngs::SmallRng;
use vstd::prelude::*;

verus! {

/// The screen that is shown and receives input.
#[derive(Clone, Copy, Debug, PartialEq, Eq, Structural)]
pub enum Screen {
    Start,
    Travel,
    Lock,
}

/// The whole game: the random source, the active screen and the state of
/// each screen.
pub struct Game {
    pub random: SmallRng,
    pub screen: Screen,
    pub start: Start,
    pub travel: TravelState,
    pub lock: LockState,
}

impl Game {
    /// The game's invariant: both mini-games keep theirs.
    pub open spec fn wf(&self) -> bool {
        self.travel.wf() && self.lock.wf()
    }

    /// The screen change that the active screen asks for.
    pub open spec fn pending(&self) -> Option<Screen> {
        match self.screen {
            Screen::Start => self.start.transition,
            Screen::Travel => self.travel.transition,
            Screen::Lock => self.lock.transition,
        }
    }

    /// A game on the start screen, with a fresh travel state and a fresh
    /// lock holding no score.
    pub fn new(random: SmallRng) -> (r: Game)
        ensures
            r.wf(),
            r.screen == Screen::Start,
            r.start == Start::new_spec(),
            r.travel.fresh(),
            r.lock.fresh(0),
    {
        let mut random = random;
        let start = Start::new();
        let travel = TravelState::new(&mut random);
        let lock = LockState::new(0, &mut random);
        Game { random, screen: Screen::Start, start, travel, lock }
    }

    /// Applies the screen change that the active screen asks for, and
    /// clears that request whether or not it is applied. Start goes to a
    /// fresh travel state; travel goes back to start (game over) or on to a
    /// fresh lock holding its score; lock goes back to travel, which takes
    /// the lock's score and a new goal while the player stays where it was.
    /// Every other request is dropped. With nothing asked for, nothing
    /// changes.
    pub fn transition(&mut self)
        requires
            old(self).wf(),
        ensures
            final(self).wf(),
            old(self).pending() is None ==> *final(self) == *old(self),
            old(self).screen == Screen::Start && old(self).pending() == Some(Screen::Travel) ==> {
                &&& final(self).screen == Screen::Travel
                &&& final(self).start == (Start { transition: None, ..old(self).start })
                &&& final(self).travel.fresh()
                &&& final(self).lock == old(self).lock
            },
            old(self).screen == Screen::Start && old(self).pending() is Some
                && old(self).pending() != Some(Screen::Travel) ==> *final(self) == (Game {
                start: Start { transition: None, ..old(self).start },
                ..*old(self)
            }),
            old(self).screen == Screen::Travel && old(self).pending() == Some(Screen::Start)
                ==> *final(self) == (Game {
                screen: Screen::Start,
                travel: TravelState { transition: None, ..old(self).travel },
                ..*old(self)
            }),
            old(self).screen == Screen::Travel && old(self).pending() == Some(Screen::Lock) ==> {
                &&& final(self).screen == Screen::Lock
                &&& final(self).start == old(self).start
                &&& final(self).travel == (TravelState { transition: None, ..old(self).travel })
                &&& final(self).lock.fresh(old(self).travel.score)
            },
            old(self).screen == Screen::Travel && old(self).pending() == Some(Screen::Travel)
                ==> *final(self) == (Game {
                travel: TravelState { transition: None, ..old(self).travel },
                ..*old(self)
            }),
            old(self).screen == Screen::Lock && old(self).pending() == Some(Screen::Travel) ==> {
                &&& final(self).screen == Screen::Travel
                &&& final(self).start == old(self).start
                &&& final(self).lock == (LockState { transition: None, ..old(self).lock })
                &&& final(self).travel == (TravelState {
                    score: old(self).lock.score,
                    goal: final(self).travel.goal,
                    ..old(self).travel
                })
            },
            old(self).screen == Screen::Lock && old(self).pending() is Some && old(self).pending()
                != Some(Screen::Travel) ==> *final(self) == (Game {
                lock: LockState { transition: None, ..old(self).lock },
                ..*old(self)
            }),
    {
        match self.screen {
            Screen::Start => {
                let Some(screen) = self.start.transition else {
                    return;
                };
                self.start.transition = None;
                if screen == Screen::Travel {
                    self.travel = TravelState::new(&mut self.random);
                    self.screen = Screen::Travel;
                }
            },
            Screen::Travel => {
                let Some(screen) = self.travel.transition else {
                    return;
                };
                self.travel.transition = None;
                match screen {
                    Screen::Start => self.screen = Screen::Start,
                    Screen::Travel => {},
                    Screen::Lock => {
                        self.lock = LockState::new(self.travel.score, &mut self.random);
                        self.screen = Screen::Lock;
                    },
                }
            },
            Screen::Lock => {
                let Some(screen) = self.lock.transition else {
                    return;
                };
                self.lock.transition = None;
                if screen == Screen::Travel {
                    self.travel.score = self.lock.score;
                    self.travel.set_random_goal(&mut self.random);
                    self.screen = Screen::Travel;
                }
            },
        }
    }

    /// Hands a tick to the active screen.
    pub fn tick(&mut self)
        requires
            old(self).wf(),
        ensures
            final(self).wf(),
            final(self).screen == old(self).screen,
            old(self).screen == Screen::Start ==> *final(self) == (Game {
                start: old(self).start.ticked(),
                ..*old(self)
            }),
            old(self).screen == Screen::Travel ==> {
                &&& old(self).travel.ticks_to(final(self).travel)
                &&& final(self).start == old(self).start
                &&& final(self).lock == old(self).lock
            },
            old(self).screen == Screen::Lock ==> {
                &&& old(self).lock.ticks_to(final(self).lock)
                &&& *final(self) == (Game { lock: final(self).lock, ..*old(self) })
            },
    {
        match self.screen {
            Screen::Start => self.start.tick(),
            Screen::Travel => self.travel.tick(&mut self.random),
            Screen::Lock => self.lock.tick(),
        }
    }

    /// Hands a press of the action button to the start screen or the lock;
    /// travel ignores it.
    pub fn button_action(&mut self)
        requires
            old(self).wf(),
        ensures
            final(self).wf(),
            *final(self) == (match old(self).screen {
                Screen::Start => Game { start: old(self).start.after_action(), ..*old(self) },
                Screen::Travel => *old(self),
                Screen::Lock => Game { lock: old(self).lock.after_action(), ..*old(self) },
            }),
    {
        match self.screen {
            Screen::Start => self.start.button_action(),
            Screen::Travel => {},
            Screen::Lock => self.lock.button_action(),
        }
    }

    /// Hands a press of the up button to travel; the other screens ignore it.
    pub fn button_up(&mut self)
        ensures
            *final(self) == (match old(self).screen {
                Screen::Travel => Game { travel: old(self).travel.lane_up(), ..*old(self) },
                _ => *old(self),
            }),
    {
        match self.screen {
            Screen::Start => {},
            Screen::Travel => self.travel.button_up(),
            Screen::Lock => {},
        }
    }

    /// Hands a press of the down button to travel; the other screens ignore
    /// it.
    pub fn button_down(&mut self)
        requires
            old(self).wf(),
        ensures
            final(self).wf(),
            *final(self) == (match old(self).screen {
                Screen::Travel => Game { travel: old(self).travel.lane_down(), ..*old(self) },
                _ => *old(self),
            }),
    {
        match self.screen {
            Screen::Start => {},
            Screen::Travel => self.travel.button_down(),
            Screen::Lock => {},
        }
    }
    /// The big screen's picture of the active screen.
    pub open spec fn big_screen(&self) -> Seq<ShapeView> {
        match self.screen {
            Screen::Start => self.start.big_screen(),
            Screen::Travel => self.travel.big_screen(),
            Screen::Lock => self.lock.big_screen(),
        }
    }

    /// The small screen's picture of the active screen; the start screen
    /// shows `instructions`.
    pub open spec fn small_screen(&self, instructions: Seq<&[&str]>) -> Seq<ShapeView> {
        match self.screen {
            Screen::Start => instruction_shapes(
                instructions,
                self.start.aliveness,
                instructions.len() as int,
            ),
            Screen::Travel => self.travel.rows_shapes(crate::map::MAP_Y as int),
            Screen::Lock => self.lock.small_screen(),
        }
    }

    /// Draws the active screen's picture for the big display.
    pub fn draw_big_screen(&self, display: &mut Canvas)
        ensures
            final(display)@ == old(display)@ + self.big_screen(),
    {
        match self.screen {
            Screen::Start => self.start.draw_big_screen(display),
            Screen::Travel => self.travel.draw_big_screen(display),
            Screen::Lock => self.lock.draw_big_screen(display),
        }
    }

    /// Draws the active screen's picture for the small display; the start
    /// screen shows `instructions`, each line a list of animation frames.
    pub fn draw_small_screen(&self, instructions: &[&[&str]], display: &mut Canvas)
        requires
            self.screen == Screen::Start ==> instructions@.len() * (Font::Small.height() + 1)
                <= i32::MAX,
            self.screen == Screen::Start ==> forall|i: int|
                0 <= i < instructions@.len() ==> #[trigger] instructions@[i]@.len() > 0,
        ensures
            final(display)@ == old(display)@ + self.small_screen(instructions@),
    {
        match self.screen {
            Screen::Start => self.start.draw_small_screen(instructions, display),
            Screen::Travel => self.travel.draw_small_screen(display),
            Screen::Lock => self.lock.draw_small_screen(display),
        }
    }
}

} // verus!
