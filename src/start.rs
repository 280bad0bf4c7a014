//! The start screen: waits a moment, then starts a game on the action button.

use crate::game::Screen;
use crate::gfx::{
    centered_at, lemma_ascii_bytes, small_text, Canvas, Font, Shape, ShapeView, DISPLAY_WIDTH,
};
use vstd::prelude::*;

verus! {

/// Ticks to wait before the start screen takes input.
pub const COOLDOWN: u8 = 2;

/// Number of frames of the instructions' animation.
pub const ALIVENESS_MODULO: u8 = 4;

/// Ticks that each frame of the instructions' animation is shown.
pub const ALIVENESS_SLOWDOWN: u8 = 3;

/// State of the start screen.
#[derive(Clone, Copy, Debug, PartialEq, Eq)]
pub struct Start {
    /// Ticks left before input is taken.
    pub cooldown: u8,
    /// Animation counter, from 0 below `ALIVENESS_MODULO * ALIVENESS_SLOWDOWN`.
    pub aliveness: u8,
    /// A screen change that this screen asks for.
    pub transition: Option<Screen>,
}

impl Start {
    /// The screen after one tick: the cooldown runs down, the animation
    /// advances and wraps.
    pub open spec fn ticked(self) -> Start {
        Start {
            cooldown: self.cooldown.saturating_sub(1),
            aliveness: ((self.aliveness + 1) % (ALIVENESS_MODULO * ALIVENESS_SLOWDOWN) as int) as u8,
            ..self
        }
    }

    /// The screen after a press of the action button: once the cooldown has
    /// run out it asks for the travel mini-game.
    pub open spec fn after_action(self) -> Start {
        if self.cooldown == 0 {
            Start { transition: Some(Screen::Travel), ..self }
        } else {
            self
        }
    }

    /// A start screen that waits `COOLDOWN` ticks before it takes input.
    pub open spec fn new_spec() -> Start {
        Start { cooldown: COOLDOWN, aliveness: 0, transition: None }
    }

    pub fn new() -> (r: Start)
        ensures
            r == Start::new_spec(),
    {
        Start { cooldown: COOLDOWN, aliveness: 0, transition: None }
    }

    pub fn tick(&mut self)
        ensures
            *final(self) == old(self).ticked(),
    {
        self.cooldown = self.cooldown.saturating_sub(1);
        let next = self.aliveness as u16 + 1;
        self.aliveness = (next % (ALIVENESS_MODULO * ALIVENESS_SLOWDOWN) as u16) as u8;
    }

    pub fn button_action(&mut self)
        ensures
            *final(self) == old(self).after_action(),
    {
        if self.cooldown == 0 {
            self.transition = Some(Screen::Travel);
        }
    }
}

/// The title's characters.
pub open spec fn title_text() -> Seq<char> {
    seq!['T', 'a', 'c', 'o', ' ', 'B', 'u', 'r', 'g', 'l', 'a', 'r']
}

/// The dedication's characters.
pub open spec fn dedication_text() -> Seq<char> {
    seq![
        '.', ':', ' ', 'H', 'a', 'p', 'p', 'y', ' ', 'B', 'i', 'r', 't', 'h', 'd', 'a', 'y', ' ',
        'R', 'i', 'a', ' ', ':', '.',
    ]
}

/// The year's characters.
pub open spec fn year_text() -> Seq<char> {
    seq!['2', '0', '2', '5']
}

/// `text` in `font` at height `y`, centred on the screen.
pub open spec fn centered_text(text: Seq<char>, font: Font, y: int) -> ShapeView {
    Shape::Text {
        x: centered_at(DISPLAY_WIDTH as int, text.len() * font.width()) as i32,
        y: y as i32,
        text,
        font,
    }
}

/// The frame of an animated line shown at animation counter `aliveness`.
pub open spec fn frame_of(aliveness: u8, frames: int) -> int {
    (aliveness / ALIVENESS_SLOWDOWN) as int % frames
}

/// The first `n` lines of the instructions as shown at animation counter
/// `aliveness`: line `i` stands at height `i * 7` and shows its current
/// frame.
pub open spec fn instruction_shapes(instructions: Seq<&[&str]>, aliveness: u8, n: int) -> Seq<
    ShapeView,
>
    decreases n,
{
    if n <= 0 {
        seq![]
    } else {
        let frames = instructions[n - 1]@;
        instruction_shapes(instructions, aliveness, n - 1) + seq![
            small_text(
                0,
                (n - 1) * (Font::Small.height() + 1),
                frames[frame_of(aliveness, frames.len() as int)]@,
            ),
        ]
    }
}

impl Start {
    /// The big screen's picture: title, dedication and year, centred.
    pub open spec fn big_screen(self) -> Seq<ShapeView> {
        seq![
            centered_text(title_text(), Font::Big, 15),
            centered_text(dedication_text(), Font::Small, 43),
            centered_text(year_text(), Font::Small, 50),
        ]
    }

    /// Draws the title, the dedication and the year.
    pub fn draw_big_screen(&self, display: &mut Canvas)
        ensures
            final(display)@ == old(display)@ + self.big_screen(),
    {
        let title = "Taco Burglar";
        let dedication = ".: Happy Birthday Ria :.";
        let year = "2025";
        proof {
            reveal_strlit("Taco Burglar");
            reveal_strlit(".: Happy Birthday Ria :.");
            reveal_strlit("2025");
            assert(title@ == title_text());
            assert(dedication@ == dedication_text());
            assert(year@ == year_text());
            assert(vstd::utf8::is_ascii_chars(title@));
            assert(vstd::utf8::is_ascii_chars(dedication@));
            assert(vstd::utf8::is_ascii_chars(year@));
            lemma_ascii_bytes(title);
            lemma_ascii_bytes(dedication);
            lemma_ascii_bytes(year);
        }
        let x = crate::gfx::text_align_center(title, DISPLAY_WIDTH, Font::Big);
        display.push(Shape::Text { x, y: 15, text: title.to_string(), font: Font::Big });
        let x = crate::gfx::text_align_center(dedication, DISPLAY_WIDTH, Font::Small);
        display.push(Shape::Text { x, y: 43, text: dedication.to_string(), font: Font::Small });
        let x = crate::gfx::text_align_center(year, DISPLAY_WIDTH, Font::Small);
        display.push(Shape::Text { x, y: 50, text: year.to_string(), font: Font::Small });
        assert(display@ =~= old(display)@ + self.big_screen());
    }

    /// Draws the instructions, one line each, each showing the frame of
    /// its animation that the counter has reached. The text comes from the
    /// caller, in the player's language.
    pub fn draw_small_screen(&self, instructions: &[&[&str]], display: &mut Canvas)
        requires
            instructions@.len() * (Font::Small.height() + 1) <= i32::MAX,
            forall|i: int| 0 <= i < instructions@.len() ==> #[trigger] instructions@[i]@.len() > 0,
        ensures
            final(display)@ == old(display)@ + instruction_shapes(
                instructions@,
                self.aliveness,
                instructions@.len() as int,
            ),
    {
        let mut num: usize = 0;
        let mut y: i32 = 0;
        let line_height = Font::Small.char_height() as i32 + 1;
        assert(Font::Small.height() + 1 == 7);
        while num < instructions.len()
            invariant
                num <= instructions@.len(),
                y == num * 7,
                line_height == 7,
                instructions@.len() * 7 <= i32::MAX,
                forall|i: int|
                    0 <= i < instructions@.len() ==> #[trigger] instructions@[i]@.len() > 0,
                display@ == old(display)@ + instruction_shapes(
                    instructions@,
                    self.aliveness,
                    num as int,
                ),
            decreases instructions@.len() - num,
        {
            let frames = instructions[num];
            let text = frames[(self.aliveness / ALIVENESS_SLOWDOWN) as usize % frames.len()];
            display.push(Shape::Text { x: 0, y, text: text.to_string(), font: Font::Small });
            assert(display@ =~= old(display)@ + instruction_shapes(
                instructions@,
                self.aliveness,
                num + 1,
            ));
            num += 1;
            y += line_height;
        }
    }
}

} // verus!
