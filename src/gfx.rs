//! What the screens draw: each screen describes its picture as a list of
//! shapes and text on a `Canvas`, which the host then paints on a display.

use vstd::prelude::*;
use vstd::string::StringSliceAdditionalSpecFns;

verus! {

/// Width of either display, in pixels.
pub const DISPLAY_WIDTH: i32 = 128;

/// Height of either display, in pixels.
pub const DISPLAY_HEIGHT: i32 = 64;

/// Width of a character of the small font, in pixels.
pub const CHAR_WIDTH: usize = 4;

/// A pixel colour of the monochrome displays.
#[derive(Clone, Copy, Debug, PartialEq, Eq, Structural)]
pub enum Color {
    Off,
    On,
}

/// How a shape is painted: filled with a colour, or outlined by a stroke of
/// a colour and a width.
#[derive(Clone, Copy, Debug, PartialEq, Eq, Structural)]
pub enum Paint {
    Fill(Color),
    Stroke(Color, u32),
}

/// The two fonts: small characters of 4 by 6 pixels, big ones of 8 by 13.
#[derive(Clone, Copy, Debug, PartialEq, Eq, Structural)]
pub enum Font {
    Small,
    Big,
}

impl Font {
    pub open spec fn width(self) -> u32 {
        match self {
            Font::Small => 4,
            Font::Big => 8,
        }
    }

    pub open spec fn height(self) -> u32 {
        match self {
            Font::Small => 6,
            Font::Big => 13,
        }
    }

    /// Width of one character, in pixels.
    pub fn char_width(&self) -> (r: u32)
        ensures
            r == self.width(),
    {
        match self {
            Font::Small => 4,
            Font::Big => 8,
        }
    }

    /// Height of one character, in pixels.
    pub fn char_height(&self) -> (r: u32)
        ensures
            r == self.height(),
    {
        match self {
            Font::Small => 6,
            Font::Big => 13,
        }
    }
}

/// One thing to draw. Positions are the top-left corner, in pixels; text
/// hangs below its position and is drawn lit. `T` is the text's type:
/// `String` for what is drawn, `Seq<char>` for its view.
#[derive(Clone, Debug, PartialEq, Eq)]
pub enum Shape<T> {
    Rectangle { x: i32, y: i32, width: u32, height: u32, paint: Paint },
    RoundedRectangle { x: i32, y: i32, width: u32, height: u32, corner: u32, paint: Paint },
    Circle { x: i32, y: i32, diameter: u32, paint: Paint },
    Line { x0: i32, y0: i32, x1: i32, y1: i32, paint: Paint },
    Text { x: i32, y: i32, text: T, font: Font },
    /// The picture of the player's bike.
    Bike { x: i32, y: i32 },
}

/// The view of a shape: its text as characters.
pub type ShapeView = Shape<Seq<char>>;

impl View for Shape<String> {
    type V = ShapeView;

    open spec fn view(&self) -> ShapeView {
        match *self {
            Shape::Rectangle { x, y, width, height, paint } => Shape::Rectangle {
                x,
                y,
                width,
                height,
                paint,
            },
            Shape::RoundedRectangle { x, y, width, height, corner, paint } =>
                Shape::RoundedRectangle { x, y, width, height, corner, paint },
            Shape::Circle { x, y, diameter, paint } => Shape::Circle { x, y, diameter, paint },
            Shape::Line { x0, y0, x1, y1, paint } => Shape::Line { x0, y0, x1, y1, paint },
            Shape::Text { x, y, text, font } => Shape::Text { x, y, text: text@, font },
            Shape::Bike { x, y } => Shape::Bike { x, y },
        }
    }
}

/// A filled rectangle.
pub open spec fn filled(x: int, y: int, width: u32, height: u32, color: Color) -> ShapeView {
    Shape::Rectangle { x: x as i32, y: y as i32, width, height, paint: Paint::Fill(color) }
}

/// Small text at `(x, y)`.
pub open spec fn small_text(x: int, y: int, text: Seq<char>) -> ShapeView {
    Shape::Text { x: x as i32, y: y as i32, text, font: Font::Small }
}

/// The shapes drawn so far, in order.
pub struct Canvas {
    pub shapes: Vec<Shape<String>>,
}

impl View for Canvas {
    type V = Seq<ShapeView>;

    open spec fn view(&self) -> Seq<ShapeView> {
        self.shapes@.map_values(|s: Shape<String>| s@)
    }
}

impl Canvas {
    /// An empty canvas.
    pub fn new() -> (r: Canvas)
        ensures
            r@ == Seq::<ShapeView>::empty(),
    {
        let r = Canvas { shapes: Vec::new() };
        assert(r@ =~= Seq::<ShapeView>::empty());
        r
    }

    /// Adds `shape` on top of what is drawn.
    pub fn push(&mut self, shape: Shape<String>)
        ensures
            final(self)@ == old(self)@.push(shape@),
    {
        let ghost before = self.shapes@;
        self.shapes.push(shape);
        assert(self.shapes@.map_values(|s: Shape<String>| s@) =~= before.map_values(
            |s: Shape<String>| s@,
        ).push(shape@));
    }

    /// Adds a filled rectangle.
    pub fn fill(&mut self, x: i32, y: i32, width: u32, height: u32, color: Color)
        ensures
            final(self)@ == old(self)@.push(filled(x as int, y as int, width, height, color)),
    {
        self.push(Shape::Rectangle { x, y, width, height, paint: Paint::Fill(color) });
    }
}

pub fn black_stroke(width: u32) -> (r: Paint)
    ensures
        r == Paint::Stroke(Color::Off, width),
{
    Paint::Stroke(Color::Off, width)
}

pub fn white_stroke(width: u32) -> (r: Paint)
    ensures
        r == Paint::Stroke(Color::On, width),
{
    Paint::Stroke(Color::On, width)
}

/// Where something `inner` wide starts so that it is centred in `outer`.
pub open spec fn centered_at(outer: int, inner: int) -> int {
    outer / 2 - inner / 2
}

/// Where something `inner` wide starts so that it is centred in `outer`,
/// both halves rounded down.
pub fn centered(outer: i32, inner: u32) -> (r: i32)
    requires
        outer >= 0,
        inner <= i32::MAX,
    ensures
        r == centered_at(outer as int, inner as int),
{
    outer / 2 - (inner as i32 / 2)
}

/// Moves a line's end one pixel back, as drawn lines need.
pub fn line_tweak(num: i32) -> (r: i32)
    requires
        num > i32::MIN,
    ensures
        r == num - 1,
{
    num - 1
}

/// Where small text starts so that it ends at `total`.
pub fn text_align_right(text: &str, total: u8) -> (r: i32)
    requires
        text.spec_bytes().len() * CHAR_WIDTH <= total,
    ensures
        r == total - text.spec_bytes().len() * CHAR_WIDTH,
{
    (total as usize - text.len() * CHAR_WIDTH) as i32
}

/// Where text in `font` starts so that it is centred in `total`.
pub fn text_align_center(text: &str, total: i32, font: Font) -> (r: i32)
    requires
        total >= 0,
        text.spec_bytes().len() * font.width() <= i32::MAX,
    ensures
        r == centered_at(total as int, text.spec_bytes().len() * font.width()),
{
    centered(total, text.len() as u32 * font.char_width())
}

/// The character of decimal digit `d`.
pub open spec fn digit_char(d: nat) -> char {
    seq!['0', '1', '2', '3', '4', '5', '6', '7', '8', '9'][d as int]
}

/// The decimal digits of `n`, most significant first, without leading
/// zeros.
pub open spec fn decimal(n: nat) -> Seq<char>
    decreases n,
{
    if n < 10 {
        seq![digit_char(n)]
    } else {
        decimal(n / 10).push(digit_char(n % 10))
    }
}

pub open spec fn pow10(k: nat) -> nat
    decreases k,
{
    if k == 0 {
        1
    } else {
        10 * pow10((k - 1) as nat)
    }
}

/// A number below `10^k` has at most `k` digits.
proof fn lemma_decimal_len(n: nat, k: nat)
    requires
        k >= 1,
        n < pow10(k),
    ensures
        decimal(n).len() <= k,
    decreases n,
{
    if n >= 10 {
        if k == 1 {
            assert(pow10(1) == 10 * pow10(0));
        }
        assert(n / 10 < pow10((k - 1) as nat)) by (nonlinear_arith)
            requires
                n < pow10(k),
                pow10(k) == 10 * pow10((k - 1) as nat),
        ;
        lemma_decimal_len(n / 10, (k - 1) as nat);
    }
}

/// Decimal digits are ASCII characters.
proof fn lemma_decimal_ascii(n: nat)
    ensures
        vstd::utf8::is_ascii_chars(decimal(n)),
    decreases n,
{
    if n >= 10 {
        lemma_decimal_ascii(n / 10);
        assert(n % 10 < 10);
    }
}

/// The digits of a `u32` are at most ten ASCII characters.
pub proof fn lemma_decimal_u32(n: u32)
    ensures
        decimal(n as nat).len() <= 10,
        vstd::utf8::is_ascii_chars(decimal(n as nat)),
{
    reveal_with_fuel(pow10, 11);
    lemma_decimal_len(n as nat, 10);
    lemma_decimal_ascii(n as nat);
}

/// An ASCII string has one byte per character.
pub proof fn lemma_ascii_bytes(s: &str)
    requires
        vstd::utf8::is_ascii_chars(s@),
    ensures
        s.spec_bytes().len() == s@.len(),
{
    broadcast use vstd::string::is_ascii_spec_bytes;

    assert(vstd::string::is_ascii(s));
}

/// Relies on itoa's `Buffer::format` for `u32`: the decimal digits of `n`,
/// without sign or leading zeros.
#[verifier::external_body]
pub(crate) fn decimal_string(n: u32) -> (r: String)
    ensures
        r@ == decimal(n as nat),
{
    let mut buffer = itoa::Buffer::new();
    String::from(buffer.format(n))
}

/// The characters of the unit after the score.
pub open spec fn tacos_unit() -> Seq<char> {
    seq![' ', 't', 'a', 'c', 'o', 's']
}

/// The score at the top right of a screen: the digits of `score`, then the
/// unit, both ending at the right edge.
pub open spec fn tacos_shapes(score: u32) -> Seq<ShapeView> {
    let digits = decimal(score as nat);
    let unit_x = DISPLAY_WIDTH - tacos_unit().len() * CHAR_WIDTH;
    seq![
        small_text(unit_x, 0, tacos_unit()),
        small_text(unit_x - digits.len() * CHAR_WIDTH, 0, digits),
    ]
}

/// Draws the score with its unit at the top right.
pub fn render_tacos(display: &mut Canvas, score: u32)
    ensures
        final(display)@ == old(display)@ + tacos_shapes(score),
{
    let tacos = " tacos";
    proof {
        reveal_strlit(" tacos");
        assert(vstd::utf8::is_ascii_chars(tacos@));
        lemma_ascii_bytes(tacos);
        lemma_decimal_u32(score);
    }
    let x = text_align_right(tacos, DISPLAY_WIDTH as u8);
    let unit = tacos.to_string();
    assert(unit@ == tacos_unit());
    display.push(Shape::Text { x, y: 0, text: unit, font: Font::Small });
    assert(display@ == old(display)@.push(small_text(104, 0, tacos_unit())));
    let unit_width = tacos.len() as u32 * Font::Small.char_width();
    let remaining_width = DISPLAY_WIDTH - unit_width as i32;
    let digits = decimal_string(score);
    let digits_str = digits.as_str();
    proof {
        lemma_ascii_bytes(digits_str);
    }
    let x = text_align_right(digits_str, remaining_width as u8);
    display.push(Shape::Text { x, y: 0, text: digits, font: Font::Small });
    assert(display@ =~= old(display)@ + tacos_shapes(score));
}

} // verus!
