use rand::rngs::SmallRng;
use rand::SeedableRng;
use taco_burglar::game::{Game, Screen};
use taco_burglar::gfx::{
    black_stroke, centered, line_tweak, render_tacos, text_align_center, text_align_right,
    white_stroke, Canvas, Color, Font, Paint, Shape,
};
use taco_burglar::lock::{Direction as PinDirection, LockPin, LockState, SOLVE_COOLDOWN};
use taco_burglar::map::Direction;
use taco_burglar::start::Start;
use taco_burglar::travel::{TravelState, TICKS_PER_TRAVEL_SQUARE};

fn rect(x: i32, y: i32, width: u32, height: u32, color: Color) -> Shape<String> {
    Shape::Rectangle { x, y, width, height, paint: Paint::Fill(color) }
}

fn text(x: i32, y: i32, s: &str, font: Font) -> Shape<String> {
    Shape::Text { x, y, text: s.to_string(), font }
}

fn travel_at(player: (usize, usize), goal: (usize, usize)) -> TravelState {
    TravelState {
        score: 0,
        goal,
        player,
        direction: Direction::North,
        next_square: TICKS_PER_TRAVEL_SQUARE,
        active_lane: 1,
        middle_strip: 0,
        transition: None,
    }
}

fn lock(current_pin: u8, open: bool) -> LockState {
    LockState {
        open,
        score: 7,
        reward: 100,
        pins: [
            LockPin { state: 0, height: 5, direction: PinDirection::Down },
            LockPin { state: 1, height: 2, direction: PinDirection::Down },
            LockPin { state: 2, height: 8, direction: PinDirection::Down },
            LockPin { state: 3, height: 11, direction: PinDirection::Down },
            LockPin { state: 4, height: 2, direction: PinDirection::Down },
        ],
        current_pin,
        solve_cooldown: SOLVE_COOLDOWN,
        transition: None,
    }
}

#[test]
fn layout_helpers() {
    assert_eq!(centered(128, 0), 64);
    assert_eq!(centered(128, 75), 27);
    assert_eq!(centered(40, 26), 7);
    assert_eq!(centered(56, 40), 8);
    assert_eq!(centered(7, 3), 2);
    assert_eq!(line_tweak(64), 63);
    assert_eq!(text_align_right(" tacos", 128), 104);
    assert_eq!(text_align_right("", 128), 128);
    assert_eq!(text_align_center("Taco Burglar", 128, Font::Big), 16);
    assert_eq!(text_align_center("2025", 128, Font::Small), 56);
    assert_eq!(black_stroke(10), Paint::Stroke(Color::Off, 10));
    assert_eq!(white_stroke(4), Paint::Stroke(Color::On, 4));
    assert_eq!(Font::Small.char_width(), 4);
    assert_eq!(Font::Big.char_height(), 13);
}

#[test]
fn score_is_drawn_with_its_unit() {
    let mut canvas = Canvas::new();
    render_tacos(&mut canvas, 1234);
    assert_eq!(
        canvas.shapes,
        vec![text(104, 0, " tacos", Font::Small), text(88, 0, "1234", Font::Small)]
    );
    let mut canvas = Canvas::new();
    render_tacos(&mut canvas, 0);
    assert_eq!(canvas.shapes[1], text(100, 0, "0", Font::Small));
    let mut canvas = Canvas::new();
    render_tacos(&mut canvas, u32::MAX);
    assert_eq!(canvas.shapes[1], text(64, 0, "4294967295", Font::Small));
}

#[test]
fn start_screens() {
    let start = Start::new();
    let mut canvas = Canvas::new();
    start.draw_big_screen(&mut canvas);
    assert_eq!(
        canvas.shapes,
        vec![
            text(16, 15, "Taco Burglar", Font::Big),
            text(16, 43, ".: Happy Birthday Ria :.", Font::Small),
            text(56, 50, "2025", Font::Small),
        ]
    );
    let mut start = Start::new();
    for _ in 0..3 {
        start.tick();
    }
    let first: &[&str] = &["press", "PRESS"];
    let second: &[&str] = &["to play"];
    let mut canvas = Canvas::new();
    start.draw_small_screen(&[first, second], &mut canvas);
    assert_eq!(
        canvas.shapes,
        vec![text(0, 0, "PRESS", Font::Small), text(0, 7, "to play", Font::Small)]
    );
}

#[test]
fn lock_big_screen() {
    let mut canvas = Canvas::new();
    lock(2, false).draw_big_screen(&mut canvas);
    let mut expected = vec![
        Shape::RoundedRectangle {
            x: 25,
            y: 16,
            width: 95,
            height: 40,
            corner: 6,
            paint: Paint::Fill(Color::On),
        },
        rect(25, 41, 85, 10, Color::Off),
        rect(25, 36, 85, 1, Color::Off),
    ];
    let pins = [(0, 5), (1, 2), (2, 8), (3, 11), (4, 2)];
    for (i, (state, height)) in pins.iter().enumerate() {
        let left = 45 + 13 * i as i32;
        expected.push(rect(left, 20, 10, 21, Color::Off));
        expected.push(rect(left + 1, 21 + state, 8, *height, Color::On));
    }
    expected.push(rect(0, 47, 77, 2, Color::On));
    expected.push(rect(75, 44, 2, 3, Color::On));
    expected.push(text(104, 0, " tacos", Font::Small));
    expected.push(text(100, 0, "7", Font::Small));
    assert_eq!(canvas.shapes, expected);
}

#[test]
fn lock_small_screen_twists_when_open() {
    let circle = Shape::Circle { x: 44, y: 12, diameter: 40, paint: Paint::Fill(Color::On) };
    let mut canvas = Canvas::new();
    lock(4, false).draw_small_screen(&mut canvas);
    assert_eq!(
        canvas.shapes,
        vec![
            circle.clone(),
            Shape::Line { x0: 63, y0: 19, x1: 63, y1: 44, paint: Paint::Stroke(Color::Off, 10) },
            Shape::Line { x0: 64, y0: 37, x1: 89, y1: 62, paint: Paint::Stroke(Color::On, 4) },
        ]
    );
    let mut canvas = Canvas::new();
    lock(0, true).draw_small_screen(&mut canvas);
    assert_eq!(
        canvas.shapes,
        vec![
            circle,
            Shape::Line { x0: 68, y0: 19, x1: 58, y1: 44, paint: Paint::Stroke(Color::Off, 10) },
            Shape::Line { x0: 59, y0: 37, x1: 64, y1: 62, paint: Paint::Stroke(Color::On, 4) },
        ]
    );
}

#[test]
fn travel_big_screen() {
    let mut state = travel_at((0, 0), (5, 0));
    state.score = 300;
    state.direction = Direction::West;
    state.active_lane = 2;
    state.middle_strip = 3;
    let mut canvas = Canvas::new();
    state.draw_big_screen(&mut canvas);
    let mut expected = vec![rect(0, 7, 128, 1, Color::On)];
    for y in [26, 45] {
        let mut x = -3;
        while x < 128 {
            expected.push(rect(x, y, 5, 1, Color::On));
            x += 15;
        }
    }
    expected.push(Shape::Bike { x: 13, y: 48 });
    expected.push(text(116, 0, "300", Font::Small));
    expected.push(text(0, 0, "west", Font::Small));
    assert_eq!(canvas.shapes, expected);
    assert_eq!(canvas.shapes.len(), 1 + 9 + 9 + 3);
}

#[test]
fn lane_draws_full_or_dashed() {
    let state = travel_at((0, 0), (5, 0));
    let mut canvas = Canvas::new();
    state.draw_lane(&mut canvas, 10, true);
    assert_eq!(canvas.shapes, vec![rect(0, 10, 128, 1, Color::On)]);
    let mut canvas = Canvas::new();
    state.draw_lane(&mut canvas, 10, false);
    assert_eq!(canvas.shapes.len(), 9);
    assert_eq!(canvas.shapes[8], rect(120, 10, 5, 1, Color::On));
}

#[test]
fn travel_small_screen_shows_the_maze() {
    let state = travel_at((1, 0), (0, 1));
    let mut canvas = Canvas::new();
    state.draw_small_screen(&mut canvas);
    // cell (0, 0): lines down and right, then its centre
    assert_eq!(canvas.shapes[0], rect(29, 10, 1, 2, Color::On));
    assert_eq!(canvas.shapes[1], rect(30, 9, 2, 1, Color::On));
    assert_eq!(canvas.shapes[2], rect(29, 9, 1, 1, Color::On));
    // cell (1, 0): the player
    assert_eq!(canvas.shapes[3], rect(33, 8, 3, 3, Color::On));
    // cell (2, 0): the cell below is closed, so lines left and right only
    assert_eq!(canvas.shapes[4], rect(37, 9, 2, 1, Color::On));
    assert_eq!(canvas.shapes[5], rect(40, 9, 2, 1, Color::On));
    assert_eq!(canvas.shapes[6], rect(39, 9, 1, 1, Color::On));
    // the goal at (0, 1) is a lit square with a dark centre
    let goal = canvas.shapes.iter().position(|s| *s == rect(28, 13, 3, 3, Color::On)).unwrap();
    assert_eq!(canvas.shapes[goal + 1], rect(29, 14, 1, 1, Color::Off));
}

#[test]
fn game_draws_the_active_screen() {
    let mut game = Game::new(SmallRng::seed_from_u64(4));
    let lines: &[&str] = &["go"];
    let mut canvas = Canvas::new();
    game.draw_big_screen(&mut canvas);
    game.draw_small_screen(&[lines], &mut canvas);
    assert_eq!(canvas.shapes.len(), 4);
    assert_eq!(canvas.shapes[3], text(0, 0, "go", Font::Small));
    game.screen = Screen::Lock;
    let mut canvas = Canvas::new();
    game.draw_small_screen(&[], &mut canvas);
    assert_eq!(canvas.shapes.len(), 3);
}
