use rand::rngs::SmallRng;
use rand::SeedableRng;
use taco_burglar::game::Screen;
use taco_burglar::map::{Direction, MAZE};
use taco_burglar::travel::{
    position_from_draw, random_valid_position, TravelState, TICKS_PER_TRAVEL_SQUARE,
};

fn placed(player: (usize, usize), goal: (usize, usize), direction: Direction) -> TravelState {
    TravelState {
        score: 0,
        goal,
        player,
        direction,
        next_square: TICKS_PER_TRAVEL_SQUARE,
        active_lane: 1,
        middle_strip: 0,
        transition: None,
    }
}

#[test]
fn draws_pick_cells_row_by_row() {
    assert_eq!(position_from_draw(0), Some((0, 0)));
    assert_eq!(position_from_draw(1), Some((1, 0)));
    assert_eq!(position_from_draw(15), Some((0, 1)));
    assert_eq!(position_from_draw(16), None);
    assert_eq!(position_from_draw(149), Some((14, 9)));
    assert_eq!(position_from_draw(150), Some((0, 0)));
    assert_eq!(position_from_draw(13), None);
}

#[test]
fn random_positions_are_open() {
    let mut rng = SmallRng::seed_from_u64(3);
    for _ in 0..1000 {
        let (x, y) = random_valid_position(&mut rng);
        assert!(MAZE.get(x, y));
    }
}

#[test]
fn random_goal_avoids_the_player() {
    let mut rng = SmallRng::seed_from_u64(11);
    let mut state = placed((0, 0), (1, 0), Direction::North);
    for _ in 0..1000 {
        state.set_random_goal(&mut rng);
        assert_ne!(state.goal, state.player);
        assert!(MAZE.get(state.goal.0, state.goal.1));
    }
}

#[test]
fn new_state_is_fresh() {
    let mut rng = SmallRng::seed_from_u64(5);
    for _ in 0..100 {
        let state = TravelState::new(&mut rng);
        assert_eq!(state.score, 0);
        assert_eq!(state.direction, Direction::North);
        assert_eq!(state.active_lane, 1);
        assert_eq!(state.transition, None);
        assert_ne!(state.goal, state.player);
        assert!(MAZE.get(state.player.0, state.player.1));
        assert!(MAZE.get(state.goal.0, state.goal.1));
    }
}

#[test]
fn dead_end_turns_to_its_only_exit() {
    let mut state = placed((2, 2), (0, 0), Direction::North);
    state.drive();
    assert_eq!(state.direction, Direction::South);
    assert_eq!(state.player, (2, 2));
}

#[test]
fn blocked_drive_turns_clockwise_first() {
    let mut state = placed((11, 6), (0, 0), Direction::North);
    state.drive();
    assert_eq!(state.direction, Direction::East);
    assert_eq!(state.player, (11, 6));
}

#[test]
fn blocked_drive_turns_counter_clockwise_second() {
    // an open cell ahead: the player moves and keeps its heading
    let mut state = placed((0, 0), (5, 0), Direction::East);
    state.drive();
    assert_eq!(state.player, (1, 0));
    assert_eq!(state.direction, Direction::East);
    // (14, 4) facing east: off the grid ahead, (14, 5) open clockwise
    let mut state = placed((14, 4), (0, 0), Direction::East);
    state.drive();
    assert_eq!(state.direction, Direction::South);
    assert_eq!(state.player, (14, 4));
    // (12, 0) facing west: (11, 0) is open, so it moves
    let mut state = placed((12, 0), (0, 0), Direction::West);
    state.drive();
    assert_eq!(state.player, (11, 0));
    // (4, 1) facing west: (3, 1) closed, (4, 0) open clockwise
    let mut state = placed((4, 1), (0, 0), Direction::West);
    state.drive();
    assert_eq!(state.direction, Direction::North);
    // (0, 3) facing south: (0, 4) closed, west off the grid, (1, 3) open
    // counter-clockwise
    let mut state = placed((0, 3), (5, 0), Direction::South);
    state.drive();
    assert_eq!(state.direction, Direction::East);
    assert_eq!(state.player, (0, 3));
}

#[test]
fn dead_end_reverses() {
    let mut state = placed((3, 7), (0, 0), Direction::East);
    state.drive();
    assert_eq!(state.direction, Direction::West);
    assert_eq!(state.player, (3, 7));
}

#[test]
fn drive_moves_or_turns_never_both() {
    let directions = [Direction::North, Direction::East, Direction::South, Direction::West];
    for y in 0..10 {
        for x in 0..15 {
            if !MAZE.get(x, y) {
                continue;
            }
            for d in directions {
                let mut state = placed((x, y), (usize::MAX, 0), d);
                state.drive();
                let moved = state.player != (x, y);
                let turned = state.direction != d;
                assert!(moved != turned);
                if moved {
                    assert_eq!(MAZE.direction(x, y, d), Some(state.player));
                } else {
                    assert!(MAZE.direction(x, y, state.direction).is_some());
                }
            }
        }
    }
}

#[test]
fn lanes_clamp() {
    let mut state = placed((0, 0), (5, 0), Direction::North);
    state.button_up();
    assert_eq!(state.active_lane, 0);
    state.button_up();
    assert_eq!(state.active_lane, 0);
    state.button_down();
    state.button_down();
    assert_eq!(state.active_lane, 2);
    state.button_down();
    assert_eq!(state.active_lane, 2);
}

#[test]
fn a_step_takes_seven_ticks() {
    let mut rng = SmallRng::seed_from_u64(1);
    let mut state = placed((0, 0), (5, 0), Direction::East);
    for _ in 0..6 {
        state.tick(&mut rng);
        assert_eq!(state.player, (0, 0));
    }
    assert_eq!(state.next_square, 1);
    assert_eq!(state.middle_strip, 3);
    state.tick(&mut rng);
    assert_eq!(state.player, (1, 0));
    assert_eq!(state.next_square, TICKS_PER_TRAVEL_SQUARE);
}

#[test]
fn right_lane_turns_clockwise_when_open() {
    let mut rng = SmallRng::seed_from_u64(1);
    // at (0, 0) facing north, the right lane proposes east, which is open
    let mut state = placed((0, 0), (5, 0), Direction::North);
    state.active_lane = 2;
    state.next_square = 1;
    state.tick(&mut rng);
    assert_eq!(state.direction, Direction::East);
    assert_eq!(state.player, (1, 0));
    // the left lane proposes north, which is off the grid: it drives on
    let mut state = placed((1, 0), (5, 0), Direction::East);
    state.active_lane = 0;
    state.next_square = 1;
    state.tick(&mut rng);
    assert_eq!(state.direction, Direction::East);
    assert_eq!(state.player, (2, 0));
}

#[test]
fn reaching_the_goal_scores_and_asks_for_the_lock() {
    let mut rng = SmallRng::seed_from_u64(9);
    let mut state = placed((0, 0), (1, 0), Direction::East);
    state.score = 40;
    state.next_square = 1;
    state.tick(&mut rng);
    assert_eq!(state.player, (1, 0));
    assert_eq!(state.score, 140);
    assert_eq!(state.transition, Some(Screen::Lock));
    assert_ne!(state.goal, (1, 0));
    assert!(MAZE.get(state.goal.0, state.goal.1));
}

#[test]
fn score_saturates() {
    let mut rng = SmallRng::seed_from_u64(9);
    let mut state = placed((0, 0), (1, 0), Direction::East);
    state.score = u32::MAX - 10;
    state.next_square = 1;
    state.tick(&mut rng);
    assert_eq!(state.score, u32::MAX);
}

#[test]
fn random_positions_vary() {
    let mut rng = SmallRng::seed_from_u64(4);
    let first = random_valid_position(&mut rng);
    assert!((0..100).any(|_| random_valid_position(&mut rng) != first));
}
