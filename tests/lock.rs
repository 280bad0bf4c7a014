use rand::rngs::SmallRng;
use rand::SeedableRng;
use taco_burglar::game::Screen;
use taco_burglar::lock::{
    Direction, LockPin, LockState, MAX_CHALLENGE_SIZE, MAX_SCORE_REWARD, MIN_CHALLENGE_SIZE,
    MIN_SCORE_REWARD, NUM_PINS, PIN_HEIGHT, SHEAR_LINE_DISTANCE, SOLVE_COOLDOWN,
};

fn pin(state: u8, height: u8) -> LockPin {
    LockPin { state, height, direction: Direction::Down }
}

fn lock_with_heights(heights: [u8; 5]) -> LockState {
    LockState {
        open: false,
        score: 300,
        reward: 120,
        pins: heights.map(|h| pin(0, h)),
        current_pin: 4,
        solve_cooldown: SOLVE_COOLDOWN,
        transition: None,
    }
}

#[test]
fn derived_constants() {
    assert_eq!(PIN_HEIGHT, 21);
    assert_eq!(MAX_CHALLENGE_SIZE, 12);
    assert_eq!(PIN_HEIGHT - SHEAR_LINE_DISTANCE, 16);
}

#[test]
fn near_shear_only_just_above_the_shear_line() {
    // the bottom of the pin must sit one or two cells above the shear line
    assert!(!pin(0, 5).is_near_shear());
    assert!(!pin(8, 5).is_near_shear());
    assert!(pin(9, 5).is_near_shear());
    assert!(pin(10, 5).is_near_shear());
    assert!(!pin(11, 5).is_near_shear());
    assert!(!pin(12, 5).is_near_shear());
}

#[test]
fn fully_seated_pin_is_not_near_shear() {
    for height in 0..=21u8 {
        assert!(!pin(21 - height, height).is_near_shear());
    }
}

#[test]
fn pin_bounces_inside_its_chamber() {
    let mut p = pin(0, 12);
    let mut seen_up = false;
    for _ in 0..100 {
        let before = p;
        p.tick();
        assert!(p.state as u32 + p.height as u32 <= PIN_HEIGHT);
        assert_eq!(p.height, 12);
        assert!((p.state as i32 - before.state as i32).abs() <= 1);
        if p.direction == Direction::Up {
            seen_up = true;
        }
    }
    assert!(seen_up);
}

#[test]
fn pin_turns_at_both_ends() {
    let mut p = LockPin { state: 8, height: 12, direction: Direction::Down };
    p.tick();
    assert_eq!(p.state, 9);
    assert_eq!(p.direction, Direction::Up);
    p.tick();
    assert_eq!(p.state, 8);
    let mut p = LockPin { state: 1, height: 12, direction: Direction::Up };
    p.tick();
    assert_eq!(p.state, 0);
    assert_eq!(p.direction, Direction::Down);
    p.tick();
    assert_eq!(p.state, 1);
}

#[test]
fn random_pins_and_reward_lie_in_range() {
    let mut rng = SmallRng::seed_from_u64(21);
    for _ in 0..200 {
        let p = LockPin::random(&mut rng);
        assert_eq!(p.state, 0);
        assert_eq!(p.direction, Direction::Down);
        assert!(MIN_CHALLENGE_SIZE <= p.height as u32 && p.height as u32 <= MAX_CHALLENGE_SIZE);
        let lock = LockState::new(77, &mut rng);
        assert_eq!(lock.score, 77);
        assert!(MIN_SCORE_REWARD <= lock.reward && lock.reward <= MAX_SCORE_REWARD);
        assert_eq!(lock.current_pin as usize, NUM_PINS - 1);
        assert!(!lock.open);
        assert_eq!(lock.solve_cooldown, SOLVE_COOLDOWN);
        assert_eq!(lock.transition, None);
    }
}

#[test]
fn only_the_current_pin_moves() {
    let mut lock = lock_with_heights([5, 2, 8, 11, 2]);
    lock.tick();
    assert_eq!(lock.pins[4].state, 1);
    for i in 0..4 {
        assert_eq!(lock.pins[i].state, 0);
    }
}

#[test]
fn a_miss_moves_to_the_next_pin_and_wraps() {
    let mut lock = lock_with_heights([5, 2, 8, 11, 2]);
    lock.button_action();
    assert_eq!(lock.current_pin, 0);
    lock.button_action();
    assert_eq!(lock.current_pin, 1);
    assert!(!lock.open);
    assert_eq!(lock.score, 300);
}

fn tick_until_near_shear(lock: &mut LockState) {
    for _ in 0..100 {
        if lock.pins[lock.current_pin as usize].is_near_shear() {
            return;
        }
        lock.tick();
    }
    panic!("pin never came near the shear line");
}

#[test]
fn picking_every_pin_opens_the_lock() {
    let mut lock = lock_with_heights([5, 2, 8, 11, 2]);
    for expected in [3u8, 2, 1, 0] {
        tick_until_near_shear(&mut lock);
        lock.button_action();
        assert_eq!(lock.current_pin, expected);
        assert!(!lock.open);
    }
    tick_until_near_shear(&mut lock);
    lock.button_action();
    assert!(lock.open);
    assert_eq!(lock.score, 420);
    assert_eq!(lock.current_pin, 0);
    // an open lock ignores the button and stops the pins
    let pins = lock.pins;
    lock.button_action();
    lock.tick();
    assert_eq!(lock.score, 420);
    assert_eq!(lock.pins, pins);
}

#[test]
fn open_lock_asks_for_travel_after_the_cooldown() {
    let mut lock = lock_with_heights([5, 2, 8, 11, 2]);
    lock.open = true;
    for _ in 0..4 {
        lock.tick();
        assert_eq!(lock.transition, None);
    }
    lock.tick();
    assert_eq!(lock.solve_cooldown, 0);
    assert_eq!(lock.transition, Some(Screen::Travel));
    lock.tick();
    assert_eq!(lock.solve_cooldown, 0);
}

#[test]
fn reward_saturates() {
    let mut lock = lock_with_heights([12, 12, 12, 12, 12]);
    lock.score = u32::MAX - 1;
    lock.current_pin = 0;
    lock.pins[0].state = 3;
    assert!(lock.pins[0].is_near_shear());
    lock.button_action();
    assert!(lock.open);
    assert_eq!(lock.score, u32::MAX);
}

#[test]
fn random_draws_vary() {
    let mut rng = SmallRng::seed_from_u64(8);
    let heights: Vec<u8> = (0..100).map(|_| LockPin::random(&mut rng).height).collect();
    assert!(heights.iter().any(|h| *h != heights[0]));
    let rewards: Vec<u32> = (0..100).map(|_| LockState::new(0, &mut rng).reward).collect();
    assert!(rewards.iter().any(|r| *r != rewards[0]));
}
