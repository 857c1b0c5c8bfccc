use invaders::NUM_COLS;
use invaders::NUM_ROWS;
use invaders::game::InputEvent;
use invaders::game::apply_input;
use invaders::invader::Invader;
use invaders::invader::Invaders;
use invaders::player::MAX_SHOTS;
use invaders::player::Player;
use invaders::shot::SHOT_EXPLOSION_MS;
use invaders::shot::SHOT_FLIGHT_PERIOD_MS;
use invaders::shot::Shot;
use invaders::timer::MoveTimer;

fn swarm_of(army: Vec<Invader>, period_ms: u64, direction: i32) -> Invaders {
    Invaders { army, move_timer: MoveTimer::from_millis(period_ms), direction }
}

#[test]
fn new_player_sits_centered_on_bottom_row() {
    let p = Player::new();
    assert_eq!(p.x, NUM_COLS / 2);
    assert_eq!(p.y, NUM_ROWS - 1);
    assert_eq!(p.shots.len(), 0);
}

#[test]
fn player_x_never_leaves_the_field() {
    let mut p = Player::new();
    for _ in 0..NUM_COLS + 5 {
        p.move_left();
        assert!(p.x < NUM_COLS);
    }
    assert_eq!(p.x, 0);
    p.move_left();
    assert_eq!(p.x, 0);
    for _ in 0..2 * NUM_COLS {
        p.move_right();
        assert!(p.x < NUM_COLS);
    }
    assert_eq!(p.x, NUM_COLS - 1);
    p.move_right();
    assert_eq!(p.x, NUM_COLS - 1);
}

#[test]
fn third_shot_is_refused_while_two_fly() {
    // the player fires twice from (20, 19); both projectiles spawn one row
    // above the ship, and a third shot is refused while both still fly
    let mut p = Player::new();
    assert_eq!(p.x, 20);
    assert!(p.shoot());
    assert!(p.shoot());
    assert!(!p.shoot());
    assert_eq!(p.shots.len(), MAX_SHOTS);
    for s in p.shots.iter() {
        assert_eq!(s.x, 20);
        assert_eq!(s.y, NUM_ROWS - 2);
        assert!(!s.exploding);
    }
    // still refused: nothing was created by the refused call
    assert!(!p.shoot());
    assert_eq!(p.shots.len(), MAX_SHOTS);
}

#[test]
fn shot_flies_one_row_per_period() {
    let mut s = Shot::new(10, 10);
    assert_eq!(s.timer.duration_ms, SHOT_FLIGHT_PERIOD_MS);
    s.update(SHOT_FLIGHT_PERIOD_MS);
    assert_eq!(s.y, 9);
    s.update(SHOT_FLIGHT_PERIOD_MS - 1);
    assert_eq!(s.y, 9);
    s.update(1);
    assert_eq!(s.y, 8);
    assert!(!s.dead());
}

#[test]
fn shot_expires_at_the_top_row() {
    let mut p = Player::new();
    p.shots.push(Shot::new(20, 1));
    p.update(SHOT_FLIGHT_PERIOD_MS);
    // the shot stepped onto row 0 and was purged in the same call
    assert_eq!(p.shots.len(), 0);
}

#[test]
fn exploding_shot_dies_when_its_animation_ends() {
    let mut p = Player::new();
    let mut s = Shot::new(10, 10);
    s.explode();
    assert!(s.exploding);
    assert_eq!(s.timer.duration_ms, SHOT_EXPLOSION_MS);
    assert!(!s.dead());
    p.shots.push(s);
    p.update(SHOT_EXPLOSION_MS - 1);
    assert_eq!(p.shots.len(), 1);
    p.update(1);
    assert_eq!(p.shots.len(), 0);
}

#[test]
fn hit_kills_invader_and_explodes_shot() {
    // a projectile over an occupied cell scores: the invader is removed and
    // the projectile switches to its explosion instead of vanishing
    let mut p = Player::new();
    p.shots.push(Shot::new(10, 10));
    let mut inv = swarm_of(vec![Invader { x: 10, y: 10 }], 500, 1);
    let hit = p.detect_hits(&mut inv);
    assert!(hit);
    assert_eq!(inv.army.len(), 0);
    assert_eq!(p.shots.len(), 1);
    assert!(p.shots[0].exploding);
    assert_eq!(p.shots[0].x, 10);
    assert_eq!(p.shots[0].y, 10);
}

#[test]
fn exploding_shot_cannot_score_again() {
    let mut p = Player::new();
    let mut s = Shot::new(10, 10);
    s.explode();
    p.shots.push(s);
    let mut inv = swarm_of(vec![Invader { x: 10, y: 10 }], 500, 1);
    assert!(!p.detect_hits(&mut inv));
    assert_eq!(inv.army.len(), 1);
}

#[test]
fn missed_shot_changes_nothing() {
    let mut p = Player::new();
    p.shots.push(Shot::new(10, 10));
    let mut inv = swarm_of(vec![Invader { x: 11, y: 10 }], 500, 1);
    assert!(!p.detect_hits(&mut inv));
    assert_eq!(inv.army.len(), 1);
    assert!(!p.shots[0].exploding);
}

#[test]
fn player_zero_elapsed_update_is_a_noop() {
    let mut p = Player::new();
    assert!(p.shoot());
    p.update(0);
    assert_eq!(p.shots.len(), 1);
    assert_eq!(p.shots[0].y, NUM_ROWS - 2);
    assert_eq!(p.shots[0].timer.time_left_ms, SHOT_FLIGHT_PERIOD_MS);
}

#[test]
fn input_events_move_and_fire() {
    let mut p = Player::new();
    assert!(!apply_input(&mut p, InputEvent::Left));
    assert_eq!(p.x, NUM_COLS / 2 - 1);
    assert!(!apply_input(&mut p, InputEvent::Right));
    assert_eq!(p.x, NUM_COLS / 2);
    assert!(apply_input(&mut p, InputEvent::Fire));
    assert!(apply_input(&mut p, InputEvent::Fire));
    assert!(!apply_input(&mut p, InputEvent::Fire));
    assert_eq!(p.shots.len(), MAX_SHOTS);
}
