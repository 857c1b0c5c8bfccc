use invaders::NUM_COLS;
use invaders::NUM_ROWS;
use invaders::game::Outcome;
use invaders::game::evaluate_outcome;
use invaders::invader::INITIAL_MOVE_PERIOD_MS;
use invaders::invader::Invader;
use invaders::invader::Invaders;
use invaders::invader::MIN_MOVE_PERIOD_MS;
use invaders::timer::MoveTimer;

fn swarm_of(army: Vec<Invader>, period_ms: u64, direction: i32) -> Invaders {
    Invaders { army, move_timer: MoveTimer::from_millis(period_ms), direction }
}

#[test]
fn new_swarm_spawns_checkerboard() {
    let inv = Invaders::new();
    // every 2nd interior column (2..=36) times every 2nd upper-half row (2..=8)
    assert_eq!(inv.army.len(), 18 * 4);
    assert_eq!(inv.direction, 1);
    assert_eq!(inv.move_timer.duration_ms, INITIAL_MOVE_PERIOD_MS);
    assert_eq!(inv.move_timer.time_left_ms, INITIAL_MOVE_PERIOD_MS);
    for invader in inv.army.iter() {
        assert!(invader.x > 1 && invader.x < NUM_COLS - 2);
        assert!(invader.y > 0 && invader.y < NUM_ROWS / 2);
        assert_eq!(invader.x % 2, 0);
        assert_eq!(invader.y % 2, 0);
    }
    assert_eq!(inv.army[0].x, 2);
    assert_eq!(inv.army[0].y, 2);
}

#[test]
fn swarm_stays_in_bounds_forever() {
    let mut inv = Invaders::new();
    for _ in 0..500 {
        inv.update(inv.move_timer.time_left_ms);
        for invader in inv.army.iter() {
            assert!(invader.x < NUM_COLS);
            assert!(invader.y < NUM_ROWS);
        }
    }
}

#[test]
fn lone_invader_at_left_edge_flips_and_descends() {
    // one invader at (0, 5) moving left on period 500; after the period
    // elapses the direction flips to right and the invader descends to
    // (0, 6) without moving horizontally
    let mut inv = swarm_of(vec![Invader { x: 0, y: 5 }], 500, -1);
    let moved = inv.update(500);
    assert!(moved);
    assert_eq!(inv.direction, 1);
    assert_eq!(inv.army.len(), 1);
    assert_eq!(inv.army[0].x, 0);
    assert_eq!(inv.army[0].y, 6);
    // the flip shortened the period
    assert_eq!(inv.move_timer.duration_ms, MIN_MOVE_PERIOD_MS);
}

#[test]
fn right_edge_flips_and_descends() {
    let mut inv = swarm_of(vec![Invader { x: NUM_COLS - 1, y: 3 }], 1000, 1);
    assert!(inv.update(1000));
    assert_eq!(inv.direction, -1);
    assert_eq!(inv.army[0].x, NUM_COLS - 1);
    assert_eq!(inv.army[0].y, 4);
    assert_eq!(inv.move_timer.duration_ms, 750);
}

#[test]
fn away_from_edges_moves_horizontally_only() {
    let mut inv = swarm_of(vec![Invader { x: 5, y: 5 }], 300, 1);
    assert!(inv.update(300));
    assert_eq!(inv.direction, 1);
    assert_eq!(inv.army[0].x, 6);
    assert_eq!(inv.army[0].y, 5);
    assert_eq!(inv.move_timer.duration_ms, 300);

    let mut inv = swarm_of(vec![Invader { x: 5, y: 5 }], 300, -1);
    assert!(inv.update(300));
    assert_eq!(inv.army[0].x, 4);
    assert_eq!(inv.army[0].y, 5);
}

#[test]
fn timer_not_due_means_no_movement() {
    let mut inv = swarm_of(vec![Invader { x: 5, y: 5 }], 300, 1);
    assert!(!inv.update(299));
    assert_eq!(inv.army[0].x, 5);
    assert_eq!(inv.army[0].y, 5);
    assert_eq!(inv.move_timer.time_left_ms, 1);
    assert!(inv.update(1));
    assert_eq!(inv.army[0].x, 6);
}

#[test]
fn move_period_never_drops_below_floor() {
    // a lone invader at the left edge moving left flips on every move, so
    // the period shrinks by one step each time until it hits the floor
    let mut inv = swarm_of(vec![Invader { x: 0, y: 1 }], INITIAL_MOVE_PERIOD_MS, -1);
    let mut last_period = inv.move_timer.duration_ms;
    for _ in 0..12 {
        // park the invader back at the edge so every tick is a flip tick
        inv.army[0].x = 0;
        inv.direction = -1;
        inv.army[0].y = 1;
        inv.update(inv.move_timer.time_left_ms);
        let period = inv.move_timer.duration_ms;
        assert!(period <= last_period);
        assert!(period >= MIN_MOVE_PERIOD_MS);
        last_period = period;
    }
    assert_eq!(last_period, MIN_MOVE_PERIOD_MS);
}

#[test]
fn kill_invader_at_miss_is_a_noop() {
    let mut inv = swarm_of(Vec::new(), 500, 1);
    assert!(!inv.kill_invader_at(3, 3));
    assert_eq!(inv.army.len(), 0);

    let mut inv = swarm_of(vec![Invader { x: 3, y: 4 }, Invader { x: 5, y: 6 }], 500, 1);
    assert!(!inv.kill_invader_at(4, 4));
    assert_eq!(inv.army.len(), 2);
    assert_eq!(inv.army[0].x, 3);
    assert_eq!(inv.army[1].x, 5);
}

#[test]
fn kill_invader_at_match_removes_exactly_one() {
    let mut inv = swarm_of(vec![Invader { x: 3, y: 4 }, Invader { x: 5, y: 6 }], 500, 1);
    assert!(inv.kill_invader_at(3, 4));
    assert_eq!(inv.army.len(), 1);
    assert_eq!(inv.army[0].x, 5);
    assert_eq!(inv.army[0].y, 6);

    // two invaders on the same cell: only the first goes
    let mut inv = swarm_of(vec![Invader { x: 2, y: 2 }, Invader { x: 2, y: 2 }], 500, 1);
    assert!(inv.kill_invader_at(2, 2));
    assert_eq!(inv.army.len(), 1);
}

#[test]
fn win_is_checked_before_loss() {
    // a cleared swarm is a win, and must not read as a loss even though its
    // "maximum y" defaults to the bottom check's degenerate case
    let empty = swarm_of(Vec::new(), 500, 1);
    assert!(empty.all_killed());
    assert!(!empty.reached_bottom());
    assert_eq!(evaluate_outcome(&empty), Outcome::Win);

    let at_bottom = swarm_of(vec![Invader { x: 7, y: NUM_ROWS - 1 }], 500, 1);
    assert!(!at_bottom.all_killed());
    assert!(at_bottom.reached_bottom());
    assert_eq!(evaluate_outcome(&at_bottom), Outcome::Lose);

    let alive = swarm_of(vec![Invader { x: 7, y: 5 }], 500, 1);
    assert_eq!(evaluate_outcome(&alive), Outcome::Continue);
}

#[test]
fn zero_elapsed_update_is_a_noop() {
    let mut inv = Invaders::new();
    let before_len = inv.army.len();
    let moved = inv.update(0);
    assert!(!moved);
    assert_eq!(inv.army.len(), before_len);
    assert_eq!(inv.army[0].x, 2);
    assert_eq!(inv.army[0].y, 2);
    assert_eq!(inv.direction, 1);
    assert_eq!(inv.move_timer.time_left_ms, INITIAL_MOVE_PERIOD_MS);
    assert_eq!(inv.move_timer.duration_ms, INITIAL_MOVE_PERIOD_MS);
}
