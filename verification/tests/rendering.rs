use invaders::NUM_COLS;
use invaders::NUM_ROWS;
use invaders::frame::EMPTY_GLYPH;
use invaders::frame::EXPLOSION_GLYPH;
use invaders::frame::Frame;
use invaders::frame::INVADER_GLYPH_A;
use invaders::frame::INVADER_GLYPH_B;
use invaders::frame::SHIP_GLYPH;
use invaders::frame::SHOT_GLYPH;
use invaders::game::draw_frame;
use invaders::invader::Invader;
use invaders::invader::Invaders;
use invaders::player::Player;
use invaders::render::diff_frames;
use invaders::shot::Shot;
use invaders::timer::MoveTimer;

fn swarm_of(army: Vec<Invader>, period_ms: u64, direction: i32) -> Invaders {
    Invaders { army, move_timer: MoveTimer::from_millis(period_ms), direction }
}

#[test]
fn new_frame_is_blank() {
    let f = Frame::new();
    for x in 0..NUM_COLS {
        for y in 0..NUM_ROWS {
            assert_eq!(f.get(x, y), EMPTY_GLYPH);
        }
    }
}

#[test]
fn frame_set_writes_one_cell() {
    let mut f = Frame::new();
    f.set(3, 4, SHIP_GLYPH);
    for x in 0..NUM_COLS {
        for y in 0..NUM_ROWS {
            let expected = if x == 3 && y == 4 { SHIP_GLYPH } else { EMPTY_GLYPH };
            assert_eq!(f.get(x, y), expected);
        }
    }
}

#[test]
fn identical_frames_diff_to_nothing() {
    let a = Frame::new();
    let b = Frame::new();
    assert_eq!(diff_frames(&a, &b, false).len(), 0);
}

#[test]
fn one_changed_cell_yields_one_patch() {
    let a = Frame::new();
    let mut b = Frame::new();
    b.set(7, 2, SHOT_GLYPH);
    let patches = diff_frames(&a, &b, false);
    assert_eq!(patches.len(), 1);
    assert_eq!(patches[0].x, 7);
    assert_eq!(patches[0].y, 2);
    assert_eq!(patches[0].glyph, SHOT_GLYPH);
}

#[test]
fn force_redraw_patches_every_cell_in_order() {
    let a = Frame::new();
    let patches = diff_frames(&a, &a, true);
    assert_eq!(patches.len(), NUM_COLS * NUM_ROWS);
    let mut k = 0;
    for x in 0..NUM_COLS {
        for y in 0..NUM_ROWS {
            assert_eq!(patches[k].x, x);
            assert_eq!(patches[k].y, y);
            assert_eq!(patches[k].glyph, EMPTY_GLYPH);
            k += 1;
        }
    }
}

#[test]
fn draw_frame_places_every_entity() {
    let mut p = Player::new();
    p.shots.push(Shot::new(12, 7));
    let mut exploding = Shot::new(13, 8);
    exploding.explode();
    p.shots.push(exploding);
    // a fresh period: more than half the time left, so phase glyph A shows
    let inv = swarm_of(vec![Invader { x: 4, y: 2 }], 2000, 1);
    let f = draw_frame(&p, &inv);
    assert_eq!(f.get(4, 2), INVADER_GLYPH_A);
    assert_eq!(f.get(p.x, p.y), SHIP_GLYPH);
    assert_eq!(f.get(12, 7), SHOT_GLYPH);
    assert_eq!(f.get(13, 8), EXPLOSION_GLYPH);
    assert_eq!(f.get(0, 0), EMPTY_GLYPH);
}

#[test]
fn invader_phase_follows_the_move_timer() {
    let p = Player::new();
    let mut inv = swarm_of(vec![Invader { x: 4, y: 2 }], 2000, 1);
    // first half of the period: glyph A
    assert_eq!(draw_frame(&p, &inv).get(4, 2), INVADER_GLYPH_A);
    // past the halfway point: glyph B
    inv.update(1100);
    assert_eq!(draw_frame(&p, &inv).get(4, 2), INVADER_GLYPH_B);
}

#[test]
fn invaders_draw_over_projectiles() {
    let mut p = Player::new();
    p.shots.push(Shot::new(4, 2));
    let inv = swarm_of(vec![Invader { x: 4, y: 2 }], 2000, 1);
    let f = draw_frame(&p, &inv);
    assert_eq!(f.get(4, 2), INVADER_GLYPH_A);
}
