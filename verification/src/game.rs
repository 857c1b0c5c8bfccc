//! The orchestrator's decisions: how a key event acts on the player, what
//! one tick's frame looks like, and the win-before-loss verdict evaluated
//! after every tick. The loop around them — clock, keyboard, audio cues and
//! the render hand-off — lives outside the library.

use vstd::prelude::*;
use crate::NUM_COLS;
use crate::NUM_ROWS;
use crate::frame::Drawable;
use crate::frame::EMPTY_GLYPH;
use crate::frame::Frame;
use crate::frame::SHIP_GLYPH;
use crate::invader::Invaders;
use crate::invader::occupied;
use crate::player::MAX_SHOTS;
use crate::player::Player;
use crate::player::shot_glyph_at;
use crate::shot::Shot;

verus! {

/// A discrete key event the simulation reacts to. Quitting ends the loop
/// outside the library and never reaches the player.
#[derive(Clone, Copy, PartialEq, Eq, Structural, Debug)]
pub enum InputEvent {
    Left,
    Right,
    Fire,
}

/// The verdict after one tick.
#[derive(Clone, Copy, PartialEq, Eq, Structural, Debug)]
pub enum Outcome {
    Continue,
    Win,
    Lose,
}

/// Apply one key event to the player: step left, step right, or fire.
/// Returns whether a projectile was fired (the caller's cue for the firing
/// sound).
pub fn apply_input(player: &mut Player, event: InputEvent) -> (fired: bool)
    requires
        old(player).wf(),
    ensures
        final(player).wf(),
        event == InputEvent::Left ==> !fired && *final(player) == old(player).moved_left(),
        event == InputEvent::Right ==> !fired && *final(player) == old(player).moved_right(),
        event == InputEvent::Fire ==> {
            &&& fired == (old(player).shots@.len() < MAX_SHOTS)
            &&& (fired ==> final(player).shots@ == old(player).shots@.push(
                Shot::spec_new(old(player).x, (old(player).y - 1) as usize),
            ))
            &&& (!fired ==> *final(player) == *old(player))
            &&& final(player).x == old(player).x
            &&& final(player).y == old(player).y
        },
{
    match event {
        InputEvent::Left => {
            player.move_left();
            false
        },
        InputEvent::Right => {
            player.move_right();
            false
        },
        InputEvent::Fire => player.shoot(),
    }
}

/// The verdict the orchestrator must reach after a tick: a wiped-out swarm
/// is a win, and only a swarm that still stands and has reached the bottom
/// row is a loss — the win is checked first, so the tick that clears the
/// swarm never reads as a loss.
pub fn evaluate_outcome(invaders: &Invaders) -> (o: Outcome)
    ensures
        (o == Outcome::Win) <==> invaders.army@.len() == 0,
        (o == Outcome::Lose) <==> (invaders.army@.len() > 0 && exists|i: int|
            0 <= i < invaders.army@.len() && (#[trigger] invaders.army@[i]).y >= NUM_ROWS - 1),
        (o == Outcome::Continue) <==> (invaders.army@.len() > 0 && forall|i: int|
            0 <= i < invaders.army@.len() ==> (#[trigger] invaders.army@[i]).y < NUM_ROWS - 1),
{
    if invaders.all_killed() {
        Outcome::Win
    } else if invaders.reached_bottom() {
        Outcome::Lose
    } else {
        Outcome::Continue
    }
}

/// The glyph one tick's frame shows at column `x`, row `y`: an invader's
/// phase glyph where the swarm stands, else a projectile's glyph where one
/// flies or explodes (the last-drawn projectile winning the cell), else the
/// ship's glyph at the player, else an empty cell.
pub open spec fn cell_glyph(player: Player, invaders: Invaders, x: int, y: int) -> char {
    if occupied(invaders.army@, x, y) {
        invaders.glyph()
    } else {
        match shot_glyph_at(player.shots@, x, y) {
            Some(g) => g,
            None => if x == player.x && y == player.y {
                SHIP_GLYPH
            } else {
                EMPTY_GLYPH
            },
        }
    }
}

/// Build one tick's frame from scratch: the player (ship, then its
/// projectiles) draws first, the swarm second.
pub fn draw_frame(player: &Player, invaders: &Invaders) -> (f: Frame)
    requires
        player.wf(),
        invaders.wf(),
    ensures
        f.wf(),
        forall|x: int, y: int|
            0 <= x < NUM_COLS && 0 <= y < NUM_ROWS ==> #[trigger] f.at(x, y) == cell_glyph(
                *player,
                *invaders,
                x,
                y,
            ),
{
    let mut f = Frame::new();
    let ghost blank = f;
    player.draw(&mut f);
    let ghost after_player = f;
    invaders.draw(&mut f);
    proof {
        assert forall|x: int, y: int|
            0 <= x < NUM_COLS && 0 <= y < NUM_ROWS implies #[trigger] f.at(x, y) == cell_glyph(
            *player,
            *invaders,
            x,
            y,
        ) by {
            assert(after_player.at(x, y) == match shot_glyph_at(player.shots@, x, y) {
                Some(g) => g,
                None => if x == player.x && y == player.y {
                    SHIP_GLYPH
                } else {
                    blank.at(x, y)
                },
            });
        }
    }
    f
}

} // verus!
