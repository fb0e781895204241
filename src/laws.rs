//! Properties of the game that hold across its operations.

use vstd::prelude::*;

use crate::game::{GameMode, Key, State};
use crate::obstacle::{gap_size, Obstacle, GAP_CENTER_END, GAP_CENTER_MIN};
use crate::player::{Player, START_X, START_Y};
use crate::{trunc_div, FRAME_DURATION_MS, SCREEN_WIDTH};

verus! {

/// A physics step raises the velocity by 0.2 (two tenths) up to at most 2.0,
/// for any velocity, and moves the column one stride of 5, never below zero.
/// Away from the bounds of `i32`, the row moves by the new velocity in whole
/// cells, truncated toward zero; when the new velocity is not negative that is
/// its floor.
pub proof fn lemma_physics_step(p: Player)
    ensures
        p.integrated().velocity == (if p.velocity + 2 < 20 { p.velocity + 2 } else { 20 }),
        p.x <= i32::MAX - 5 ==> p.integrated().x == (if p.x + 5 > 0 { p.x + 5 } else { 0 }),
        p.velocity >= -20 && i32::MIN + 2 <= p.y <= i32::MAX - 2 ==> p.integrated().y == p.y + trunc_div(
            p.integrated().velocity as int,
            10,
        ),
        p.velocity >= -2 && p.y <= i32::MAX - 2 ==> p.integrated().y == p.y + p.integrated().velocity / 10,
{
}

/// A flap sets the velocity to exactly -2.0 (minus twenty tenths), whatever it
/// was, and moves nothing.
pub proof fn lemma_flap_overrides(p: Player)
    ensures
        p.flapped().velocity == -20,
        p.flapped().x == p.x,
        p.flapped().y == p.y,
{
}

/// While a run goes on, the player's column never decreases and never goes
/// below zero.
pub proof fn lemma_x_monotone(s: State, elapsed: u32, key: Option<Key>, gap_y: i32)
    requires
        s.wf(),
        s.mode == GameMode::Playing,
        GAP_CENTER_MIN <= gap_y < GAP_CENTER_END,
    ensures
        s.next(elapsed as int, key, gap_y as int).player.x >= s.player.x,
        s.next(elapsed as int, key, gap_y as int).player.x >= 0,
{
}

/// Every spawned obstacle's gap size is `max(2, 20 - score)`.
pub proof fn lemma_gap_size(x: i32, score: i32, gap_y: i32)
    requires
        score >= 20 - i32::MAX,
    ensures
        Obstacle::spawned(x as int, score as int, gap_y as int).size == (if 20 - score > 2 { 20 - score } else { 2 }),
        gap_size(score as int) >= 2,
{
}

/// A collision happens exactly when the columns match and the row lies
/// outside `[gap_y - size / 2, gap_y + size / 2]`, the half size truncated.
pub proof fn lemma_collision(o: Obstacle, p: Player)
    ensures
        o.hits(p) <==> (p.x == o.x && !(o.gap_y - trunc_div(o.size as int, 2) <= p.y <= o.gap_y + trunc_div(
            o.size as int,
            2,
        ))),
{
}

/// Play on the menu or end screen starts a fresh run: score zero, the player
/// at rest at the start, a new obstacle one screen ahead sized for score
/// zero; the best score is kept, and is then at least the last run's score.
pub proof fn lemma_restart(s: State, elapsed: u32, gap_y: i32)
    requires
        s.wf(),
        s.mode != GameMode::Playing,
        GAP_CENTER_MIN <= gap_y < GAP_CENTER_END,
    ensures
        ({
            let t = s.next(elapsed as int, Some(Key::Play), gap_y as int);
            &&& t.mode == GameMode::Playing
            &&& t.score == 0
            &&& t.player == (Player { x: START_X, y: START_Y, velocity: 0 })
            &&& t.obstacle.x == SCREEN_WIDTH
            &&& t.obstacle.size == gap_size(0)
            &&& t.frame_time == 0
            &&& !t.is_new_record
            &&& t.max_score == s.max_score
            &&& s.mode == GameMode::End ==> t.max_score == (if s.score > s.max_score { s.score } else { s.max_score })
        }),
{
}

/// The record flag is set on the tick a run ends, exactly when the score
/// beats the best before it, and the best becomes that score; afterwards every
/// tick on the end screen but Play leaves the state, and so the flag, as it is.
pub proof fn lemma_record_latched(s: State, elapsed: u32, key: Option<Key>, gap_y: i32)
    requires
        s.wf(),
        GAP_CENTER_MIN <= gap_y < GAP_CENTER_END,
    ensures
        ({
            let t = s.next(elapsed as int, key, gap_y as int);
            &&& s.mode == GameMode::Playing && t.mode == GameMode::End ==> {
                &&& t.is_new_record == (t.score > s.max_score)
                &&& t.max_score == (if t.score > s.max_score { t.score } else { s.max_score })
            }
            &&& s.mode == GameMode::Playing && t.mode == GameMode::Playing ==> !t.is_new_record
            &&& s.mode == GameMode::End && key != Some(Key::Play) ==> t == s
        }),
{
}


/// Once set, the record flag and the best score stay as they are over any
/// two ticks on the end screen without Play.
pub proof fn lemma_record_kept(
    s: State,
    e1: u32,
    k1: Option<Key>,
    g1: i32,
    e2: u32,
    k2: Option<Key>,
    g2: i32,
)
    requires
        s.wf(),
        s.mode == GameMode::End,
        k1 != Some(Key::Play),
        k2 != Some(Key::Play),
    ensures
        ({
            let t = s.next(e1 as int, k1, g1 as int).next(e2 as int, k2, g2 as int);
            &&& t.mode == GameMode::End
            &&& t.is_new_record == s.is_new_record
            &&& t.max_score == s.max_score
            &&& t.score == s.score
        }),
{
}

/// During a run the gathered time stays under one physics step. A tick that
/// brings it to a full step or more takes exactly one step and resets it to
/// zero; any other tick adds its time and, without a flap, moves nothing.
pub proof fn lemma_accumulator(s: State, elapsed: u32, key: Option<Key>, gap_y: i32)
    requires
        s.wf(),
        s.mode == GameMode::Playing,
        GAP_CENTER_MIN <= gap_y < GAP_CENTER_END,
    ensures
        ({
            let t = s.next(elapsed as int, key, gap_y as int);
            &&& t.frame_time < FRAME_DURATION_MS
            &&& s.frame_time + elapsed >= FRAME_DURATION_MS ==> t.frame_time == 0
            &&& s.frame_time + elapsed >= FRAME_DURATION_MS && key != Some(Key::Flap) ==> t.player
                == State::stepped_in_run(s.player)
            &&& s.frame_time + elapsed < FRAME_DURATION_MS ==> t.frame_time == s.frame_time + elapsed
            &&& s.frame_time + elapsed < FRAME_DURATION_MS && key != Some(Key::Flap) ==> t.player == s.player
        }),
{
}

/// Passing an obstacle scores one point and spawns the next one a screen
/// ahead of the player, sized for the new score; otherwise score and
/// obstacle stay.
pub proof fn lemma_pass(s: State, elapsed: u32, key: Option<Key>, gap_y: i32)
    requires
        s.wf(),
        s.mode == GameMode::Playing,
        GAP_CENTER_MIN <= gap_y < GAP_CENTER_END,
    ensures
        ({
            let t = s.next(elapsed as int, key, gap_y as int);
            &&& t.player.x > s.obstacle.x ==> {
                &&& t.score == s.score + 1
                &&& t.obstacle.x == t.player.x + SCREEN_WIDTH
                &&& t.obstacle.size == gap_size(t.score as int)
                &&& t.obstacle.gap_y == gap_y
            }
            &&& t.player.x <= s.obstacle.x ==> t.score == s.score && t.obstacle == s.obstacle
        }),
{
}

} // verus!
