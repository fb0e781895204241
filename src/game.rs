use vstd::prelude::*;

use crate::draw::{centered, decimal, is_centered, is_glyph, is_print, labelled_number, print, Color, Draw};
use crate::obstacle::{gap_size, wall_ok, Obstacle, GAP_CENTER_END, GAP_CENTER_MIN};
use crate::player::{Player, START_X, START_Y};
use crate::{FRAME_DURATION_MS, MAX_WORLD_X, SCREEN_HEIGHT, SCREEN_WIDTH};

verus! {

/// Which screen the game is on.
#[derive(Clone, Copy, Debug, PartialEq, Eq, Structural)]
pub enum GameMode {
    Menu,
    Playing,
    End,
}

/// A key press that the game reacts to; any other key is no event.
#[derive(Clone, Copy, Debug, PartialEq, Eq, Structural)]
pub enum Key {
    Play,
    Quit,
    Flap,
}

/// The whole game.
#[derive(Clone, Copy, Debug, PartialEq, Eq, Structural)]
pub struct State {
    pub player: Player,
    /// Milliseconds gathered toward the next physics step.
    pub frame_time: u32,
    pub mode: GameMode,
    pub obstacle: Obstacle,
    /// Obstacles passed in this run.
    pub score: i32,
    /// Best score of this process.
    pub max_score: i32,
    /// Set when a run ends above the previous best, until the next run.
    pub is_new_record: bool,
}

/// The draw requests for the screen of state `s`.
pub open spec fn frame_ok(s: State, r: Seq<Draw>) -> bool {
    match s.mode {
        GameMode::Menu => {
            &&& r.len() == 5
            &&& r[0] is Cls
            &&& is_centered(r[1], 5, "Flappy Bird"@)
            &&& is_centered(r[2], 8, "Max Score: "@ + decimal(s.max_score as nat))
            &&& is_centered(r[3], 10, "Play (P)"@)
            &&& is_centered(r[4], 15, "Quit (Q)"@)
        },
        GameMode::End => {
            let k: int = if s.is_new_record { 1 } else { 0 };
            &&& r.len() == 6 + k
            &&& r[0] is Cls
            &&& is_centered(r[1], 5, "Game Over"@)
            &&& s.is_new_record ==> is_centered(r[2], 7, "New Record!"@)
            &&& is_centered(r[2 + k], 9, "Score: "@ + decimal(s.score as nat))
            &&& is_centered(r[3 + k], 11, "Max Score: "@ + decimal(s.max_score as nat))
            &&& is_centered(r[4 + k], 13, "Play (P)"@)
            &&& is_centered(r[5 + k], 15, "Quit (Q)"@)
        },
        GameMode::Playing => {
            &&& r.len() >= 4
            &&& r[0] == Draw::ClsBg(Color::Navy)
            &&& is_glyph(r[1], 0, s.player.y as int, '@', Color::Yellow, Color::Black)
            &&& is_print(r[2], 0, 0, "Press Space to Flap"@)
            &&& is_print(r[3], 0, 2, "Score: "@ + decimal(s.score as nat))
            &&& wall_ok(s.obstacle, s.obstacle.x - s.player.x, r.subrange(4, r.len() as int))
        },
    }
}

impl State {
    /// Holds of every state that `new` and `step` produce. The bound of the
    /// score by the obstacle's column keeps the score from overflowing: each
    /// pass moves the next obstacle more than one column further.
    pub open spec fn wf(self) -> bool {
        &&& 0 <= self.player.x <= MAX_WORLD_X
        &&& self.obstacle.wf()
        &&& self.obstacle.x >= 0
        &&& self.score >= 0
        &&& self.max_score >= 0
        &&& self.score <= self.obstacle.x
        &&& self.frame_time < FRAME_DURATION_MS
        &&& self.mode == GameMode::End ==> self.max_score >= self.score
        &&& self.mode != GameMode::End ==> !self.is_new_record
    }

    /// A fresh run: the player at the start, an obstacle one screen ahead
    /// sized for score zero, nothing gathered, no record.
    pub open spec fn restarted(self, gap_y: int) -> State {
        State {
            player: Player { x: START_X, y: START_Y, velocity: 0 },
            frame_time: 0,
            mode: GameMode::Playing,
            obstacle: Obstacle::spawned(SCREEN_WIDTH as int, 0, gap_y),
            score: 0,
            max_score: self.max_score,
            is_new_record: false,
        }
    }

    /// The player after a physics step within a run: its column stops one
    /// screen short of the largest `i32`, so the next obstacle's column fits.
    pub open spec fn stepped_in_run(p: Player) -> Player {
        let q = p.integrated();
        if q.x > MAX_WORLD_X { Player { x: MAX_WORLD_X, ..q } } else { q }
    }

    /// One tick of play: gather time, take at most one physics step, flap
    /// on `Flap`, count a passed obstacle and spawn the next one screen
    /// ahead, then end the run on leaving the screen or a crash, latching
    /// the record.
    pub open spec fn played(self, elapsed: int, key: Option<Key>, gap_y: int) -> State {
        let acc: int = self.frame_time + elapsed;
        let due = acc >= FRAME_DURATION_MS;
        let p1 = if due { State::stepped_in_run(self.player) } else { self.player };
        let p = if key == Some(Key::Flap) { p1.flapped() } else { p1 };
        let passed = p.x > self.obstacle.x;
        let score: int = if passed { self.score + 1 } else { self.score as int };
        let obstacle = if passed {
            Obstacle::spawned(p.x + SCREEN_WIDTH, score, gap_y)
        } else {
            self.obstacle
        };
        let lost = p.y > SCREEN_HEIGHT || obstacle.hits(p);
        State {
            player: p,
            frame_time: if due { 0 } else { acc as u32 },
            mode: if lost { GameMode::End } else { GameMode::Playing },
            obstacle,
            score: score as i32,
            max_score: if lost && score > self.max_score { score as i32 } else { self.max_score },
            is_new_record: lost && score > self.max_score,
        }
    }

    /// The state after one tick with `elapsed` milliseconds, `key`, and
    /// `gap_y` as the gap centre of any obstacle spawned in it.
    pub open spec fn next(self, elapsed: int, key: Option<Key>, gap_y: int) -> State {
        match self.mode {
            GameMode::Playing => self.played(elapsed, key, gap_y),
            _ => if key == Some(Key::Play) { self.restarted(gap_y) } else { self },
        }
    }

    /// Whether a tick with `key` asks the host to quit.
    pub open spec fn quits(self, key: Option<Key>) -> bool {
        self.mode != GameMode::Playing && key == Some(Key::Quit)
    }

    /// The game at its menu: no run yet, no best score.
    pub fn new() -> (r: State)
        ensures
            r.wf(),
            r.mode == GameMode::Menu,
            r.player == (Player { x: START_X, y: START_Y, velocity: 0 }),
            r.obstacle.x == SCREEN_WIDTH,
            r.obstacle.size == gap_size(0),
            r.frame_time == 0,
            r.score == 0,
            r.max_score == 0,
            !r.is_new_record,
    {
        State {
            player: Player::new(START_X, START_Y),
            frame_time: 0,
            mode: GameMode::Menu,
            obstacle: Obstacle::new(SCREEN_WIDTH, 0),
            score: 0,
            max_score: 0,
            is_new_record: false,
        }
    }

    /// Starts a fresh run, keeping the best score.
    pub fn re_start(&mut self, gap_y: i32)
        requires
            GAP_CENTER_MIN <= gap_y < GAP_CENTER_END,
        ensures
            *final(self) == old(self).restarted(gap_y as int),
    {
        self.player = Player::new(START_X, START_Y);
        self.frame_time = 0;
        self.mode = GameMode::Playing;
        self.obstacle = Obstacle::spawn(SCREEN_WIDTH, 0, gap_y);
        self.score = 0;
        self.is_new_record = false;
    }

    /// Handles a tick on the menu or the end screen.
    fn on_screen(&mut self, key: Option<Key>, gap_y: i32) -> (quit: bool)
        requires
            old(self).wf(),
            old(self).mode != GameMode::Playing,
            GAP_CENTER_MIN <= gap_y < GAP_CENTER_END,
        ensures
            *final(self) == old(self).next(0, key, gap_y as int),
            quit == old(self).quits(key),
    {
        match key {
            Some(Key::Play) => {
                self.re_start(gap_y);
                false
            },
            Some(Key::Quit) => true,
            _ => false,
        }
    }

    /// Handles a tick of play.
    fn play(&mut self, elapsed_ms: u32, key: Option<Key>, gap_y: i32)
        requires
            old(self).wf(),
            old(self).mode == GameMode::Playing,
            GAP_CENTER_MIN <= gap_y < GAP_CENTER_END,
        ensures
            *final(self) == old(self).played(elapsed_ms as int, key, gap_y as int),
    {
        let acc: u64 = self.frame_time as u64 + elapsed_ms as u64;
        if acc >= FRAME_DURATION_MS as u64 {
            self.frame_time = 0;
            self.player.gravity_and_move();
            if self.player.x > MAX_WORLD_X {
                self.player.x = MAX_WORLD_X;
            }
        } else {
            self.frame_time = acc as u32;
        }
        if key == Some(Key::Flap) {
            self.player.flap();
        }
        if self.player.x > self.obstacle.x {
            self.score = self.score + 1;
            self.obstacle = Obstacle::spawn(self.player.x + SCREEN_WIDTH, self.score, gap_y);
        }
        if self.player.y > SCREEN_HEIGHT || self.obstacle.hit_obstacle(&self.player) {
            self.mode = GameMode::End;
            if self.score > self.max_score {
                self.max_score = self.score;
                self.is_new_record = true;
            }
        }
    }

    /// One tick with `elapsed_ms` milliseconds since the last one and the
    /// key pressed in it, if any; an obstacle spawned in it has its gap
    /// centred on `gap_y`. Returns whether the host should quit.
    pub fn step(&mut self, elapsed_ms: u32, key: Option<Key>, gap_y: i32) -> (quit: bool)
        requires
            old(self).wf(),
            GAP_CENTER_MIN <= gap_y < GAP_CENTER_END,
        ensures
            final(self).wf(),
            *final(self) == old(self).next(elapsed_ms as int, key, gap_y as int),
            quit == old(self).quits(key),
    {
        match self.mode {
            GameMode::Playing => {
                self.play(elapsed_ms, key, gap_y);
                false
            },
            _ => self.on_screen(key, gap_y),
        }
    }

    /// The draw requests for the current screen.
    pub fn frame(&self) -> (r: Vec<Draw>)
        requires
            self.wf(),
        ensures
            frame_ok(*self, r@),
    {
        let mut out: Vec<Draw> = Vec::new();
        match self.mode {
            GameMode::Menu => {
                out.push(Draw::Cls);
                out.push(centered(5, "Flappy Bird".to_owned()));
                out.push(centered(8, labelled_number("Max Score: ", self.max_score)));
                out.push(centered(10, "Play (P)".to_owned()));
                out.push(centered(15, "Quit (Q)".to_owned()));
            },
            GameMode::End => {
                out.push(Draw::Cls);
                out.push(centered(5, "Game Over".to_owned()));
                if self.is_new_record {
                    out.push(centered(7, "New Record!".to_owned()));
                }
                out.push(centered(9, labelled_number("Score: ", self.score)));
                out.push(centered(11, labelled_number("Max Score: ", self.max_score)));
                out.push(centered(13, "Play (P)".to_owned()));
                out.push(centered(15, "Quit (Q)".to_owned()));
            },
            GameMode::Playing => {
                out.push(Draw::ClsBg(Color::Navy));
                out.push(Draw::Glyph { x: 0, y: self.player.y, glyph: '@', fg: Color::Yellow, bg: Color::Black });
                out.push(print(0, 0, "Press Space to Flap".to_owned()));
                out.push(print(0, 2, labelled_number("Score: ", self.score)));
                let mut wall = self.obstacle.render(self.player.x);
                let ghost w = wall@;
                out.append(&mut wall);
                assert(out@.subrange(4, out@.len() as int) =~= w);
            },
        }
        out
    }

    /// One tick as `step`, with the gap centre of any obstacle spawned in
    /// it drawn at random. Returns whether the host should quit.
    pub fn tick(&mut self, elapsed_ms: u32, key: Option<Key>) -> (quit: bool)
        requires
            old(self).wf(),
        ensures
            final(self).wf(),
            exists|g: int|
                GAP_CENTER_MIN <= g < GAP_CENTER_END && *final(self) == old(self).next(elapsed_ms as int, key, g),
            quit == old(self).quits(key),
    {
        let g = crate::obstacle::random_gap_center();
        self.step(elapsed_ms, key, g)
    }
}

} // verus!
