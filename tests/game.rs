use flappy_rush::draw::{labelled_number, Color, Draw};
use flappy_rush::game::{GameMode, Key, State};
use flappy_rush::obstacle::Obstacle;
use flappy_rush::player::Player;

fn centered(row: i32, text: &str) -> Draw {
    Draw::Centered { row, text: text.to_string() }
}

fn playing_state() -> State {
    let mut s = State::new();
    assert!(!s.step(0, Some(Key::Play), 20));
    s
}

#[test]
fn new_state_is_menu() {
    let s = State::new();
    assert_eq!(s.mode, GameMode::Menu);
    assert_eq!(s.player, Player { x: 5, y: 25, velocity: 0 });
    assert_eq!(s.obstacle.x, 80);
    assert_eq!(s.obstacle.size, 20);
    assert!(s.obstacle.gap_y >= 10 && s.obstacle.gap_y < 30);
    assert_eq!(s.score, 0);
    assert_eq!(s.max_score, 0);
    assert_eq!(s.frame_time, 0);
    assert!(!s.is_new_record);
}

#[test]
fn gravity_from_rest() {
    let mut p = Player::new(5, 25);
    p.gravity_and_move();
    assert_eq!(p, Player { x: 10, y: 25, velocity: 2 });
    for _ in 0..9 {
        p.gravity_and_move();
    }
    assert_eq!(p.velocity, 20);
    p.gravity_and_move();
    assert_eq!(p.velocity, 20);
}

#[test]
fn row_moves_by_whole_cells_of_velocity() {
    let mut p = Player { x: 0, y: 30, velocity: 8 };
    p.gravity_and_move();
    assert_eq!(p, Player { x: 5, y: 31, velocity: 10 });
    let mut q = Player { x: 0, y: 30, velocity: 18 };
    q.gravity_and_move();
    assert_eq!(q, Player { x: 5, y: 32, velocity: 20 });
}

#[test]
fn upward_velocity_truncates_toward_zero() {
    let mut p = Player { x: 0, y: 30, velocity: -20 };
    p.gravity_and_move();
    assert_eq!(p, Player { x: 5, y: 29, velocity: -18 });
}

#[test]
fn column_never_negative() {
    let mut p = Player { x: -100, y: 0, velocity: 0 };
    p.gravity_and_move();
    assert_eq!(p.x, 0);
}

#[test]
fn flap_overrides_velocity() {
    for v in [-20, -3, 0, 7, 20] {
        let mut p = Player { x: 3, y: 4, velocity: v };
        p.flap();
        assert_eq!(p, Player { x: 3, y: 4, velocity: -20 });
    }
}

#[test]
fn gap_size_shrinks_with_score() {
    assert_eq!(Obstacle::spawn(100, 0, 15).size, 20);
    assert_eq!(Obstacle::spawn(100, 1, 15).size, 19);
    assert_eq!(Obstacle::spawn(100, 17, 15).size, 3);
    assert_eq!(Obstacle::spawn(100, 18, 15).size, 2);
    assert_eq!(Obstacle::spawn(100, 25, 15).size, 2);
    let o = Obstacle::spawn(100, 4, 15);
    assert_eq!(o, Obstacle { x: 100, gap_y: 15, size: 16 });
}

#[test]
fn random_obstacle_keeps_its_ranges() {
    for _ in 0..50 {
        let o = Obstacle::new(40, 3);
        assert_eq!(o.x, 40);
        assert_eq!(o.size, 17);
        assert!(o.gap_y >= 10 && o.gap_y < 30);
    }
}

#[test]
fn collision_on_odd_gap() {
    let o = Obstacle::spawn(100, 1, 20);
    let at = |y: i32| Player { x: 100, y, velocity: 0 };
    assert!(o.hit_obstacle(&at(10)));
    assert!(!o.hit_obstacle(&at(11)));
    assert!(!o.hit_obstacle(&at(20)));
    assert!(!o.hit_obstacle(&at(29)));
    assert!(o.hit_obstacle(&at(30)));
    assert!(!o.hit_obstacle(&Player { x: 99, y: 0, velocity: 0 }));
    assert!(!o.hit_obstacle(&Player { x: 101, y: 45, velocity: 0 }));
}

#[test]
fn wall_rows_skip_the_gap() {
    let o = Obstacle::spawn(100, 0, 20);
    let wall = o.render(70);
    assert_eq!(wall.len(), 30);
    let bar = |y: i32| Draw::Glyph { x: 30, y, glyph: '|', fg: Color::Red, bg: Color::Black };
    for y in 0..10 {
        assert_eq!(wall[y as usize], bar(y));
    }
    for y in 30..50 {
        assert_eq!(wall[(y - 20) as usize], bar(y));
    }
}

#[test]
fn menu_frame_and_keys() {
    let mut s = State::new();
    s.max_score = 12;
    let f = s.frame();
    assert_eq!(f, vec![
        Draw::Cls,
        centered(5, "Flappy Bird"),
        centered(8, "Max Score: 12"),
        centered(10, "Play (P)"),
        centered(15, "Quit (Q)"),
    ]);
    let before = s;
    assert!(!s.step(30, Some(Key::Flap), 12));
    assert_eq!(s, before);
    assert!(!s.step(30, None, 12));
    assert_eq!(s, before);
    assert!(s.step(30, Some(Key::Quit), 12));
    assert_eq!(s, before);
}

#[test]
fn quit_is_ignored_while_playing() {
    let mut s = playing_state();
    assert!(!s.step(10, Some(Key::Quit), 20));
    assert_eq!(s.mode, GameMode::Playing);
    assert_eq!(s.frame_time, 10);
}

#[test]
fn accumulator_fires_once_at_threshold() {
    let mut s = playing_state();
    assert!(!s.step(74, None, 20));
    assert_eq!(s.frame_time, 74);
    assert_eq!(s.player, Player { x: 5, y: 25, velocity: 0 });
    assert!(!s.step(1, None, 20));
    assert_eq!(s.frame_time, 0);
    assert_eq!(s.player, Player { x: 10, y: 25, velocity: 2 });
}

#[test]
fn long_stall_takes_a_single_step() {
    let mut s = playing_state();
    assert!(!s.step(1000, None, 20));
    assert_eq!(s.frame_time, 0);
    assert_eq!(s.player, Player { x: 10, y: 25, velocity: 2 });
}

#[test]
fn flap_applies_between_physics_steps() {
    let mut s = playing_state();
    assert!(!s.step(10, Some(Key::Flap), 20));
    assert_eq!(s.player, Player { x: 5, y: 25, velocity: -20 });
    assert_eq!(s.frame_time, 10);
}

#[test]
fn playing_frame() {
    let mut s = playing_state();
    s.score = 4;
    let f = s.frame();
    assert_eq!(f[0], Draw::ClsBg(Color::Navy));
    assert_eq!(f[1], Draw::Glyph { x: 0, y: 25, glyph: '@', fg: Color::Yellow, bg: Color::Black });
    assert_eq!(f[2], Draw::Print { x: 0, y: 0, text: "Press Space to Flap".to_string() });
    assert_eq!(f[3], Draw::Print { x: 0, y: 2, text: "Score: 4".to_string() });
    assert_eq!(f.len(), 4 + 30);
    assert_eq!(f[4], Draw::Glyph { x: 75, y: 0, glyph: '|', fg: Color::Red, bg: Color::Black });
}

#[test]
fn passing_an_obstacle_scores_and_respawns() {
    let mut s = playing_state();
    s.player = Player { x: 80, y: 20, velocity: -20 };
    assert!(!s.step(75, None, 12));
    assert_eq!(s.player.x, 85);
    assert_eq!(s.score, 1);
    assert_eq!(s.obstacle, Obstacle { x: 165, gap_y: 12, size: 19 });
    assert_eq!(s.mode, GameMode::Playing);
}

#[test]
fn falling_off_screen_ends_the_run() {
    let mut s = playing_state();
    s.player = Player { x: 20, y: 49, velocity: 20 };
    assert!(!s.step(75, None, 20));
    assert_eq!(s.player.y, 51);
    assert_eq!(s.mode, GameMode::End);
    assert!(!s.is_new_record);
}

#[test]
fn three_points_then_crash_sets_record() {
    let mut s = playing_state();
    let mut ticks = 0;
    while s.score < 3 {
        let key = if s.player.y >= 24 { Some(Key::Flap) } else { None };
        assert!(!s.step(75, key, 20));
        assert_eq!(s.mode, GameMode::Playing);
        ticks += 1;
        assert!(ticks < 1000);
    }
    while s.mode == GameMode::Playing {
        assert!(!s.step(75, Some(Key::Flap), 20));
        ticks += 1;
        assert!(ticks < 2000);
    }
    assert_eq!(s.mode, GameMode::End);
    assert_eq!(s.player.x, s.obstacle.x);
    assert_eq!(s.score, 3);
    assert_eq!(s.max_score, 3);
    assert!(s.is_new_record);
    let f = s.frame();
    assert_eq!(f, vec![
        Draw::Cls,
        centered(5, "Game Over"),
        centered(7, "New Record!"),
        centered(9, "Score: 3"),
        centered(11, "Max Score: 3"),
        centered(13, "Play (P)"),
        centered(15, "Quit (Q)"),
    ]);
    // the end screen keeps the record on later ticks
    for _ in 0..5 {
        assert!(!s.step(16, None, 20));
        assert!(s.is_new_record);
        assert_eq!(s.max_score, 3);
    }
    assert_eq!(s.frame(), f);
}

#[test]
fn run_below_best_sets_no_record() {
    let mut s = playing_state();
    s.max_score = 5;
    s.score = 2;
    s.player = Player { x: 20, y: 50, velocity: 20 };
    assert!(!s.step(75, None, 20));
    assert_eq!(s.mode, GameMode::End);
    assert_eq!(s.max_score, 5);
    assert!(!s.is_new_record);
    assert_eq!(s.frame().len(), 6);
    assert_eq!(s.frame()[2], centered(9, "Score: 2"));
}

#[test]
fn play_from_end_restarts() {
    let mut s = State {
        player: Player { x: 400, y: 51, velocity: 20 },
        frame_time: 40,
        mode: GameMode::End,
        obstacle: Obstacle { x: 480, gap_y: 15, size: 15 },
        score: 5,
        max_score: 5,
        is_new_record: true,
    };
    assert!(!s.step(20, Some(Key::Play), 17));
    assert_eq!(s.mode, GameMode::Playing);
    assert_eq!(s.score, 0);
    assert_eq!(s.player, Player { x: 5, y: 25, velocity: 0 });
    assert_eq!(s.obstacle, Obstacle { x: 80, gap_y: 17, size: 20 });
    assert_eq!(s.frame_time, 0);
    assert_eq!(s.max_score, 5);
    assert!(!s.is_new_record);
}

#[test]
fn quit_from_end() {
    let mut s = State {
        player: Player { x: 400, y: 51, velocity: 20 },
        frame_time: 0,
        mode: GameMode::End,
        obstacle: Obstacle { x: 480, gap_y: 15, size: 15 },
        score: 5,
        max_score: 5,
        is_new_record: false,
    };
    assert!(s.step(20, Some(Key::Quit), 17));
    assert_eq!(s.mode, GameMode::End);
}

#[test]
fn tick_draws_gap_in_range() {
    for _ in 0..20 {
        let mut s = State::new();
        assert!(!s.tick(5, Some(Key::Play)));
        assert_eq!(s.mode, GameMode::Playing);
        assert_eq!(s.obstacle.x, 80);
        assert!(s.obstacle.gap_y >= 10 && s.obstacle.gap_y < 30);
    }
}

#[test]
fn coordinates_saturate_at_their_limits() {
    let mut p = Player { x: i32::MAX - 5, y: i32::MAX, velocity: 20 };
    p.gravity_and_move();
    assert_eq!(p, Player { x: i32::MAX, y: i32::MAX, velocity: 20 });
    let mut r = Player { x: i32::MAX - 2, y: 0, velocity: 0 };
    r.gravity_and_move();
    assert_eq!(r.x, i32::MAX);
    let mut q = Player { x: 0, y: i32::MIN, velocity: -40 };
    q.gravity_and_move();
    assert_eq!(q, Player { x: 5, y: i32::MIN, velocity: -38 });
}

#[test]
fn run_stops_a_screen_short_of_the_largest_column() {
    let mut s = playing_state();
    s.player = Player { x: 2147483565, y: 20, velocity: 0 };
    s.obstacle = Obstacle { x: 2147483566 + 80, gap_y: 20, size: 20 };
    assert!(!s.step(75, None, 20));
    assert_eq!(s.player.x, 2147483567);
    assert!(!s.step(75, None, 20));
    assert_eq!(s.player.x, 2147483567);
    assert_eq!(s.mode, GameMode::Playing);
}

#[test]
fn crash_at_score_three_from_midway() {
    let mut s = State {
        player: Player { x: 75, y: 20, velocity: 0 },
        frame_time: 0,
        mode: GameMode::Playing,
        obstacle: Obstacle { x: 80, gap_y: 29, size: 17 },
        score: 3,
        max_score: 0,
        is_new_record: false,
    };
    assert!(!s.step(75, None, 20));
    assert_eq!(s.player.x, 80);
    assert_eq!(s.mode, GameMode::End);
    assert_eq!(s.score, 3);
    assert_eq!(s.max_score, 3);
    assert!(s.is_new_record);
}

#[test]
fn collision_on_any_obstacle() {
    let o = Obstacle { x: 7, gap_y: i32::MAX, size: i32::MAX };
    assert!(!o.hit_obstacle(&Player { x: 7, y: i32::MAX, velocity: 0 }));
    assert!(o.hit_obstacle(&Player { x: 7, y: 0, velocity: 0 }));
    let n = Obstacle { x: 7, gap_y: 20, size: -5 };
    assert!(n.hit_obstacle(&Player { x: 7, y: 20, velocity: 0 }));
    assert!(n.hit_obstacle(&Player { x: 7, y: 18, velocity: 0 }));
    assert!(!n.hit_obstacle(&Player { x: 8, y: 18, velocity: 0 }));
}

#[test]
fn spawn_with_negative_score() {
    assert_eq!(Obstacle::spawn(0, -5, 12).size, 25);
}

#[test]
fn labels_with_decimal_numbers() {
    assert_eq!(labelled_number("Score: ", 0), "Score: 0");
    assert_eq!(labelled_number("Score: ", 7), "Score: 7");
    assert_eq!(labelled_number("n=", 1234567890), "n=1234567890");
    assert_eq!(labelled_number("", i32::MAX), "2147483647");
}
