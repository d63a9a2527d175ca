use flappy::{pluralize, GameMode, GameRng, Input, Obstacle, Player, RandomSource, State, TextLine};

/// A source that hands out a fixed sequence, over and over.
struct Fixed {
    values: Vec<i32>,
    next: usize,
}

impl Fixed {
    fn new(values: Vec<i32>) -> Fixed {
        Fixed { values, next: 0 }
    }
}

impl RandomSource for Fixed {
    fn range(&mut self, _low: i32, _high: i32) -> i32 {
        let v = self.values[self.next % self.values.len()];
        self.next += 1;
        v
    }
}

fn playing_state(rng: &mut Fixed) -> State {
    let mut s = State::new(rng);
    s.tick(rng, Input::SelectPlay, 0);
    assert_eq!(s.mode, GameMode::Playing);
    s
}

#[test]
fn gravity_velocity_sequence_caps_at_terminal() {
    let mut p = Player::new(5, 250);
    let mut seen = Vec::new();
    for _ in 0..15 {
        p.gravity_and_move();
        seen.push(p.velocity);
    }
    assert_eq!(seen, vec![2, 4, 6, 8, 10, 12, 14, 16, 18, 20, 20, 20, 20, 20, 20]);
    assert_eq!(p.x, 20);
}

#[test]
fn gravity_step_moves_then_clamps_at_top() {
    let mut p = Player::new(0, 10);
    p.flap();
    assert_eq!(p.velocity, -20);
    p.gravity_and_move();
    // velocity -1.8 applied to height 1.0 would go above the top edge
    assert_eq!(p.velocity, -18);
    assert_eq!(p.y, 0);
    assert_eq!(p.x, 1);
    assert_eq!(p.frame, 1);
}

#[test]
fn gravity_step_position_after_acceleration() {
    let mut p = Player::new(0, 250);
    p.gravity_and_move();
    assert_eq!(p.y, 252);
    p.gravity_and_move();
    assert_eq!(p.y, 256);
}

#[test]
fn animation_frame_wraps_after_six_steps() {
    let mut p = Player::new(0, 250);
    for _ in 0..6 {
        p.gravity_and_move();
    }
    assert_eq!(p.frame, 0);
    p.gravity_and_move();
    assert_eq!(p.frame, 1);
}

#[test]
fn hit_inside_gap_is_a_miss() {
    let o = Obstacle { x: 30, gap_y: 25, size: 10 };
    assert_eq!(o.gap_top(), 20);
    assert_eq!(o.gap_bottom(), 30);
    let p = Player::new(30, 250);
    assert!(!o.is_hit(&p));
}

#[test]
fn hit_above_gap() {
    let o = Obstacle { x: 30, gap_y: 25, size: 10 };
    let p = Player::new(30, 50);
    assert!(o.is_hit(&p));
}

#[test]
fn hit_on_gap_edges_is_a_miss() {
    let o = Obstacle { x: 30, gap_y: 25, size: 10 };
    assert!(!o.is_hit(&Player::new(30, 200)));
    assert!(!o.is_hit(&Player::new(30, 300)));
    assert!(o.is_hit(&Player::new(30, 199)));
    assert!(o.is_hit(&Player::new(30, 301)));
}

#[test]
fn hit_needs_matching_column() {
    let o = Obstacle { x: 30, gap_y: 25, size: 10 };
    assert!(!o.is_hit(&Player::new(29, 50)));
    assert!(!o.is_hit(&Player::new(31, 50)));
}

#[test]
fn gap_size_shrinks_with_score() {
    assert_eq!(Obstacle::new(80, 0, 25).size, 20);
    assert_eq!(Obstacle::new(80, 5, 25).size, 15);
    assert_eq!(Obstacle::new(80, 17, 25).size, 3);
    assert_eq!(Obstacle::new(80, 18, 25).size, 2);
    assert_eq!(Obstacle::new(80, 19, 25).size, 2);
    assert_eq!(Obstacle::new(80, i32::MAX, 25).size, 2);
}

#[test]
fn gap_size_for_negative_score() {
    assert_eq!(Obstacle::new(80, -5, 25).size, 25);
    assert!(Obstacle::new(80, i32::MIN, 25).size >= 2);
}

#[test]
fn gap_center_out_of_range_is_clamped() {
    assert_eq!(Obstacle::new(80, 0, 25).gap_y, 25);
    assert_eq!(Obstacle::new(80, 0, 3).gap_y, 10);
    assert_eq!(Obstacle::new(80, 0, 40).gap_y, 39);
    assert_eq!(Obstacle::new(80, 0, 10).gap_y, 10);
    assert_eq!(Obstacle::new(80, 0, 39).gap_y, 39);
    assert_eq!(Obstacle::new(7, 0, 25).x, 7);
}

#[test]
fn pluralize_picks_noun() {
    assert_eq!(pluralize(1, "point", "points"), "1 point");
    assert_eq!(pluralize(0, "point", "points"), "0 points");
    assert_eq!(pluralize(2, "point", "points"), "2 points");
    assert_eq!(pluralize(7, "point", "points"), "7 points");
    assert_eq!(pluralize(10, "point", "points"), "10 points");
    assert_eq!(pluralize(1907, "point", "points"), "1907 points");
    assert_eq!(pluralize(-1, "point", "points"), "-1 points");
    assert_eq!(pluralize(i32::MAX, "point", "points"), "2147483647 points");
    assert_eq!(pluralize(i32::MIN, "point", "points"), "-2147483648 points");
}

#[test]
fn new_game_starts_on_menu() {
    let mut rng = Fixed::new(vec![17]);
    let s = State::new(&mut rng);
    assert_eq!(s.mode, GameMode::Menu);
    assert_eq!(s.obstacle.x, 80);
    assert_eq!(s.obstacle.gap_y, 17);
    assert_eq!(s.obstacle.size, 20);
    assert_eq!(s.score, 0);
    assert!(!s.quitting);
}

#[test]
fn menu_renders_title_and_options() {
    let mut rng = Fixed::new(vec![17]);
    let mut s = State::new(&mut rng);
    let r = s.tick(&mut rng, Input::Idle, 16000);
    assert_eq!(r.kind, GameMode::Menu);
    assert_eq!(r.texts, vec![TextLine::Title, TextLine::PlayOption, TextLine::QuitOption]);
    assert!(r.sprites.is_empty());
    assert_eq!(s.mode, GameMode::Menu);
    assert_eq!(rng.next, 1);
}

#[test]
fn menu_quit_raises_flag_and_keeps_mode() {
    let mut rng = Fixed::new(vec![17]);
    let mut s = State::new(&mut rng);
    s.tick(&mut rng, Input::SelectQuit, 0);
    assert!(s.quitting);
    assert_eq!(s.mode, GameMode::Menu);
}

#[test]
fn flap_is_ignored_on_menu() {
    let mut rng = Fixed::new(vec![17]);
    let mut s = State::new(&mut rng);
    s.tick(&mut rng, Input::Flap, 50000);
    assert_eq!(s.mode, GameMode::Menu);
    assert_eq!(s.player.velocity, 0);
}

#[test]
fn play_starts_fresh_session() {
    let mut rng = Fixed::new(vec![17, 33]);
    let mut s = State::new(&mut rng);
    s.tick(&mut rng, Input::SelectPlay, 0);
    assert_eq!(s.mode, GameMode::Playing);
    assert_eq!(s.obstacle.gap_y, 33);
    assert_eq!(s.obstacle.x, 80);
    assert_eq!(s.player.x, 5);
    assert_eq!(s.player.y, 250);
    assert_eq!(s.frame_time, 0);
}

#[test]
fn no_step_until_threshold_exceeded() {
    let mut rng = Fixed::new(vec![25]);
    let mut s = playing_state(&mut rng);
    s.tick(&mut rng, Input::Idle, 30000);
    assert_eq!(s.player.x, 5);
    assert_eq!(s.frame_time, 30000);
    s.tick(&mut rng, Input::Idle, 1);
    assert_eq!(s.player.x, 6);
    assert_eq!(s.frame_time, 0);
    assert_eq!(s.player.velocity, 2);
}

#[test]
fn flap_applies_without_physics_step() {
    let mut rng = Fixed::new(vec![25]);
    let mut s = playing_state(&mut rng);
    s.tick(&mut rng, Input::Flap, 1000);
    assert_eq!(s.player.velocity, -20);
    assert_eq!(s.player.x, 5);
    assert_eq!(s.frame_time, 1000);
}

#[test]
fn playing_frame_draws_avatar_and_wall() {
    let mut rng = Fixed::new(vec![25]);
    let mut s = playing_state(&mut rng);
    let r = s.tick(&mut rng, Input::Idle, 1000);
    assert_eq!(r.kind, GameMode::Playing);
    assert_eq!(r.texts, vec![TextLine::FlapPrompt, TextLine::Score(0)]);
    assert_eq!(r.score, 0);
    // avatar, rows 0..15 above the gap, rows 35..50 below it
    assert_eq!(r.sprites.len(), 1 + 15 + 15);
    assert_eq!(r.sprites[0].x, 0);
    assert_eq!(r.sprites[0].y, 250);
    assert_eq!(r.sprites[0].scale, 2);
    assert_eq!(r.sprites[0].glyph, 64);
    assert_eq!(r.sprites[1].x, 75);
    assert_eq!(r.sprites[1].y, 0);
    assert_eq!(r.sprites[15].y, 140);
    assert_eq!(r.sprites[16].y, 350);
    assert_eq!(r.sprites[30].y, 490);
}

#[test]
fn passing_obstacle_scores_once() {
    let mut rng = Fixed::new(vec![25, 25, 12]);
    let mut s = playing_state(&mut rng);
    s.player.x = 80;
    s.player.y = 250;
    s.tick(&mut rng, Input::Idle, 100);
    assert_eq!(s.score, 0);
    s.tick(&mut rng, Input::Idle, 30001);
    assert_eq!(s.player.x, 81);
    assert_eq!(s.score, 1);
    assert_eq!(s.obstacle.x, 161);
    assert_eq!(s.obstacle.gap_y, 12);
    assert_eq!(s.obstacle.size, 19);
    assert_eq!(s.mode, GameMode::Playing);
    s.tick(&mut rng, Input::Flap, 30001);
    assert_eq!(s.score, 1);
}

#[test]
fn collision_ends_session() {
    let mut rng = Fixed::new(vec![25]);
    let mut s = playing_state(&mut rng);
    s.player.x = 79;
    s.player.y = 20;
    s.tick(&mut rng, Input::Idle, 30001);
    assert_eq!(s.player.x, 80);
    assert_eq!(s.mode, GameMode::GameOver);
}

#[test]
fn falling_below_screen_ends_session() {
    let mut rng = Fixed::new(vec![25]);
    let mut s = playing_state(&mut rng);
    s.player.y = 500;
    s.player.velocity = 20;
    s.tick(&mut rng, Input::Idle, 30001);
    assert_eq!(s.player.y, 520);
    assert_eq!(s.mode, GameMode::GameOver);
}

#[test]
fn game_over_shows_score_and_restarts_fresh() {
    let mut rng = Fixed::new(vec![25, 25, 30]);
    let mut s = playing_state(&mut rng);
    s.score = 1;
    s.player.y = 509;
    s.player.velocity = 20;
    s.tick(&mut rng, Input::Idle, 30001);
    assert_eq!(s.mode, GameMode::GameOver);
    let r = s.tick(&mut rng, Input::Idle, 0);
    assert_eq!(r.kind, GameMode::GameOver);
    assert_eq!(
        r.texts,
        vec![TextLine::YouAreDead, TextLine::Earned(1), TextLine::PlayOption, TextLine::QuitOption]
    );
    s.frame_time = 77;
    s.tick(&mut rng, Input::SelectPlay, 0);
    assert_eq!(s.mode, GameMode::Playing);
    assert_eq!(s.score, 0);
    assert_eq!(s.frame_time, 0);
    assert_eq!(s.player.x, 5);
    assert_eq!(s.player.y, 250);
    assert_eq!(s.player.velocity, 0);
    assert_eq!(s.player.frame, 0);
    assert_eq!(s.obstacle.x, 80);
    assert_eq!(s.obstacle.size, 20);
    assert_eq!(s.obstacle.gap_y, 30);
}

#[test]
fn replays_with_fixed_draws_are_identical() {
    let inputs = [
        (Input::SelectPlay, 0u32),
        (Input::Idle, 31000),
        (Input::Flap, 31000),
        (Input::Idle, 10000),
        (Input::Idle, 25000),
        (Input::Flap, 40000),
    ];
    let run = || {
        let mut rng = Fixed::new(vec![14, 36, 22]);
        let mut s = State::new(&mut rng);
        let mut frames = Vec::new();
        for _ in 0..30 {
            for (input, delta) in inputs.iter() {
                let r = s.tick(&mut rng, *input, *delta);
                frames.push((r.kind, r.texts, r.sprites, r.score));
            }
        }
        frames
    };
    assert_eq!(run(), run());
}

#[test]
fn library_generator_draws_in_range() {
    let mut rng = GameRng::new();
    let mut distinct = std::collections::BTreeSet::new();
    for _ in 0..200 {
        let v = rng.draw(10, 40);
        assert!((10..40).contains(&v));
        distinct.insert(v);
    }
    assert!(distinct.len() > 1);
    let s = State::new(&mut rng);
    assert!((10..40).contains(&s.obstacle.gap_y));
}
