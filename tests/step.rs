use pong::entity::Entity;
use pong::gamestate::{Config, GameState, Input, Player};
use pong::geometry::{Rect, Vec2};

/// The classic tunables, in thousandths of a pixel.
fn milli_config() -> Config {
    Config {
        field_width: 640_000,
        field_height: 480_000,
        paddle_inset: 16_000,
        paddle_speed: 8_000,
        ball_speed: 5_000,
        paddle_spin: 4_000,
        ball_acc: 50,
        win_threshold: 5,
    }
}

/// The same tunables in whole pixels, with no acceleration.
fn pixel_config() -> Config {
    Config {
        field_width: 640,
        field_height: 480,
        paddle_inset: 16,
        paddle_speed: 8,
        ball_speed: 5,
        paddle_spin: 4,
        ball_acc: 0,
        win_threshold: 5,
    }
}

fn idle() -> Input {
    Input { player1_up: false, player1_down: false, player2_up: false, player2_down: false }
}

fn milli_match() -> GameState {
    let cfg = milli_config();
    GameState::new(
        &cfg,
        Vec2::new(16_000, 64_000),
        Vec2::new(16_000, 64_000),
        Vec2::new(16_000, 16_000),
    )
}

#[test]
fn new_match_places_paddles_and_ball() {
    let s = milli_match();
    assert_eq!(s.player1.name, "player1");
    assert_eq!(s.player2.name, "player2");
    assert_eq!(s.ball.name, "ball");
    assert_eq!(s.player1.position, Vec2::new(16_000, 208_000));
    assert_eq!(s.player2.position, Vec2::new(608_000, 208_000));
    assert_eq!(s.ball.position, Vec2::new(312_000, 232_000));
    assert_eq!(s.ball.velocity, Vec2::new(-5_000, 0));
    assert_eq!(s.player1.velocity, Vec2::zero());
    assert_eq!((s.player1_score, s.player2_score), (0, 0));
}

#[test]
fn idle_frame_leaves_paddles_in_place() {
    let cfg = milli_config();
    let mut s = milli_match();
    let p1 = s.player1.clone();
    let p2 = s.player2.clone();
    for _ in 0..10 {
        s.step(&idle(), &cfg);
        assert_eq!(s.player1, p1);
        assert_eq!(s.player2, p2);
    }
}

#[test]
fn controls_move_paddles_without_clamping() {
    let cfg = milli_config();
    let mut s = milli_match();
    s.player1.position.y = 0;
    s.player2.position.y = 475_000;
    let input = Input { player1_up: true, player1_down: false, player2_up: false, player2_down: true };
    s.step(&input, &cfg);
    assert_eq!(s.player1.position.y, -8_000);
    assert_eq!(s.player2.position.y, 483_000);
    assert_eq!(s.player1.position.x, 16_000);
}

#[test]
fn both_controls_cancel() {
    let cfg = milli_config();
    let mut s = milli_match();
    let input = Input { player1_up: true, player1_down: true, player2_up: true, player2_down: true };
    s.step(&input, &cfg);
    assert_eq!(s.player1.position.y, 208_000);
    assert_eq!(s.player2.position.y, 208_000);
}

#[test]
fn ball_moves_by_its_velocity() {
    let cfg = milli_config();
    let mut s = milli_match();
    s.ball.position = Vec2::new(300_000, 100_000);
    s.ball.velocity = Vec2::new(-7_000, 3_000);
    s.step(&idle(), &cfg);
    assert_eq!(s.ball.position, Vec2::new(293_000, 103_000));
    assert_eq!(s.ball.velocity, Vec2::new(-7_000, 3_000));
}

#[test]
fn paddle_one_hit_reverses_and_accelerates() {
    let cfg = milli_config();
    let mut s = milli_match();
    s.ball.position = Vec2::new(33_000, 250_000);
    s.ball.velocity = Vec2::new(-5_000, 0);
    s.step(&idle(), &cfg);
    assert_eq!(s.ball.position, Vec2::new(28_000, 250_000));
    // -(-5000 + 50 * -1) and 4000 * (258000 - 240000) / 64000
    assert_eq!(s.ball.velocity, Vec2::new(5_050, 1_125));
}

#[test]
fn hit_above_centre_spins_upward() {
    let cfg = milli_config();
    let mut s = milli_match();
    s.ball.position = Vec2::new(33_000, 210_000);
    s.ball.velocity = Vec2::new(-5_000, 0);
    s.step(&idle(), &cfg);
    assert_eq!(s.ball.velocity, Vec2::new(5_050, -1_375));
}

#[test]
fn centre_hit_adds_no_spin() {
    let cfg = milli_config();
    let mut s = milli_match();
    // after the move the ball centre 232000 + 8000 equals the paddle centre 208000 + 32000
    s.ball.position = Vec2::new(33_000, 231_300);
    s.ball.velocity = Vec2::new(-5_000, 700);
    s.step(&idle(), &cfg);
    assert_eq!(s.ball.position, Vec2::new(28_000, 232_000));
    assert_eq!(s.ball.velocity, Vec2::new(5_050, 700));
}

#[test]
fn paddle_two_hit_sends_ball_left() {
    let cfg = milli_config();
    let mut s = milli_match();
    s.ball.position = Vec2::new(590_000, 232_000);
    s.ball.velocity = Vec2::new(5_000, 0);
    s.step(&idle(), &cfg);
    assert_eq!(s.ball.velocity, Vec2::new(-5_050, 0));
}

#[test]
fn paddle_one_wins_a_double_overlap() {
    let cfg = milli_config();
    let mut s = milli_match();
    s.player2.position = Vec2::new(30_000, 200_000);
    s.ball.position = Vec2::new(25_000, 210_000);
    s.ball.velocity = Vec2::new(-1_000, 0);
    s.step(&idle(), &cfg);
    // the spin is measured against paddle one's centre 240000, not paddle two's 232000
    assert_eq!(s.ball.velocity, Vec2::new(1_050, -1_375));
}

#[test]
fn no_overlap_leaves_velocity() {
    let cfg = milli_config();
    let mut s = milli_match();
    // touching paddle one's right edge after the move is not an overlap
    s.ball.position = Vec2::new(37_000, 250_000);
    s.ball.velocity = Vec2::new(-5_000, 0);
    s.step(&idle(), &cfg);
    assert_eq!(s.ball.position.x, 32_000);
    assert_eq!(s.ball.velocity, Vec2::new(-5_000, 0));
}

#[test]
fn walls_reflect_vertical_speed() {
    let cfg = milli_config();
    let mut s = milli_match();
    s.ball.position = Vec2::new(300_000, 1_000);
    s.ball.velocity = Vec2::new(5_000, -2_000);
    s.step(&idle(), &cfg);
    assert_eq!(s.ball.position, Vec2::new(305_000, -1_000));
    assert_eq!(s.ball.velocity, Vec2::new(5_000, 2_000));
    s.ball.position = Vec2::new(300_000, 463_000);
    s.ball.velocity = Vec2::new(5_000, 1_000);
    s.step(&idle(), &cfg);
    assert_eq!(s.ball.velocity, Vec2::new(5_000, -1_000));
}

#[test]
fn left_exit_scores_for_player_two() {
    let cfg = milli_config();
    let mut s = milli_match();
    s.ball.position = Vec2::new(-1, 100_000);
    s.ball.velocity = Vec2::new(0, 0);
    let r = s.step(&idle(), &cfg);
    assert_eq!(r, None);
    assert_eq!((s.player1_score, s.player2_score), (0, 1));
    assert_eq!(s.ball.position, Vec2::new(312_000, 232_000));
    assert_eq!(s.ball.velocity, Vec2::new(-5_000, 0));
}

#[test]
fn right_exit_scores_for_player_one() {
    let cfg = milli_config();
    let mut s = milli_match();
    s.ball.position = Vec2::new(639_000, 100_000);
    s.ball.velocity = Vec2::new(5_000, 300);
    s.step(&idle(), &cfg);
    assert_eq!((s.player1_score, s.player2_score), (1, 0));
    assert_eq!(s.ball.position, Vec2::new(312_000, 232_000));
    assert_eq!(s.ball.velocity, Vec2::new(5_000, 0));
}

#[test]
fn scores_five_to_three_end_the_match() {
    let cfg = milli_config();
    let mut s = milli_match();
    s.player1_score = 5;
    s.player2_score = 3;
    assert_eq!(s.step(&idle(), &cfg), Some(Player::One));
}

#[test]
fn scores_four_all_continue() {
    let cfg = milli_config();
    let mut s = milli_match();
    s.player1_score = 4;
    s.player2_score = 4;
    assert_eq!(s.step(&idle(), &cfg), None);
    assert_eq!(s.winner(&cfg), None);
}

#[test]
fn fifth_point_wins_for_player_two() {
    let cfg = milli_config();
    let mut s = milli_match();
    s.player1_score = 3;
    s.player2_score = 4;
    s.ball.position = Vec2::new(2_000, 100_000);
    assert_eq!(s.step(&idle(), &cfg), Some(Player::Two));
    assert_eq!(s.player2_score, 5);
}

#[test]
fn still_ball_is_a_fixed_point() {
    let cfg = milli_config();
    let mut s = milli_match();
    s.ball.velocity = Vec2::zero();
    let start = s.clone();
    for _ in 0..3 {
        assert_eq!(s.step(&idle(), &cfg), None);
        assert_eq!(s, start);
    }
}

#[test]
fn first_frame_moves_ball_left_by_five() {
    let cfg = pixel_config();
    let mut s = GameState::new(&cfg, Vec2::new(16, 64), Vec2::new(16, 64), Vec2::new(16, 16));
    assert_eq!(s.ball.position, Vec2::new(312, 232));
    assert_eq!(s.ball.velocity, Vec2::new(-5, 0));
    let r = s.step(&idle(), &cfg);
    assert_eq!(r, None);
    assert_eq!(s.ball.position, Vec2::new(307, 232));
    assert_eq!((s.player1_score, s.player2_score), (0, 0));
}

#[test]
fn can_step_rejects_oversized_values() {
    let cfg = milli_config();
    let mut s = milli_match();
    assert!(s.can_step(&cfg));
    s.ball.velocity.y = 2_000_000_000;
    assert!(!s.can_step(&cfg));
    let s = milli_match();
    let mut wide = cfg;
    wide.field_width = 0;
    assert!(!s.can_step(&wide));
}

#[test]
fn entity_geometry() {
    let mut e = Entity::with_velocity(
        "ball".to_string(),
        Vec2::new(15, 9),
        Vec2::new(100, 40),
        Vec2::new(3, -2),
    );
    assert_eq!(e.width(), 15);
    assert_eq!(e.height(), 9);
    assert_eq!(e.bounds(), Rect { x: 100, y: 40, width: 15, height: 9 });
    assert_eq!(e.centre(), Vec2::new(107, 44));
    e.center(640, 480);
    assert_eq!(e.position, Vec2::new(313, 236));
    assert_eq!(e.velocity, Vec2::new(3, -2));
    let p = Entity::new("player1".to_string(), Vec2::new(16, 64), Vec2::new(16, 208));
    assert_eq!(p.velocity, Vec2::zero());
    assert_eq!(p.name, "player1");
}

#[test]
fn rect_overlap_excludes_touching_edges() {
    let a = Rect { x: 0, y: 0, width: 10, height: 10 };
    assert!(a.intersects(&Rect { x: 9, y: 9, width: 5, height: 5 }));
    assert!(!a.intersects(&Rect { x: 10, y: 0, width: 5, height: 5 }));
    assert!(!a.intersects(&Rect { x: 0, y: -5, width: 5, height: 5 }));
    assert!(a.intersects(&Rect { x: -3, y: 2, width: 20, height: 1 }));
}
