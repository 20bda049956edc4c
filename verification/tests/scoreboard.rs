//! Tests for the score read-out, the serve randomizer, and the starting
//! state of a match.

use ponk::rng::randomize_vector;
use ponk::score::{format_count, update_scoreboard};
use ponk::state::{MatchState, BALL_SPEED, DEFAULT_MOVE_SPEED, PADDLE_INSET, PADDLE_WIDTH};
use ponk::{BallSpeed, Scoreboard};

#[test]
fn counts_format_as_decimal() {
    assert_eq!(format_count(0), "0");
    assert_eq!(format_count(7), "7");
    assert_eq!(format_count(10), "10");
    assert_eq!(format_count(12345), "12345");
    assert_eq!(format_count(usize::MAX), format!("{}", usize::MAX));
}

#[test]
fn scoreboard_renders_both_counts() {
    let (left, right) = update_scoreboard(&Scoreboard { p1: 3, p2: 11 });
    assert_eq!(left, "3");
    assert_eq!(right, "11");
}

#[test]
fn randomized_vector_keeps_magnitudes() {
    for _ in 0..50 {
        let v = randomize_vector(400, 700);
        assert_eq!(v.x.abs(), 400);
        assert_eq!(v.y.abs(), 700);
    }
}

#[test]
fn default_serve_is_full_speed() {
    for _ in 0..50 {
        let speed = BallSpeed::default();
        assert_eq!(speed.0.x.abs(), BALL_SPEED);
        assert_eq!(speed.0.y.abs(), BALL_SPEED);
    }
}

#[test]
fn new_match_layout() {
    let s = MatchState::new(60000, 30000);
    assert_eq!(s.win.w, 60000);
    assert_eq!(s.win.h, 30000);
    assert_eq!(s.p1.x, -30000 + PADDLE_WIDTH / 2 + PADDLE_INSET);
    assert_eq!(s.p2.x, 30000 - PADDLE_WIDTH / 2 - PADDLE_INSET);
    assert_eq!((s.p1.y, s.p2.y), (0, 0));
    assert_eq!(s.p1.speed.0, DEFAULT_MOVE_SPEED);
    assert_eq!((s.ball.x, s.ball.y), (0, 0));
    assert_eq!(s.ball.speed.0.x.abs(), BALL_SPEED);
    assert_eq!(s.ball.speed.0.y.abs(), BALL_SPEED);
    assert_eq!(s.scoreboard, Scoreboard { p1: 0, p2: 0 });
    assert_eq!((s.positions.p1.x, s.positions.p1.y), (0, 0));
}
