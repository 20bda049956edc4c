//! Scenario tests for the simulation core: paddle clamping, wall and
//! paddle bounces, scoring, monotone scores, and determinism.

use ponk::ball::ball_move_with;
use ponk::paddle::{player1_move, player2_move};
use ponk::state::{BALL_SPEED, DEFAULT_MOVE_SPEED, PADDLE_HEIGHT, PADDLE_WIDTH};
use ponk::tick::tick;
use ponk::{Ball, BallSpeed, MatchState, MoveSpeed, Paddle, PositionOfPlayers, Scoreboard,
    TickInput, Vec2, WinSize};

/// A thousand-by-five-hundred-pixel playfield with both paddles at rest and
/// the ball wherever a test puts it.
fn field(ball: Ball) -> MatchState {
    MatchState {
        win: WinSize { w: 60000, h: 30000 },
        p1: Paddle { x: -28500, y: 0, speed: MoveSpeed(DEFAULT_MOVE_SPEED) },
        p2: Paddle { x: 28500, y: 0, speed: MoveSpeed(DEFAULT_MOVE_SPEED) },
        ball,
        positions: PositionOfPlayers {
            p1: Vec2 { x: -28500, y: 0 },
            p2: Vec2 { x: 28500, y: 0 },
        },
        scoreboard: Scoreboard { p1: 0, p2: 0 },
    }
}

fn centred_ball(vx: i64, vy: i64) -> Ball {
    Ball { x: 0, y: 0, speed: BallSpeed(Vec2 { x: vx, y: vy }) }
}

#[test]
fn paddle_clamps_at_top() {
    let mut s = field(centred_ball(BALL_SPEED, BALL_SPEED));
    let bound = s.win.h / 2 - PADDLE_HEIGHT / 2;
    for _ in 0..100 {
        player1_move(true, false, &mut s);
        assert!(s.p1.y <= bound);
        assert!(s.p1.y >= -bound);
    }
    assert_eq!(s.p1.y, bound);
    assert_eq!(s.positions.p1.y, bound);
    // One more tick at the boundary holds the paddle there.
    player1_move(true, false, &mut s);
    assert_eq!(s.p1.y, bound);
}

#[test]
fn paddle_clamps_at_bottom() {
    let mut s = field(centred_ball(BALL_SPEED, BALL_SPEED));
    let bound = s.win.h / 2 - PADDLE_HEIGHT / 2;
    for _ in 0..100 {
        player2_move(false, true, &mut s);
    }
    assert_eq!(s.p2.y, -bound);
    assert_eq!(s.positions.p2.y, -bound);
}

#[test]
fn paddle_up_wins_over_down() {
    let mut s = field(centred_ball(BALL_SPEED, BALL_SPEED));
    player1_move(true, true, &mut s);
    assert_eq!(s.p1.y, DEFAULT_MOVE_SPEED);
}

#[test]
fn paddle_holds_without_input() {
    let mut s = field(centred_ball(BALL_SPEED, BALL_SPEED));
    player1_move(false, false, &mut s);
    assert_eq!(s.p1.y, 0);
    assert_eq!(s.positions.p1, Vec2 { x: -28500, y: 0 });
}

#[test]
fn wall_bounce_top() {
    // One tick of travel carries the ball past the top wall; its vertical
    // velocity flips and it comes back down.
    let mut s = field(Ball { x: 0, y: 14000, speed: BallSpeed(Vec2 { x: 400, y: 400 }) });
    ball_move_with(&mut s, true, true);
    assert_eq!(s.ball.y, 14400);
    assert_eq!(s.ball.speed.0.y, -400);
    ball_move_with(&mut s, true, true);
    assert_eq!(s.ball.y, 14000);
    assert_eq!(s.ball.speed.0.y, -400);
}

#[test]
fn wall_bounce_bottom() {
    let mut s = field(Ball { x: 0, y: -14000, speed: BallSpeed(Vec2 { x: 400, y: -400 }) });
    ball_move_with(&mut s, true, true);
    assert_eq!(s.ball.y, -14400);
    assert_eq!(s.ball.speed.0.y, 400);
}

#[test]
fn paddle1_bounces_overlapping_ball() {
    // The paddle's right edge stands at -27600; after one tick the ball's
    // left edge is at -27700, inside the paddle's span, so the horizontal
    // velocity flips.
    let mut s = field(Ball { x: -26400, y: 0, speed: BallSpeed(Vec2 { x: -400, y: 400 }) });
    ball_move_with(&mut s, true, true);
    assert_eq!(s.ball.x, -26800);
    assert_eq!(s.ball.speed.0.x, 400);
    assert_eq!(s.scoreboard, Scoreboard { p1: 0, p2: 0 });
}

#[test]
fn paddle2_bounces_overlapping_ball() {
    let mut s = field(Ball { x: 26400, y: 100, speed: BallSpeed(Vec2 { x: 400, y: 400 }) });
    ball_move_with(&mut s, true, true);
    assert_eq!(s.ball.x, 26800);
    assert_eq!(s.ball.speed.0.x, -400);
}

#[test]
fn ball_above_paddle_passes() {
    // Both corners of the ball clear the top of the paddle's span, so the
    // ball keeps flying left past it.
    let mut s = field(Ball { x: -26400, y: 5600, speed: BallSpeed(Vec2 { x: -400, y: 400 }) });
    ball_move_with(&mut s, true, true);
    assert_eq!(s.ball.speed.0.x, -400);
    assert_eq!(s.ball.x, -26800);
}

#[test]
fn missed_ball_scores_eventually() {
    // A ball the paddle misses keeps its course until it crosses the left
    // boundary, where player 2 scores.
    let mut s = field(Ball { x: -26400, y: 9000, speed: BallSpeed(Vec2 { x: -400, y: -400 }) });
    let mut ticks = 0;
    while s.scoreboard.p2 == 0 {
        ball_move_with(&mut s, true, true);
        ticks += 1;
        assert!(ticks < 100, "ball never scored");
    }
    assert_eq!(s.scoreboard, Scoreboard { p1: 0, p2: 1 });
    assert_eq!((s.ball.x, s.ball.y), (0, 0));
}

#[test]
fn scoring_right_increments_p1_and_resets() {
    let mut s = field(Ball { x: 28800, y: 300, speed: BallSpeed(Vec2 { x: 400, y: 400 }) });
    ball_move_with(&mut s, true, false);
    assert_eq!(s.scoreboard, Scoreboard { p1: 1, p2: 0 });
    assert_eq!((s.ball.x, s.ball.y), (0, 0));
    assert_eq!(s.ball.speed.0, Vec2 { x: BALL_SPEED, y: -BALL_SPEED });
}

#[test]
fn scoring_left_increments_p2_and_resets() {
    let mut s = field(Ball { x: -28800, y: 300, speed: BallSpeed(Vec2 { x: -400, y: 400 }) });
    ball_move_with(&mut s, false, true);
    assert_eq!(s.scoreboard, Scoreboard { p1: 0, p2: 1 });
    assert_eq!((s.ball.x, s.ball.y), (0, 0));
    assert_eq!(s.ball.speed.0, Vec2 { x: -BALL_SPEED, y: BALL_SPEED });
}

#[test]
fn speed_magnitude_is_invariant() {
    let mut s = field(centred_ball(400, -400));
    for _ in 0..500 {
        ball_move_with(&mut s, true, true);
        assert_eq!(s.ball.speed.0.x.abs(), BALL_SPEED);
        assert_eq!(s.ball.speed.0.y.abs(), BALL_SPEED);
    }
}

#[test]
fn scores_never_decrease() {
    let mut s = field(centred_ball(400, 400));
    let input = TickInput {
        p1_up: true,
        p1_down: false,
        p2_up: false,
        p2_down: true,
        flip_x: true,
        flip_y: false,
    };
    let mut last = (0, 0);
    for n in 0..1000 {
        tick(&mut s, input);
        assert!(s.scoreboard.p1 >= last.0);
        assert!(s.scoreboard.p2 >= last.1);
        assert!(s.scoreboard.p1 - last.0 <= 1);
        assert!(s.scoreboard.p2 - last.1 <= 1);
        last = (s.scoreboard.p1, s.scoreboard.p2);
        let _ = n;
    }
    assert!(last.0 + last.1 > 0, "no point in a thousand ticks");
}

#[test]
fn identical_inputs_identical_trajectories() {
    let mut a = field(centred_ball(-400, 400));
    let mut b = field(centred_ball(-400, 400));
    let inputs = [
        TickInput {
            p1_up: true,
            p1_down: false,
            p2_up: false,
            p2_down: false,
            flip_x: false,
            flip_y: true,
        },
        TickInput {
            p1_up: false,
            p1_down: true,
            p2_up: true,
            p2_down: false,
            flip_x: true,
            flip_y: true,
        },
    ];
    for n in 0..600 {
        let i = inputs[n % 2];
        tick(&mut a, i);
        tick(&mut b, i);
        assert_eq!(a, b);
    }
}

#[test]
fn paddle_ordering_is_visible_to_ball() {
    // Within one tick the ball controller sees this tick's paddle position:
    // moved up out of the ball's path, the paddle no longer bounces it.
    let ball = Ball { x: -26400, y: -4600, speed: BallSpeed(Vec2 { x: -400, y: -400 }) };
    let mut moved = field(ball);
    let mut held = moved;
    let up = TickInput {
        p1_up: true,
        p1_down: false,
        p2_up: false,
        p2_down: false,
        flip_x: true,
        flip_y: true,
    };
    let still = TickInput { p1_up: false, ..up };
    for _ in 0..4 {
        tick(&mut moved, up);
        tick(&mut held, still);
    }
    // Held in place, the paddle catches the ball; moved away, it misses.
    assert_eq!(held.ball.speed.0.x, 400);
    assert_eq!(moved.ball.speed.0.x, -400);
}
