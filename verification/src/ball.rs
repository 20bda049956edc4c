//! The ball controller: one tick of flight, wall and paddle bounces,
//! scoring and the reset that follows it.
//!
//! A tick integrates the position, then resolves collisions in the order
//! the match loop fixes: walls, player 1's paddle, player 2's paddle, and
//! last the side boundaries, where a crossing scores a point and puts a
//! fresh serve at the centre.  The two reset signs are the only random
//! choice; every spec function here takes them as arguments, so the whole
//! transition is a function of the state and the signs drawn.

use vstd::prelude::*;

verus! {

use crate::geometry::Vec2;
use crate::state::{Ball, BallSpeed, MatchState, Scoreboard, WinSize, BALL_SIZE, BALL_SPEED,
    PADDLE_HEIGHT, PADDLE_WIDTH};

/// The ball one tick of flight later, collisions not yet resolved.
pub open spec fn integrated(b: Ball) -> Ball {
    Ball { x: (b.x + b.speed.0.x) as i64, y: (b.y + b.speed.0.y) as i64, speed: b.speed }
}

/// Whether a ball stands past the top or bottom wall.
pub open spec fn past_wall(win: WinSize, b: Ball) -> bool {
    let hb = win.h / 2 - BALL_SIZE / 2;
    b.y > hb || b.y < -hb
}

/// The wall check: a ball past the top or bottom wall has its vertical
/// velocity flipped; its position is not touched.
pub open spec fn wall_bounced(win: WinSize, b: Ball) -> Ball {
    if past_wall(win, b) {
        Ball { x: b.x, y: b.y, speed: BallSpeed(Vec2 { x: b.speed.0.x, y: (-b.speed.0.y) as i64 }) }
    } else {
        b
    }
}

/// Whether a corner ordinate lies strictly inside a paddle's vertical span.
pub open spec fn in_span(corner_y: int, paddle_y: int) -> bool {
    paddle_y - PADDLE_HEIGHT / 2 < corner_y < paddle_y + PADDLE_HEIGHT / 2
}

/// Player 1's paddle check: the ball's left edge has crossed the paddle's
/// right edge and one of the ball's left corners lies strictly inside the
/// paddle's vertical span.
pub open spec fn hits_paddle1(p: Vec2, b: Ball) -> bool {
    let left = b.x - BALL_SIZE / 2;
    &&& left < p.x + PADDLE_WIDTH / 2
    &&& (in_span(b.y + BALL_SIZE / 2, p.y as int) || in_span(b.y - BALL_SIZE / 2, p.y as int))
}

/// Player 2's paddle check, symmetric: the ball's right edge has crossed
/// the paddle's left edge.
pub open spec fn hits_paddle2(p: Vec2, b: Ball) -> bool {
    let right = b.x + BALL_SIZE / 2;
    &&& right > p.x - PADDLE_WIDTH / 2
    &&& (in_span(b.y + BALL_SIZE / 2, p.y as int) || in_span(b.y - BALL_SIZE / 2, p.y as int))
}

/// A ball with its horizontal velocity flipped.
pub open spec fn flipped_x(b: Ball) -> Ball {
    Ball { x: b.x, y: b.y, speed: BallSpeed(Vec2 { x: (-b.speed.0.x) as i64, y: b.speed.0.y }) }
}

/// A fresh serve: the ball at the centre, full speed on both axes, the
/// signs as drawn.
pub open spec fn reset_ball(flip_x: bool, flip_y: bool) -> Ball {
    Ball {
        x: 0,
        y: 0,
        speed: BallSpeed(
            Vec2 {
                x: if flip_x { BALL_SPEED } else { (-BALL_SPEED) as i64 },
                y: if flip_y { BALL_SPEED } else { (-BALL_SPEED) as i64 },
            },
        ),
    }
}

/// Whether a ball stands past the right boundary, where player 1 scores.
pub open spec fn past_right(win: WinSize, b: Ball) -> bool {
    b.x > win.w / 2 - BALL_SIZE / 2
}

/// Whether a ball stands past the left boundary, where player 2 scores.
pub open spec fn past_left(win: WinSize, b: Ball) -> bool {
    b.x < -(win.w / 2 - BALL_SIZE / 2)
}

/// The scoring check: a ball past a side boundary scores for the opposite
/// player and is replaced by a fresh serve; otherwise nothing changes.
/// The right boundary is checked first, as in the match loop.
pub open spec fn score_resolved(
    win: WinSize,
    b: Ball,
    sb: Scoreboard,
    flip_x: bool,
    flip_y: bool,
) -> (Ball, Scoreboard) {
    if past_right(win, b) {
        (reset_ball(flip_x, flip_y), Scoreboard { p1: (sb.p1 + 1) as usize, p2: sb.p2 })
    } else if past_left(win, b) {
        (reset_ball(flip_x, flip_y), Scoreboard { p1: sb.p1, p2: (sb.p2 + 1) as usize })
    } else {
        (b, sb)
    }
}

/// The whole ball tick: integration, the wall check, both paddle checks,
/// then the scoring check.  Only the ball and the scoreboard change.
pub open spec fn ball_tick(s: MatchState, flip_x: bool, flip_y: bool) -> MatchState {
    let b1 = integrated(s.ball);
    let b2 = wall_bounced(s.win, b1);
    let b3 = if hits_paddle1(s.positions.p1, b2) { flipped_x(b2) } else { b2 };
    let b4 = if hits_paddle2(s.positions.p2, b3) { flipped_x(b3) } else { b3 };
    let resolved = score_resolved(s.win, b4, s.scoreboard, flip_x, flip_y);
    MatchState { ball: resolved.0, scoreboard: resolved.1, ..s }
}

/// Whether this tick ends in a scoring reset: the integrated position
/// stands past a side boundary.  The paddle checks never move the ball, so
/// this is a function of the starting state alone.
pub open spec fn scores(s: MatchState) -> bool {
    past_right(s.win, integrated(s.ball)) || past_left(s.win, integrated(s.ball))
}

/// A ball tick keeps the state well formed, whichever signs are drawn.
pub proof fn lemma_ball_tick_wf(s: MatchState, flip_x: bool, flip_y: bool)
    requires
        s.wf(),
    ensures
        ball_tick(s, flip_x, flip_y).wf(),
{
}

/// Outside a scoring reset the ball's speed is untouched: each velocity
/// component leaves a tick either unchanged or with only its sign flipped.
pub proof fn lemma_speed_invariant(s: MatchState, flip_x: bool, flip_y: bool)
    requires
        s.wf(),
        !scores(s),
    ensures
        ball_tick(s, flip_x, flip_y).ball.speed.0.x == s.ball.speed.0.x
            || ball_tick(s, flip_x, flip_y).ball.speed.0.x == -s.ball.speed.0.x,
        ball_tick(s, flip_x, flip_y).ball.speed.0.y == s.ball.speed.0.y
            || ball_tick(s, flip_x, flip_y).ball.speed.0.y == -s.ball.speed.0.y,
{
}

/// A ball that crosses the top wall moving upward leaves the tick moving
/// downward, its vertical speed exactly negated.
pub proof fn lemma_wall_bounce_top(s: MatchState, flip_x: bool, flip_y: bool)
    requires
        s.wf(),
        s.ball.speed.0.y > 0,
        past_wall(s.win, integrated(s.ball)),
        !scores(s),
    ensures
        ball_tick(s, flip_x, flip_y).ball.speed.0.y == -s.ball.speed.0.y,
        ball_tick(s, flip_x, flip_y).ball.speed.0.y < 0,
{
}

/// A ball that crosses the bottom wall moving downward leaves the tick
/// moving upward.
pub proof fn lemma_wall_bounce_bottom(s: MatchState, flip_x: bool, flip_y: bool)
    requires
        s.wf(),
        s.ball.speed.0.y < 0,
        past_wall(s.win, integrated(s.ball)),
        !scores(s),
    ensures
        ball_tick(s, flip_x, flip_y).ball.speed.0.y == -s.ball.speed.0.y,
        ball_tick(s, flip_x, flip_y).ball.speed.0.y > 0,
{
}

/// A ball approaching player 1's paddle that reaches it with a corner
/// inside the paddle's span reverses its horizontal direction on that
/// tick.  Neither wall nor paddle checks move the ball, so the hit is
/// stated of the integrated position.
pub proof fn lemma_paddle1_bounce(s: MatchState, flip_x: bool, flip_y: bool)
    requires
        s.wf(),
        s.ball.speed.0.x < 0,
        hits_paddle1(s.positions.p1, integrated(s.ball)),
        !hits_paddle2(s.positions.p2, integrated(s.ball)),
        !scores(s),
    ensures
        ball_tick(s, flip_x, flip_y).ball.speed.0.x == -s.ball.speed.0.x,
        ball_tick(s, flip_x, flip_y).ball.speed.0.x > 0,
{
}

/// A ball approaching player 2's paddle that reaches it with a corner
/// inside the paddle's span reverses its horizontal direction.
pub proof fn lemma_paddle2_bounce(s: MatchState, flip_x: bool, flip_y: bool)
    requires
        s.wf(),
        s.ball.speed.0.x > 0,
        hits_paddle2(s.positions.p2, integrated(s.ball)),
        !hits_paddle1(s.positions.p1, integrated(s.ball)),
        !scores(s),
    ensures
        ball_tick(s, flip_x, flip_y).ball.speed.0.x == -s.ball.speed.0.x,
        ball_tick(s, flip_x, flip_y).ball.speed.0.x < 0,
{
}

/// A ball that misses both paddles — passing above or below their spans —
/// keeps its horizontal velocity through the tick.
pub proof fn lemma_paddle_miss(s: MatchState, flip_x: bool, flip_y: bool)
    requires
        s.wf(),
        !hits_paddle1(s.positions.p1, integrated(s.ball)),
        !hits_paddle2(s.positions.p2, integrated(s.ball)),
        !scores(s),
    ensures
        ball_tick(s, flip_x, flip_y).ball.speed.0.x == s.ball.speed.0.x,
{
}

/// A ball crossing the right boundary scores exactly one point for player
/// 1, leaves player 2's count alone, and is replaced by a fresh serve at
/// the exact centre with full speed on both axes.
pub proof fn lemma_score_right(s: MatchState, flip_x: bool, flip_y: bool)
    requires
        s.wf(),
        s.scoreboard.p1 < usize::MAX,
        past_right(s.win, integrated(s.ball)),
    ensures
        ball_tick(s, flip_x, flip_y).scoreboard.p1 == s.scoreboard.p1 + 1,
        ball_tick(s, flip_x, flip_y).scoreboard.p2 == s.scoreboard.p2,
        ball_tick(s, flip_x, flip_y).ball == reset_ball(flip_x, flip_y),
        ball_tick(s, flip_x, flip_y).ball.x == 0,
        ball_tick(s, flip_x, flip_y).ball.y == 0,
        ball_tick(s, flip_x, flip_y).ball.speed.wf(),
{
}

/// A ball crossing the left boundary scores exactly one point for player
/// 2, symmetrically.
pub proof fn lemma_score_left(s: MatchState, flip_x: bool, flip_y: bool)
    requires
        s.wf(),
        s.scoreboard.p2 < usize::MAX,
        past_left(s.win, integrated(s.ball)),
    ensures
        ball_tick(s, flip_x, flip_y).scoreboard.p2 == s.scoreboard.p2 + 1,
        ball_tick(s, flip_x, flip_y).scoreboard.p1 == s.scoreboard.p1,
        ball_tick(s, flip_x, flip_y).ball == reset_ball(flip_x, flip_y),
        ball_tick(s, flip_x, flip_y).ball.speed.wf(),
{
}

/// A tick that neither bounces off a wall nor scores leaves the vertical
/// velocity alone; with `lemma_speed_invariant` this pins the wall check
/// down as the only place the vertical sign can change.
pub proof fn lemma_no_wall_no_flip(s: MatchState, flip_x: bool, flip_y: bool)
    requires
        s.wf(),
        !past_wall(s.win, integrated(s.ball)),
        !scores(s),
    ensures
        ball_tick(s, flip_x, flip_y).ball.speed.0.y == s.ball.speed.0.y,
{
}

/// One tick of the ball with the serve signs supplied by the caller: the
/// deterministic core of the controller, and the seam where a test or a
/// front end substitutes its own source of randomness.
pub fn ball_move_with(state: &mut MatchState, flip_x: bool, flip_y: bool)
    requires
        old(state).wf(),
        old(state).scoreboard.p1 < usize::MAX,
        old(state).scoreboard.p2 < usize::MAX,
    ensures
        *final(state) == ball_tick(*old(state), flip_x, flip_y),
        final(state).wf(),
{
    state.ball.x = state.ball.x + state.ball.speed.0.x;
    state.ball.y = state.ball.y + state.ball.speed.0.y;

    // The wall check.
    let hb = state.win.h / 2 - BALL_SIZE / 2;
    if state.ball.y > hb {
        state.ball.speed.0.y = -state.ball.speed.0.y;
    } else if state.ball.y < -hb {
        state.ball.speed.0.y = -state.ball.speed.0.y;
    }

    // The ball's edges and corners, and the paddles' facing edges and spans.
    let ball_rcorner_x = state.ball.x + BALL_SIZE / 2;
    let ball_lcorner_x = state.ball.x - BALL_SIZE / 2;
    let ball_upper_y = state.ball.y + BALL_SIZE / 2;
    let ball_lower_y = state.ball.y - BALL_SIZE / 2;
    let p1_x = state.positions.p1.x + PADDLE_WIDTH / 2;
    let p1_upper = state.positions.p1.y + PADDLE_HEIGHT / 2;
    let p1_lower = state.positions.p1.y - PADDLE_HEIGHT / 2;
    let p2_x = state.positions.p2.x - PADDLE_WIDTH / 2;
    let p2_upper = state.positions.p2.y + PADDLE_HEIGHT / 2;
    let p2_lower = state.positions.p2.y - PADDLE_HEIGHT / 2;

    // Player 1's paddle check, one corner at a time.
    if ball_lcorner_x < p1_x && ball_upper_y < p1_upper && ball_upper_y > p1_lower {
        state.ball.speed.0.x = -state.ball.speed.0.x;
    } else if ball_lcorner_x < p1_x && ball_lower_y < p1_upper && ball_lower_y > p1_lower {
        state.ball.speed.0.x = -state.ball.speed.0.x;
    }
    // Player 2's paddle check.
    if ball_rcorner_x > p2_x && ball_upper_y < p2_upper && ball_upper_y > p2_lower {
        state.ball.speed.0.x = -state.ball.speed.0.x;
    } else if ball_rcorner_x > p2_x && ball_lower_y < p2_upper && ball_lower_y > p2_lower {
        state.ball.speed.0.x = -state.ball.speed.0.x;
    }

    // The scoring check.
    let wb = state.win.w / 2 - BALL_SIZE / 2;
    if state.ball.x > wb {
        state.scoreboard.p1 = state.scoreboard.p1 + 1;
        state.ball.x = 0;
        state.ball.y = 0;
        state.ball.speed.0.x = if flip_x { BALL_SPEED } else { -BALL_SPEED };
        state.ball.speed.0.y = if flip_y { BALL_SPEED } else { -BALL_SPEED };
    } else if state.ball.x < -wb {
        state.scoreboard.p2 = state.scoreboard.p2 + 1;
        state.ball.x = 0;
        state.ball.y = 0;
        state.ball.speed.0.x = if flip_x { BALL_SPEED } else { -BALL_SPEED };
        state.ball.speed.0.y = if flip_y { BALL_SPEED } else { -BALL_SPEED };
    }
    proof {
        lemma_ball_tick_wf(*old(state), flip_x, flip_y);
    }
}

/// One tick of the ball as the match loop runs it: where the tick ends in
/// a scoring reset, the two serve signs are drawn from the thread-local
/// generator; otherwise nothing is drawn and the signs play no part.
pub fn ball_move(state: &mut MatchState)
    requires
        old(state).wf(),
        old(state).scoreboard.p1 < usize::MAX,
        old(state).scoreboard.p2 < usize::MAX,
    ensures
        exists|fx: bool, fy: bool| *final(state) == ball_tick(*old(state), fx, fy),
        !scores(*old(state)) ==> forall|fx: bool, fy: bool|
            *final(state) == ball_tick(*old(state), fx, fy),
        past_right(old(state).win, integrated(old(state).ball)) ==> {
            &&& final(state).scoreboard.p1 == old(state).scoreboard.p1 + 1
            &&& final(state).scoreboard.p2 == old(state).scoreboard.p2
            &&& final(state).ball.x == 0 && final(state).ball.y == 0
            &&& final(state).ball.speed.wf()
        },
        past_left(old(state).win, integrated(old(state).ball)) ==> {
            &&& final(state).scoreboard.p2 == old(state).scoreboard.p2 + 1
            &&& final(state).scoreboard.p1 == old(state).scoreboard.p1
            &&& final(state).ball.x == 0 && final(state).ball.y == 0
            &&& final(state).ball.speed.wf()
        },
        final(state).wf(),
        old(state).scoreboard.p1 <= final(state).scoreboard.p1 <= old(state).scoreboard.p1 + 1,
        old(state).scoreboard.p2 <= final(state).scoreboard.p2 <= old(state).scoreboard.p2 + 1,
        final(state).win == old(state).win,
        final(state).p1 == old(state).p1,
        final(state).p2 == old(state).p2,
        final(state).positions == old(state).positions,
{
    let x1 = state.ball.x + state.ball.speed.0.x;
    let wb = state.win.w / 2 - BALL_SIZE / 2;
    let scoring = x1 > wb || x1 < -wb;
    let fx: bool = if scoring { rand::random::<bool>() } else { true };
    let fy: bool = if scoring { rand::random::<bool>() } else { true };
    ball_move_with(state, fx, fy);
    proof {
        assert(*state == ball_tick(*old(state), fx, fy));
    }
}

} // verus!
