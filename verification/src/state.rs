//! The entities of a match and the well-formedness they keep tick to tick.

use vstd::prelude::*;

verus! {

use crate::geometry::Vec2;
use crate::rng::randomize_vector;

/// Subunits to one display pixel, and ticks to one second.  The front end
/// divides by this when it turns a position into screen coordinates.
pub const SUBUNITS_PER_PIXEL: i64 = 60;

/// Paddle width: thirty pixels.
pub const PADDLE_WIDTH: i64 = 1800;

/// Paddle height: one hundred and fifty pixels.
pub const PADDLE_HEIGHT: i64 = 9000;

/// The ball is a square thirty pixels on a side.
pub const BALL_SIZE: i64 = 1800;

/// The ball's fixed per-axis speed: four hundred pixels per second, which
/// is four hundred subunits per tick.
pub const BALL_SPEED: i64 = 400;

/// How far from the side walls the paddles stand: ten pixels.
pub const PADDLE_INSET: i64 = 600;

/// The paddles' default speed: five hundred pixels per second.
pub const DEFAULT_MOVE_SPEED: i64 = 500;

/// Upper bound on every playfield length, kept small enough that the
/// arithmetic of a tick stays far from `i64` overflow.
pub const COORD_MAX: i64 = 0x1000_0000;

/// Upper bound on a paddle's speed.
pub const SPEED_MAX: i64 = 0x10_0000;

/// The playfield size, fixed at startup from the display surface.
#[derive(Clone, Copy, Debug, PartialEq, Eq, Structural)]
pub struct WinSize {
    pub w: i64,
    pub h: i64,
}

impl WinSize {
    /// A playfield wide enough to hold the ball, tall enough to hold a
    /// paddle, and small enough that tick arithmetic cannot overflow.
    pub open spec fn wf(self) -> bool {
        &&& BALL_SIZE <= self.w <= COORD_MAX
        &&& PADDLE_HEIGHT <= self.h <= COORD_MAX
    }
}

/// A paddle's vertical speed in subunits per tick.
#[derive(Clone, Copy, Debug, PartialEq, Eq, Structural)]
pub struct MoveSpeed(pub i64);

impl MoveSpeed {
    pub open spec fn wf(self) -> bool {
        0 <= self.0 <= SPEED_MAX
    }
}

impl Default for MoveSpeed {
    fn default() -> (r: Self)
        ensures
            r.0 == DEFAULT_MOVE_SPEED,
    {
        MoveSpeed(DEFAULT_MOVE_SPEED)
    }
}

/// The ball's velocity in subunits per tick.  Each component always has
/// magnitude `BALL_SPEED`; collisions only flip signs.
#[derive(Clone, Copy, Debug, PartialEq, Eq, Structural)]
pub struct BallSpeed(pub Vec2);

impl BallSpeed {
    pub open spec fn wf(self) -> bool {
        &&& (self.0.x == BALL_SPEED || self.0.x == -BALL_SPEED)
        &&& (self.0.y == BALL_SPEED || self.0.y == -BALL_SPEED)
    }
}

impl Default for BallSpeed {
    /// A fresh serve: full speed on both axes, each sign drawn at random.
    fn default() -> (r: Self)
        ensures
            r.wf(),
    {
        BallSpeed(randomize_vector(BALL_SPEED, BALL_SPEED))
    }
}

/// One player's paddle: a fixed horizontal station, a vertical position,
/// and a speed.
#[derive(Clone, Copy, Debug, PartialEq, Eq, Structural)]
pub struct Paddle {
    pub x: i64,
    pub y: i64,
    pub speed: MoveSpeed,
}

impl Paddle {
    /// The paddle sits inside the band the clamp allows and within the
    /// coordinate bound.
    pub open spec fn wf(self, h: int) -> bool {
        &&& -(h / 2 - PADDLE_HEIGHT / 2) <= self.y <= h / 2 - PADDLE_HEIGHT / 2
        &&& -COORD_MAX <= self.x <= COORD_MAX
        &&& self.speed.wf()
    }
}

/// The ball: a position and a velocity.
#[derive(Clone, Copy, Debug, PartialEq, Eq, Structural)]
pub struct Ball {
    pub x: i64,
    pub y: i64,
    pub speed: BallSpeed,
}

impl Ball {
    /// Horizontally the ball never leaves the scoring band: a crossing is
    /// resolved, by a reset, in the same tick it happens.  Vertically it may
    /// overshoot a wall by at most one tick of travel, and while it is past
    /// a wall it is moving back in.
    pub open spec fn wf(self, win: WinSize) -> bool {
        let wb = win.w / 2 - BALL_SIZE / 2;
        let hb = win.h / 2 - BALL_SIZE / 2;
        &&& self.speed.wf()
        &&& -wb <= self.x <= wb
        &&& -(hb + BALL_SPEED) <= self.y <= hb + BALL_SPEED
        &&& self.y > hb ==> self.speed.0.y == -BALL_SPEED
        &&& self.y < -hb ==> self.speed.0.y == BALL_SPEED
    }
}

/// The two score counters.  They only ever grow.
#[derive(Clone, Copy, Debug, PartialEq, Eq, Structural)]
pub struct Scoreboard {
    pub p1: usize,
    pub p2: usize,
}

/// The paddle positions published after clamping, for the ball controller
/// to read: it sees each tick's settled positions, never a stale mix.
#[derive(Clone, Copy, Debug, PartialEq, Eq, Structural)]
pub struct PositionOfPlayers {
    pub p1: Vec2,
    pub p2: Vec2,
}

impl PositionOfPlayers {
    pub open spec fn wf(self) -> bool {
        &&& -COORD_MAX <= self.p1.x <= COORD_MAX
        &&& -COORD_MAX <= self.p1.y <= COORD_MAX
        &&& -COORD_MAX <= self.p2.x <= COORD_MAX
        &&& -COORD_MAX <= self.p2.y <= COORD_MAX
    }
}

/// Everything a tick reads and writes: the playfield, both paddles, the
/// ball, the published paddle positions, and the score.
#[derive(Clone, Copy, Debug, PartialEq, Eq, Structural)]
pub struct MatchState {
    pub win: WinSize,
    pub p1: Paddle,
    pub p2: Paddle,
    pub ball: Ball,
    pub positions: PositionOfPlayers,
    pub scoreboard: Scoreboard,
}

impl MatchState {
    pub open spec fn wf(self) -> bool {
        &&& self.win.wf()
        &&& self.p1.wf(self.win.h as int)
        &&& self.p2.wf(self.win.h as int)
        &&& self.ball.wf(self.win)
        &&& self.positions.wf()
    }

    /// Whether the state is well formed, decided at run time: the fail-fast
    /// check an unverified caller makes before it drives a tick.
    pub fn is_wf(&self) -> (r: bool)
        ensures
            r == self.wf(),
    {
        let hi = self.win.h / 2 - PADDLE_HEIGHT / 2;
        let wb = self.win.w / 2 - BALL_SIZE / 2;
        let hb = self.win.h / 2 - BALL_SIZE / 2;
        BALL_SIZE <= self.win.w && self.win.w <= COORD_MAX
            && PADDLE_HEIGHT <= self.win.h && self.win.h <= COORD_MAX
            && -hi <= self.p1.y && self.p1.y <= hi
            && -COORD_MAX <= self.p1.x && self.p1.x <= COORD_MAX
            && 0 <= self.p1.speed.0 && self.p1.speed.0 <= SPEED_MAX
            && -hi <= self.p2.y && self.p2.y <= hi
            && -COORD_MAX <= self.p2.x && self.p2.x <= COORD_MAX
            && 0 <= self.p2.speed.0 && self.p2.speed.0 <= SPEED_MAX
            && (self.ball.speed.0.x == BALL_SPEED || self.ball.speed.0.x == -BALL_SPEED)
            && (self.ball.speed.0.y == BALL_SPEED || self.ball.speed.0.y == -BALL_SPEED)
            && -wb <= self.ball.x && self.ball.x <= wb
            && -(hb + BALL_SPEED) <= self.ball.y && self.ball.y <= hb + BALL_SPEED
            && (self.ball.y <= hb || self.ball.speed.0.y == -BALL_SPEED)
            && (self.ball.y >= -hb || self.ball.speed.0.y == BALL_SPEED)
            && -COORD_MAX <= self.positions.p1.x && self.positions.p1.x <= COORD_MAX
            && -COORD_MAX <= self.positions.p1.y && self.positions.p1.y <= COORD_MAX
            && -COORD_MAX <= self.positions.p2.x && self.positions.p2.x <= COORD_MAX
            && -COORD_MAX <= self.positions.p2.y && self.positions.p2.y <= COORD_MAX
    }

    /// A match at its start: paddles at mid-height just inside either wall,
    /// the ball at the centre with a random serve, the score level at nil.
    pub fn new(w: i64, h: i64) -> (s: MatchState)
        requires
            BALL_SIZE <= w <= COORD_MAX,
            PADDLE_HEIGHT <= h <= COORD_MAX,
        ensures
            s.wf(),
            s.win == (WinSize { w, h }),
            s.p1.x == -(w / 2) + PADDLE_WIDTH / 2 + PADDLE_INSET,
            s.p2.x == w / 2 - PADDLE_WIDTH / 2 - PADDLE_INSET,
            s.p1.y == 0 && s.p2.y == 0,
            s.p1.speed.0 == DEFAULT_MOVE_SPEED,
            s.p2.speed.0 == DEFAULT_MOVE_SPEED,
            s.ball.x == 0 && s.ball.y == 0,
            s.ball.speed.wf(),
            s.positions == (PositionOfPlayers { p1: Vec2 { x: 0, y: 0 }, p2: Vec2 { x: 0, y: 0 } }),
            s.scoreboard == (Scoreboard { p1: 0, p2: 0 }),
    {
        let win = WinSize { w, h };
        let p1 = Paddle { x: -(w / 2) + PADDLE_WIDTH / 2 + PADDLE_INSET, y: 0, speed: MoveSpeed::default() };
        let p2 = Paddle { x: w / 2 - PADDLE_WIDTH / 2 - PADDLE_INSET, y: 0, speed: MoveSpeed::default() };
        let ball = Ball { x: 0, y: 0, speed: BallSpeed::default() };
        MatchState {
            win,
            p1,
            p2,
            ball,
            positions: PositionOfPlayers { p1: Vec2 { x: 0, y: 0 }, p2: Vec2 { x: 0, y: 0 } },
            scoreboard: Scoreboard { p1: 0, p2: 0 },
        }
    }
}

} // verus!
