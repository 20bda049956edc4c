//! The paddle controllers: one tick of vertical motion for each player.
//!
//! A tick reads the player's two keys, moves the paddle by its speed in the
//! chosen direction, clamps it to the playfield, and publishes the settled
//! position for the ball controller to read later in the same tick.

use vstd::prelude::*;

verus! {

use crate::geometry::{clamped, clamp, Vec2};
use crate::state::{MatchState, Paddle, WinSize, PADDLE_HEIGHT};

/// The direction a pair of key states asks for: up wins over down, neither
/// key holds the paddle still.
pub open spec fn direction(up: bool, down: bool) -> int {
    if up {
        1
    } else if down {
        -1
    } else {
        0
    }
}

/// One paddle after a tick of motion: displaced by `direction * speed` and
/// clamped to the band the playfield leaves for a paddle.
pub open spec fn paddle_moved(win: WinSize, p: Paddle, up: bool, down: bool) -> Paddle {
    Paddle {
        x: p.x,
        y: clamped(win.h as int, p.y + direction(up, down) * p.speed.0, PADDLE_HEIGHT as int) as i64,
        speed: p.speed,
    }
}

/// The whole state after player 1's paddle tick: the paddle moves and its
/// settled position is published; nothing else changes.
pub open spec fn paddle1_tick(s: MatchState, up: bool, down: bool) -> MatchState {
    let p = paddle_moved(s.win, s.p1, up, down);
    MatchState {
        p1: p,
        positions: crate::state::PositionOfPlayers {
            p1: Vec2 { x: p.x, y: p.y },
            p2: s.positions.p2,
        },
        ..s
    }
}

/// The whole state after player 2's paddle tick.
pub open spec fn paddle2_tick(s: MatchState, up: bool, down: bool) -> MatchState {
    let p = paddle_moved(s.win, s.p2, up, down);
    MatchState {
        p2: p,
        positions: crate::state::PositionOfPlayers {
            p1: s.positions.p1,
            p2: Vec2 { x: p.x, y: p.y },
        },
        ..s
    }
}

/// A moved paddle is well formed again: the clamp pins it inside the band,
/// whatever displacement the tick asked for.
pub proof fn lemma_paddle_moved_wf(win: WinSize, p: Paddle, up: bool, down: bool)
    requires
        win.wf(),
        p.wf(win.h as int),
    ensures
        paddle_moved(win, p, up, down).wf(win.h as int),
        -(win.h as int / 2) <= paddle_moved(win, p, up, down).y <= win.h as int / 2,
{
}

/// Player 1's paddle tick.  `up` and `down` are the key states of the
/// player's two keys this tick; if both are held, up wins.  The paddle's
/// vertical position never leaves `[-(h/2 - PADDLE_HEIGHT/2), h/2 - PADDLE_HEIGHT/2]`.
pub fn player1_move(up: bool, down: bool, state: &mut MatchState)
    requires
        old(state).wf(),
    ensures
        *final(state) == paddle1_tick(*old(state), up, down),
        final(state).wf(),
        -(old(state).win.h as int / 2 - PADDLE_HEIGHT as int / 2) <= final(state).p1.y
            <= old(state).win.h as int / 2 - PADDLE_HEIGHT as int / 2,
{
    let dir: i64 = if up {
        1
    } else if down {
        -1
    } else {
        0
    };
    let mut y = state.p1.y + dir * state.p1.speed.0;
    clamp(&state.win, &mut y, PADDLE_HEIGHT);
    state.p1.y = y;
    state.positions.p1.x = state.p1.x;
    state.positions.p1.y = y;
    proof {
        lemma_paddle_moved_wf(old(state).win, old(state).p1, up, down);
    }
}

/// Player 2's paddle tick, symmetric to player 1's.
pub fn player2_move(up: bool, down: bool, state: &mut MatchState)
    requires
        old(state).wf(),
    ensures
        *final(state) == paddle2_tick(*old(state), up, down),
        final(state).wf(),
        -(old(state).win.h as int / 2 - PADDLE_HEIGHT as int / 2) <= final(state).p2.y
            <= old(state).win.h as int / 2 - PADDLE_HEIGHT as int / 2,
{
    let dir: i64 = if up {
        1
    } else if down {
        -1
    } else {
        0
    };
    let mut y = state.p2.y + dir * state.p2.speed.0;
    clamp(&state.win, &mut y, PADDLE_HEIGHT);
    state.p2.y = y;
    state.positions.p2.x = state.p2.x;
    state.positions.p2.y = y;
    proof {
        lemma_paddle_moved_wf(old(state).win, old(state).p2, up, down);
    }
}

} // verus!
