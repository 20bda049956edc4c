//! One whole tick of the match, and runs of many ticks.
//!
//! The match loop's ordering is fixed: both paddle controllers settle and
//! publish their positions before the ball controller reads them.  `tick`
//! is that composition; `run` folds it over a sequence of inputs, and the
//! lemmas here state what holds of every such run.

use vstd::prelude::*;

verus! {

use crate::ball::{ball_move_with, ball_tick, lemma_ball_tick_wf};
use crate::paddle::{paddle1_tick, paddle2_tick, player1_move, player2_move};
use crate::state::MatchState;

/// Everything one tick consumes: the four key states and, should the tick
/// end in a scoring reset, the two serve signs.
#[derive(Clone, Copy, Debug, PartialEq, Eq, Structural)]
pub struct TickInput {
    pub p1_up: bool,
    pub p1_down: bool,
    pub p2_up: bool,
    pub p2_down: bool,
    pub flip_x: bool,
    pub flip_y: bool,
}

/// One whole tick: player 1's paddle, player 2's paddle, then the ball.
pub open spec fn tick_spec(s: MatchState, i: TickInput) -> MatchState {
    ball_tick(
        paddle2_tick(paddle1_tick(s, i.p1_up, i.p1_down), i.p2_up, i.p2_down),
        i.flip_x,
        i.flip_y,
    )
}

/// A run: the fold of `tick_spec` over a sequence of inputs.
pub open spec fn run(s: MatchState, inputs: Seq<TickInput>) -> MatchState
    decreases inputs.len(),
{
    if inputs.len() == 0 {
        s
    } else {
        run(tick_spec(s, inputs[0]), inputs.drop_first())
    }
}

/// One exec tick, in the loop's fixed order.
pub fn tick(state: &mut MatchState, input: TickInput)
    requires
        old(state).wf(),
        old(state).scoreboard.p1 < usize::MAX,
        old(state).scoreboard.p2 < usize::MAX,
    ensures
        *final(state) == tick_spec(*old(state), input),
        final(state).wf(),
{
    player1_move(input.p1_up, input.p1_down, state);
    player2_move(input.p2_up, input.p2_down, state);
    ball_move_with(state, input.flip_x, input.flip_y);
}

/// A tick keeps the state well formed.
pub proof fn lemma_tick_spec_wf(s: MatchState, i: TickInput)
    requires
        s.wf(),
    ensures
        tick_spec(s, i).wf(),
{
    crate::paddle::lemma_paddle_moved_wf(s.win, s.p1, i.p1_up, i.p1_down);
    let s1 = paddle1_tick(s, i.p1_up, i.p1_down);
    crate::paddle::lemma_paddle_moved_wf(s1.win, s1.p2, i.p2_up, i.p2_down);
    let s2 = paddle2_tick(s1, i.p2_up, i.p2_down);
    lemma_ball_tick_wf(s2, i.flip_x, i.flip_y);
}

/// Every state of a run is well formed; in particular each paddle stays
/// within the clamp's band after every tick, whatever the inputs were.
pub proof fn lemma_run_wf(s: MatchState, inputs: Seq<TickInput>)
    requires
        s.wf(),
    ensures
        run(s, inputs).wf(),
    decreases inputs.len(),
{
    if inputs.len() > 0 {
        lemma_tick_spec_wf(s, inputs[0]);
        lemma_run_wf(tick_spec(s, inputs[0]), inputs.drop_first());
    }
}

/// Over one tick each score counter is non-decreasing, grows by at most
/// one, and at most one of the two grows.
pub proof fn lemma_tick_scores_monotone(s: MatchState, i: TickInput)
    requires
        s.wf(),
        s.scoreboard.p1 < usize::MAX,
        s.scoreboard.p2 < usize::MAX,
    ensures
        s.scoreboard.p1 <= tick_spec(s, i).scoreboard.p1 <= s.scoreboard.p1 + 1,
        s.scoreboard.p2 <= tick_spec(s, i).scoreboard.p2 <= s.scoreboard.p2 + 1,
        tick_spec(s, i).scoreboard.p1 + tick_spec(s, i).scoreboard.p2
            <= s.scoreboard.p1 + s.scoreboard.p2 + 1,
{
}

/// Across any run both score counters are non-decreasing, and each grows
/// by at most one per tick.
pub proof fn lemma_run_scores_monotone(s: MatchState, inputs: Seq<TickInput>)
    requires
        s.wf(),
        s.scoreboard.p1 + inputs.len() <= usize::MAX,
        s.scoreboard.p2 + inputs.len() <= usize::MAX,
    ensures
        s.scoreboard.p1 <= run(s, inputs).scoreboard.p1 <= s.scoreboard.p1 + inputs.len(),
        s.scoreboard.p2 <= run(s, inputs).scoreboard.p2 <= s.scoreboard.p2 + inputs.len(),
    decreases inputs.len(),
{
    if inputs.len() > 0 {
        lemma_tick_scores_monotone(s, inputs[0]);
        lemma_tick_spec_wf(s, inputs[0]);
        lemma_run_scores_monotone(tick_spec(s, inputs[0]), inputs.drop_first());
    }
}

/// The simulation is deterministic: a run is a function of the starting
/// state and the input sequence alone, serve signs included, so equal
/// seeds and equal inputs give equal trajectories.
pub proof fn lemma_run_deterministic(
    s1: MatchState,
    s2: MatchState,
    inputs1: Seq<TickInput>,
    inputs2: Seq<TickInput>,
)
    requires
        s1 == s2,
        inputs1 == inputs2,
    ensures
        run(s1, inputs1) == run(s2, inputs2),
{
}

} // verus!
