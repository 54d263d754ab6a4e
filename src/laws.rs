//! Properties of the rules over whole runs of frames.

use vstd::prelude::*;
use crate::game::{GameState, SessionView, eats, moved_body, next_view};
use crate::grid::{Cell, Direction, GRID_HEIGHT, GRID_WIDTH, in_grid, opposite_of};
use crate::snake::steered;

verus! {

/// What one frame hands to the rules.
pub struct FrameInput {
    pub request: Option<Direction>,
    pub fired: bool,
    pub fresh: Cell,
}

/// The view after running `frames` in order from `v`.
pub open spec fn run(v: SessionView, frames: Seq<FrameInput>) -> SessionView
    decreases frames.len(),
{
    if frames.len() == 0 {
        v
    } else {
        run(next_view(v, frames[0].request, frames[0].fired, frames[0].fresh), frames.drop_first())
    }
}

/// How many of `frames`, run from `v`, move the snake onto the food.
pub open spec fn meals(v: SessionView, frames: Seq<FrameInput>) -> nat
    decreases frames.len(),
{
    if frames.len() == 0 {
        0
    } else {
        let f = frames[0];
        (if eats(v, f.request, f.fired) { 1nat } else { 0nat })
            + meals(next_view(v, f.request, f.fired, f.fresh), frames.drop_first())
    }
}

/// One for a pending growth, else zero.
pub open spec fn pending(v: SessionView) -> nat {
    if v.growing { 1 } else { 0 }
}

/// One frame adds to length plus pending growth exactly one per meal.
pub proof fn lemma_frame_length(v: SessionView, request: Option<Direction>, fired: bool, fresh: Cell)
    ensures
        ({
            let w = next_view(v, request, fired, fresh);
            w.body.len() + pending(w) == v.body.len() + pending(v)
                + if eats(v, request, fired) { 1int } else { 0int }
        }),
{
    let body = moved_body(v, request);
    if v.state == GameState::Playing && fired {
        assert(body.len() == v.body.len() + pending(v));
    }
}

/// Over any run, length plus pending growth goes up by exactly the number
/// of meals.
pub proof fn lemma_run_length(v: SessionView, frames: Seq<FrameInput>)
    ensures
        run(v, frames).body.len() + pending(run(v, frames)) == v.body.len() + pending(v) + meals(v, frames),
    decreases frames.len(),
{
    if frames.len() > 0 {
        let f = frames[0];
        lemma_frame_length(v, f.request, f.fired, f.fresh);
        lemma_run_length(next_view(v, f.request, f.fired, f.fresh), frames.drop_first());
    }
}

/// From a snake of one cell with no growth pending, after any frames the
/// length plus pending growth is one plus the number of meals; so once the
/// growth of the last meal is used, the length is one plus the meals.
pub proof fn lemma_length_counts_meals(v: SessionView, frames: Seq<FrameInput>)
    requires
        v.body.len() == 1,
        !v.growing,
    ensures
        run(v, frames).body.len() + pending(run(v, frames)) == 1 + meals(v, frames),
        !run(v, frames).growing ==> run(v, frames).body.len() == 1 + meals(v, frames),
{
    lemma_run_length(v, frames);
}

/// A request for the reverse heading keeps the heading; any other request
/// is taken.
pub proof fn lemma_reversal_guard(current: Direction, requested: Direction)
    ensures
        requested == opposite_of(current) ==> steered(current, requested) == current,
        requested != opposite_of(current) ==> steered(current, requested) == requested,
{
}

/// A move that puts the head just past any edge of the board, level with
/// the board, ends a game in progress.
pub proof fn lemma_wall_exit_ends_game(v: SessionView, request: Option<Direction>, fresh: Cell)
    requires
        v.state == GameState::Playing,
        ({
            let h = moved_body(v, request)[0];
            ||| (h.x == -1 || h.x == GRID_WIDTH) && 0 <= h.y < GRID_HEIGHT
            ||| (h.y == -1 || h.y == GRID_HEIGHT) && 0 <= h.x < GRID_WIDTH
        }),
    ensures
        next_view(v, request, true, fresh).state == GameState::GameOver,
{
}

/// A finished game stays finished, unchanged, through any frames.
pub proof fn lemma_game_over_absorbs(v: SessionView, frames: Seq<FrameInput>)
    requires
        v.state == GameState::GameOver,
    ensures
        run(v, frames) == v,
        meals(v, frames) == 0,
    decreases frames.len(),
{
    if frames.len() > 0 {
        lemma_game_over_absorbs(v, frames.drop_first());
    }
}

/// When every fresh cell handed to the rules is on the board, the food
/// stays on the board through any run.
pub proof fn lemma_food_stays_on_board(v: SessionView, frames: Seq<FrameInput>)
    requires
        in_grid(v.food),
        forall|i: int| 0 <= i < frames.len() ==> in_grid(#[trigger] frames[i].fresh),
    ensures
        in_grid(run(v, frames).food),
    decreases frames.len(),
{
    if frames.len() > 0 {
        let f = frames[0];
        let rest = frames.drop_first();
        assert forall|i: int| 0 <= i < rest.len() implies in_grid(#[trigger] rest[i].fresh) by {
            assert(rest[i] == frames[i + 1]);
        }
        lemma_food_stays_on_board(next_view(v, f.request, f.fired, f.fresh), rest);
    }
}

} // verus!
