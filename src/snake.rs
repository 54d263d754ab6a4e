//! The snake itself: its body, heading and pending growth.

use std::collections::VecDeque;
use vstd::prelude::*;
use crate::grid::{Cell, Direction, opposite_of, step, step_fits};

verus! {

/// Column of the single cell a new snake occupies.
pub const START_X: i32 = 5;

/// Row of the single cell a new snake occupies.
pub const START_Y: i32 = 5;

/// The cell a new snake occupies.
pub open spec fn start_cell() -> Cell {
    Cell { x: START_X, y: START_Y }
}

/// The heading after a request: a request for the exact reverse of the
/// current heading is discarded, any other request is taken.
pub open spec fn steered(current: Direction, requested: Direction) -> Direction {
    if requested == opposite_of(current) {
        current
    } else {
        requested
    }
}

/// The body after one movement step: the new head goes in front, and the
/// tail leaves unless the snake is growing.
pub open spec fn advanced_body(body: Seq<Cell>, d: Direction, growing: bool) -> Seq<Cell>
    recommends
        body.len() >= 1,
{
    let moved = seq![step(body[0], d)] + body;
    if growing {
        moved
    } else {
        moved.drop_last()
    }
}

/// The moving part of the game. `body` runs from head (front) to tail (back).
pub struct SnakeState {
    pub body: VecDeque<Cell>,
    pub direction: Direction,
    pub growing: bool,
}

impl SnakeState {
    /// The body is never empty.
    pub open spec fn wf(&self) -> bool {
        self.body@.len() >= 1
    }

    /// The head of a well-formed snake.
    pub open spec fn head_spec(&self) -> Cell
        recommends
            self.wf(),
    {
        self.body@[0]
    }

    /// True when the fresh state of a game: one cell at the start position,
    /// heading right, not growing.
    pub open spec fn is_initial(&self) -> bool {
        &&& self.body@ == seq![start_cell()]
        &&& self.direction == Direction::Right
        &&& !self.growing
    }

    /// A snake of one cell at the start position, heading right, not growing.
    pub fn new() -> (r: SnakeState)
        ensures
            r.wf(),
            r.is_initial(),
    {
        let mut body: VecDeque<Cell> = VecDeque::new();
        body.push_back(Cell { x: START_X, y: START_Y });
        SnakeState { body, direction: Direction::Right, growing: false }
    }

    /// The head cell.
    pub fn head(&self) -> (r: Cell)
        requires
            self.wf(),
        ensures
            r == self.head_spec(),
    {
        self.body[0]
    }

    /// The score, which is the length of the body.
    pub fn score(&self) -> (r: usize)
        ensures
            r == self.body@.len(),
    {
        self.body.len()
    }

    /// Takes a heading request unless it is the exact reverse of the current
    /// heading, in which case it is silently discarded.
    pub fn set_direction(&mut self, requested: Direction)
        ensures
            final(self).direction == steered(old(self).direction, requested),
            final(self).body@ == old(self).body@,
            final(self).growing == old(self).growing,
    {
        if requested != self.direction.opposite() {
            self.direction = requested;
        }
    }

    /// Asks for one cell of growth at the next step; asking again before that
    /// step changes nothing.
    pub fn mark_growing(&mut self)
        ensures
            final(self).growing,
            final(self).body@ == old(self).body@,
            final(self).direction == old(self).direction,
    {
        self.growing = true;
    }

    /// Moves one cell along the heading. The length is kept when not growing
    /// and goes up by one when growing; growth is used up either way.
    pub fn advance(&mut self)
        requires
            old(self).wf(),
            step_fits(old(self).head_spec(), old(self).direction),
        ensures
            final(self).wf(),
            final(self).body@ == advanced_body(old(self).body@, old(self).direction, old(self).growing),
            final(self).body@.len() == old(self).body@.len() + if old(self).growing { 1int } else { 0int },
            final(self).direction == old(self).direction,
            !final(self).growing,
    {
        let new_head = self.body[0].offset(self.direction);
        self.body.push_front(new_head);
        if !self.growing {
            let _ = self.body.pop_back();
        } else {
            self.growing = false;
        }
    }
}

} // verus!
