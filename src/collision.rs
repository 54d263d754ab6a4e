//! Collision predicates on a candidate head and body.

use std::collections::VecDeque;
use vstd::prelude::*;
use crate::grid::{Cell, GRID_HEIGHT, GRID_WIDTH, in_grid};

verus! {

/// Some segment behind the head sits on the head's cell.
pub open spec fn self_hit(body: Seq<Cell>) -> bool {
    body.len() > 0 && exists|i: int| 1 <= i < body.len() && #[trigger] body[i] == body[0]
}

/// The head has left the board.
pub fn is_wall_collision(head: Cell) -> (r: bool)
    ensures
        r == !in_grid(head),
{
    head.x < 0 || head.x >= GRID_WIDTH || head.y < 0 || head.y >= GRID_HEIGHT
}

/// A segment at index above zero equals the head.
pub fn is_self_collision(body: &VecDeque<Cell>) -> (r: bool)
    ensures
        r == self_hit(body@),
{
    let n = body.len();
    if n == 0 {
        return false;
    }
    let head = body[0];
    let mut i: usize = 1;
    while i < n
        invariant
            n == body@.len(),
            n > 0,
            head == body@[0],
            1 <= i <= n,
            forall|j: int| 1 <= j < i ==> body@[j] != head,
        decreases n - i,
    {
        if body[i] == head {
            return true;
        }
        i = i + 1;
    }
    false
}

/// The head is on the food.
pub fn is_food_collision(head: Cell, food: Cell) -> (r: bool)
    ensures
        r == (head == food),
{
    head == food
}

} // verus!
