//! Food placement.

use rand::Rng;
use vstd::prelude::*;
use crate::grid::{Cell, GRID_HEIGHT, GRID_WIDTH, in_grid};

verus! {

/// Relies on rand's `thread_rng().gen_range(0..n)`: a value drawn from
/// `0..n`, which must not be empty.
#[verifier::external_body]
fn random_below(n: i32) -> (r: i32)
    requires
        n > 0,
    ensures
        0 <= r < n,
{
    rand::thread_rng().gen_range(0..n)
}

/// A food cell drawn uniformly over the whole board. Cells under the snake
/// are not excluded.
pub fn spawn_food() -> (r: Cell)
    ensures
        in_grid(r),
{
    let x = random_below(GRID_WIDTH);
    let y = random_below(GRID_HEIGHT);
    Cell { x, y }
}

} // verus!
