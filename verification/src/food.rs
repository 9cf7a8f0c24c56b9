//! Food placement: a fresh food cell is drawn at random, strictly inside a
//! one-cell border margin, whenever the old one is eaten. Placement does not
//! avoid the snake's body; food under the snake is accepted behavior.

use vstd::prelude::*;
use rand::Rng;
use crate::game::{Bounds, Coordinate, Food};

verus! {

/// Relies on rand::Rng::gen_range on a half-open `i32` range: the result
/// lies in `[lo, hi)`; the call panics on an empty range, which `requires`
/// rules out. Nothing more is promised of a random value.
#[verifier::external_body]
fn random_in_range(lo: i32, hi: i32) -> (r: i32)
    requires
        lo < hi,
    ensures
        lo <= r < hi,
{
    rand::thread_rng().gen_range(lo..hi)
}

/// Draw a food coordinate at random, strictly inside the border margin:
/// never on the outermost ring of the board.
pub fn relocate(bounds: Bounds) -> (c: Coordinate)
    requires
        bounds.width >= 3,
        bounds.height >= 3,
    ensures
        1 <= c.x < bounds.width - 1,
        1 <= c.y < bounds.height - 1,
{
    Coordinate {
        x: random_in_range(1, bounds.width - 1),
        y: random_in_range(1, bounds.height - 1),
    }
}

/// A freshly placed food for the given board.
pub fn create_food(bounds: Bounds) -> (f: Food)
    requires
        bounds.width >= 3,
        bounds.height >= 3,
    ensures
        1 <= f.position.x < bounds.width - 1,
        1 <= f.position.y < bounds.height - 1,
{
    Food { position: relocate(bounds) }
}

} // verus!
