//! The per-tick update engine: apply the latest buffered direction change,
//! move the snake, and on a food hit grow it and place a new food. A
//! collision is the terminal outcome of a session; the caller stops the
//! loop when one is returned.

use vstd::prelude::*;
use crate::food::create_food;
use crate::game::{
    advance_outcome, check_food_collision, grow_snake, step_dx, step_dy, steppable, Bounds,
    CollisionKind, Direction, Food, Snake,
};

verus! {

/// The direction the snake travels this tick: the buffered change if one
/// arrived since the last tick, else the direction it already had.
pub open spec fn effective_direction(current: Direction, pending: Option<Direction>) -> Direction {
    match pending {
        Some(d) => d,
        None => current,
    }
}

/// What the buffer of pending direction changes holds after one more key:
/// changes between two ticks are not queued, the last writer wins.
pub open spec fn buffered(pending: Option<Direction>, d: Direction) -> Option<Direction> {
    Some(d)
}

/// Fold one directional key into the buffer of pending changes. Only the
/// most recent key before a tick's processing takes effect.
#[allow(unused_variables)]
pub fn buffer_direction(pending: Option<Direction>, d: Direction) -> (r: Option<Direction>)
    ensures
        r == buffered(pending, d),
{
    Some(d)
}

/// Issuing the same directional key repeatedly between two ticks leaves
/// the buffer exactly as issuing it once does.
pub proof fn lemma_buffer_idempotent(pending: Option<Direction>, d: Direction)
    ensures
        buffered(buffered(pending, d), d) == buffered(pending, d),
{
}

/// One tick while the session is running, in strict order: apply the
/// buffered direction change, move the snake, and if the new head sits on
/// the food, grow the snake and place a new food strictly inside the
/// border margin. A collision leaves snake and food untouched except for
/// the direction change, and is the transition to the terminal state: the
/// caller must stop. The body length changes exactly at a
/// food-consumption tick, where it grows by exactly 1.
pub fn tick(snake: &mut Snake, food: &mut Food, pending: Option<Direction>, bounds: Bounds) -> (r:
    Result<(), CollisionKind>)
    requires
        old(snake).wf(),
        steppable(old(snake).body@[0]),
        bounds.width >= 3,
        bounds.height >= 3,
    ensures
        final(snake).wf(),
        ({
            let d = effective_direction(old(snake).direction, pending);
            let ob = old(snake).body@;
            let nb = final(snake).body@;
            let nf = *final(food);
            let cx = ob[0].x + step_dx(d);
            let cy = ob[0].y + step_dy(d);
            let eats = cx == old(food).position.x && cy == old(food).position.y;
            &&& r == advance_outcome(ob, d, bounds)
            &&& final(snake).direction == d
            &&& (r is Err ==> nb == ob && nf == *old(food))
            &&& (r is Ok ==> {
                &&& nb.len() == ob.len() + (if eats {
                    1int
                } else {
                    0int
                })
                &&& nb[0].x == cx
                &&& nb[0].y == cy
                &&& (!eats ==> nb.drop_first() == ob.drop_last() && nf == *old(food))
                &&& (eats ==> nb.drop_last().drop_first() == ob.drop_last())
                &&& (eats ==> nb.last() == nb[nb.len() - 2])
                &&& (eats ==> 1 <= nf.position.x < bounds.width - 1 && 1 <= nf.position.y
                    < bounds.height - 1)
            })
        }),
{
    if let Some(d) = pending {
        snake.direction = d;
    }
    let direction = snake.direction;
    let moved = snake.advance(direction, bounds);
    match moved {
        Err(kind) => Err(kind),
        Ok(()) => {
            if check_food_collision(snake, food) {
                let ghost mid = snake.body@;
                grow_snake(snake);
                *food = create_food(bounds);
                proof {
                    assert(snake.body@.drop_last() =~= mid);
                }
            }
            Ok(())
        },
    }
}

} // verus!
