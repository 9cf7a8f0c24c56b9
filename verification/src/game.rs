//! The game state: the snake's body and direction, the food, the board
//! bounds, and the collision rules that govern a single step of movement.

use vstd::prelude::*;
use std::collections::VecDeque;

verus! {

/// A cell of the board grid, addressed by column `x` and row `y`.
#[derive(Clone, Copy, PartialEq, Eq, Structural, Debug)]
pub struct Coordinate {
    pub x: i32,
    pub y: i32,
}

/// One of the four axis-aligned movement directions. Diagonal motion does
/// not exist.
#[derive(Clone, Copy, PartialEq, Eq, Structural, Debug)]
pub enum Direction {
    Up,
    Down,
    Left,
    Right,
}

/// The drawable area of the board: the cells `(x, y)` with
/// `0 <= x < width` and `0 <= y < height`. Bounds are re-read from the
/// terminal each tick, so they are passed in rather than stored.
#[derive(Clone, Copy, PartialEq, Eq, Structural, Debug)]
pub struct Bounds {
    pub width: i32,
    pub height: i32,
}

/// The two ways a proposed move can end the game. Both are fatal to the
/// session; neither is ever retried.
#[derive(Clone, Copy, PartialEq, Eq, Structural, Debug)]
pub enum CollisionKind {
    WallCollision,
    SelfCollision,
}

/// The food: a single cell, replaced whenever the snake eats it.
#[derive(Clone, Copy, PartialEq, Eq, Structural, Debug)]
pub struct Food {
    pub position: Coordinate,
}

/// The snake: its body cells, head first, and its current direction of
/// travel. The body is never empty.
pub struct Snake {
    pub body: VecDeque<Coordinate>,
    pub direction: Direction,
}

/// Horizontal displacement of one step in direction `d`.
pub open spec fn step_dx(d: Direction) -> int {
    match d {
        Direction::Up => 0,
        Direction::Down => 0,
        Direction::Left => -1,
        Direction::Right => 1,
    }
}

/// Vertical displacement of one step in direction `d`. The origin is the
/// top-left corner, so `Up` decreases `y`.
pub open spec fn step_dy(d: Direction) -> int {
    match d {
        Direction::Up => -1,
        Direction::Down => 1,
        Direction::Left => 0,
        Direction::Right => 0,
    }
}

/// Whether the cell `(x, y)` lies on the board: bounds are inclusive at 0
/// and exclusive at `width` / `height`.
pub open spec fn in_bounds(x: int, y: int, bounds: Bounds) -> bool {
    &&& 0 <= x < bounds.width
    &&& 0 <= y < bounds.height
}

/// Whether the cell `(x, y)` is occupied by some segment of `body`.
pub open spec fn occupies(body: Seq<Coordinate>, x: int, y: int) -> bool {
    exists|i: int| 0 <= i < body.len() && body[i].x == x && body[i].y == y
}

/// A coordinate from which one step in any direction stays within `i32`.
/// Every cell that has ever been placed on a board satisfies this.
pub open spec fn steppable(c: Coordinate) -> bool {
    &&& 0 <= c.x < i32::MAX
    &&& 0 <= c.y < i32::MAX
}

/// The outcome of proposing one step of `d` from the head of `body` on a
/// board of the given bounds. Walls are checked before self-collision: a
/// step off the board is a `WallCollision` even if the target cell also
/// lies under the body. A step onto any currently occupied cell — the tail
/// included, since it has not yet been vacated at check time — is a
/// `SelfCollision`.
pub open spec fn advance_outcome(body: Seq<Coordinate>, d: Direction, bounds: Bounds) -> Result<
    (),
    CollisionKind,
>
    recommends
        body.len() >= 1,
{
    let cx = body[0].x + step_dx(d);
    let cy = body[0].y + step_dy(d);
    if !in_bounds(cx, cy, bounds) {
        Err(CollisionKind::WallCollision)
    } else if occupies(body, cx, cy) {
        Err(CollisionKind::SelfCollision)
    } else {
        Ok(())
    }
}

/// Whether the cell `c` is occupied by some segment of `body`.
fn body_occupies(body: &VecDeque<Coordinate>, c: Coordinate) -> (r: bool)
    ensures
        r == occupies(body@, c.x as int, c.y as int),
{
    let n = body.len();
    let mut i: usize = 0;
    while i < n
        invariant
            n == body@.len(),
            0 <= i <= n,
            forall|j: int| 0 <= j < i ==> !(body@[j].x == c.x && body@[j].y == c.y),
        decreases n - i,
    {
        if body[i] == c {
            return true;
        }
        i = i + 1;
    }
    false
}

impl Snake {
    /// The invariant of every snake: the body sequence is never empty.
    /// `new` establishes it and every mutating operation preserves it.
    pub open spec fn wf(&self) -> bool {
        self.body@.len() >= 1
    }

    /// The snake at the start of a session: a single segment at (10, 10),
    /// heading right.
    pub fn new() -> (s: Snake)
        ensures
            s.wf(),
            s.body@ == seq![Coordinate { x: 10, y: 10 }],
            s.direction == Direction::Right,
    {
        let mut body: VecDeque<Coordinate> = VecDeque::new();
        body.push_back(Coordinate { x: 10, y: 10 });
        proof {
            assert(body@ =~= seq![Coordinate { x: 10, y: 10 }]);
        }
        Snake { body, direction: Direction::Right }
    }

    /// Move one step in `direction`: the candidate head is checked against
    /// the walls, then against the whole current body; on success it is
    /// pushed at the front and the tail cell is removed, a translation by
    /// one cell that leaves the length unchanged. On a collision the body
    /// is untouched. Either both of the insert/remove steps happen or
    /// neither does.
    pub fn advance(&mut self, direction: Direction, bounds: Bounds) -> (r: Result<
        (),
        CollisionKind,
    >)
        requires
            old(self).wf(),
            steppable(old(self).body@[0]),
        ensures
            final(self).wf(),
            r == advance_outcome(old(self).body@, direction, bounds),
            final(self).direction == old(self).direction,
            final(self).body@.len() == old(self).body@.len(),
            r is Err ==> final(self).body@ == old(self).body@,
            r is Ok ==> final(self).body@[0].x == old(self).body@[0].x + step_dx(direction),
            r is Ok ==> final(self).body@[0].y == old(self).body@[0].y + step_dy(direction),
            r is Ok ==> final(self).body@.drop_first() == old(self).body@.drop_last(),
    {
        let head = self.body[0];
        let mut nx = head.x;
        let mut ny = head.y;
        match direction {
            Direction::Up => {
                ny = ny - 1;
            },
            Direction::Down => {
                ny = ny + 1;
            },
            Direction::Left => {
                nx = nx - 1;
            },
            Direction::Right => {
                nx = nx + 1;
            },
        }
        if nx < 0 || nx >= bounds.width || ny < 0 || ny >= bounds.height {
            return Err(CollisionKind::WallCollision);
        }
        let candidate = Coordinate { x: nx, y: ny };
        if body_occupies(&self.body, candidate) {
            return Err(CollisionKind::SelfCollision);
        }
        self.body.push_front(candidate);
        let _ = self.body.pop_back();
        proof {
            assert(self.body@.drop_first() =~= old(self).body@.drop_last());
        }
        Ok(())
    }
}

/// Move the snake one step in its own current direction: the per-tick
/// movement of the update engine, with the board bounds supplied by the
/// caller from the terminal's current size.
pub fn update_snake(snake: &mut Snake, bounds: Bounds) -> (r: Result<(), CollisionKind>)
    requires
        old(snake).wf(),
        steppable(old(snake).body@[0]),
    ensures
        final(snake).wf(),
        r == advance_outcome(old(snake).body@, old(snake).direction, bounds),
        final(snake).direction == old(snake).direction,
        final(snake).body@.len() == old(snake).body@.len(),
        r is Err ==> final(snake).body@ == old(snake).body@,
        r is Ok ==> final(snake).body@[0].x == old(snake).body@[0].x + step_dx(
            old(snake).direction,
        ),
        r is Ok ==> final(snake).body@[0].y == old(snake).body@[0].y + step_dy(
            old(snake).direction,
        ),
        r is Ok ==> final(snake).body@.drop_first() == old(snake).body@.drop_last(),
{
    let direction = snake.direction;
    snake.advance(direction, bounds)
}

/// A snake of length 1 collides only with walls: one step never lands on
/// the lone body cell, so a move off the board is a `WallCollision` and no
/// move at all is a `SelfCollision`.
pub proof fn lemma_single_segment_wall_only(body: Seq<Coordinate>, d: Direction, bounds: Bounds)
    requires
        body.len() == 1,
    ensures
        !in_bounds(body[0].x + step_dx(d), body[0].y + step_dy(d), bounds) ==> advance_outcome(
            body,
            d,
            bounds,
        ) == Err::<(), CollisionKind>(CollisionKind::WallCollision),
        advance_outcome(body, d, bounds) != Err::<(), CollisionKind>(CollisionKind::SelfCollision),
{
    let cx = body[0].x + step_dx(d);
    let cy = body[0].y + step_dy(d);
    assert(step_dx(d) != 0 || step_dy(d) != 0);
    assert(!occupies(body, cx, cy)) by {
        if occupies(body, cx, cy) {
            let i = choose|i: int| 0 <= i < body.len() && body[i].x == cx && body[i].y == cy;
            assert(i == 0);
            assert(false);
        }
    }
}

/// Moving onto any cell the body currently occupies — the tail cell
/// included, since the tail has not yet been vacated when the check runs —
/// is a self-collision, provided the target cell is on the board (walls
/// are checked first).
pub proof fn lemma_move_onto_body_self_collision(
    body: Seq<Coordinate>,
    d: Direction,
    bounds: Bounds,
)
    requires
        body.len() >= 1,
        in_bounds(body[0].x + step_dx(d), body[0].y + step_dy(d), bounds),
        occupies(body, body[0].x + step_dx(d), body[0].y + step_dy(d)),
    ensures
        advance_outcome(body, d, bounds) == Err::<(), CollisionKind>(CollisionKind::SelfCollision),
{
}

/// Whether the snake's head sits on the food: an exact coordinate match,
/// head against food cell. False for an (impossible) empty body.
pub fn check_food_collision(snake: &Snake, food: &Food) -> (r: bool)
    ensures
        r == (snake.body@.len() >= 1 && snake.body@[0] == food.position),
{
    snake.body.len() >= 1 && snake.body[0] == food.position
}

/// Lengthen the body by one: the tail cell is duplicated in place, so the
/// snake does not move; the duplicate becomes a real trailing cell once the
/// next step pulls the body forward.
pub fn grow_snake(snake: &mut Snake)
    requires
        old(snake).wf(),
    ensures
        final(snake).wf(),
        final(snake).body@ == old(snake).body@.push(old(snake).body@.last()),
        final(snake).direction == old(snake).direction,
        final(snake).body@.len() == old(snake).body@.len() + 1,
{
    let tail = snake.body[snake.body.len() - 1];
    snake.body.push_back(tail);
}

} // verus!
