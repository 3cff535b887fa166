use vstd::prelude::*;

verus! {

/// One of the four unit steps on the grid, or no step at all.
#[derive(Clone, Copy, Debug, PartialEq, Eq, Structural)]
pub enum Direction {
    Left,
    Right,
    Down,
    Up,
    Still,
}

/// A cell on the playfield; `y` grows downwards.
#[derive(Clone, Copy, Debug, PartialEq, Eq, Structural)]
pub struct Point {
    pub x: i32,
    pub y: i32,
}

/// An axis-aligned rectangle of cells, both ends inclusive.
#[derive(Clone, Copy, Debug, PartialEq, Eq, Structural)]
pub struct Bounds {
    pub min_x: i32,
    pub min_y: i32,
    pub max_x: i32,
    pub max_y: i32,
}

impl Direction {
    /// Horizontal component of the unit vector.
    pub open spec fn dx(self) -> int {
        match self {
            Direction::Left => -1,
            Direction::Right => 1,
            _ => 0,
        }
    }

    /// Vertical component of the unit vector.
    pub open spec fn dy(self) -> int {
        match self {
            Direction::Up => -1,
            Direction::Down => 1,
            _ => 0,
        }
    }

    /// The unit vector of this direction.
    pub fn vel(&self) -> (r: Point)
        ensures
            r.x == self.dx(),
            r.y == self.dy(),
    {
        match self {
            Direction::Left => Point { x: -1, y: 0 },
            Direction::Right => Point { x: 1, y: 0 },
            Direction::Up => Point { x: 0, y: -1 },
            Direction::Down => Point { x: 0, y: 1 },
            Direction::Still => Point { x: 0, y: 0 },
        }
    }
}

/// Whether the cell one step from `p` along `d` lies on the row of `b` and
/// within its horizontal span. Every object is one row tall.
pub open spec fn collides(p: Point, b: Bounds, d: Direction) -> bool {
    &&& p.y + d.dy() == b.max_y
    &&& b.min_x <= p.x + d.dx() <= b.max_x
}

/// The position reached by one step from `p` along `d`.
pub open spec fn stepped(p: Point, d: Direction) -> (int, int) {
    (p.x + d.dx(), p.y + d.dy())
}

/// `Some(i)` for the first box of `bs`, at `start` or after it, that a step
/// from `p` along `d` enters; `None` when it enters none of them.
pub open spec fn first_collision_from(p: Point, bs: Seq<Bounds>, d: Direction, start: int) -> Option<int>
    decreases bs.len() - start,
{
    if start < 0 || start >= bs.len() {
        None
    } else if collides(p, bs[start], d) {
        Some(start)
    } else {
        first_collision_from(p, bs, d, start + 1)
    }
}

/// The first box of `bs` that a step from `p` along `d` enters.
pub open spec fn first_collision(p: Point, bs: Seq<Bounds>, d: Direction) -> Option<int> {
    first_collision_from(p, bs, d, 0)
}

/// What `first_collision_from` finds: the earliest box at or after `start`
/// that is entered, or none when no such box is.
pub proof fn lemma_first_collision_from(p: Point, bs: Seq<Bounds>, d: Direction, start: int)
    requires
        0 <= start <= bs.len(),
    ensures
        match first_collision_from(p, bs, d, start) {
            Some(i) => {
                &&& start <= i < bs.len()
                &&& collides(p, bs[i], d)
                &&& forall|j: int| start <= j < i ==> !collides(p, #[trigger] bs[j], d)
            },
            None => forall|j: int| start <= j < bs.len() ==> !collides(p, #[trigger] bs[j], d),
        },
    decreases bs.len() - start,
{
    if start < bs.len() && !collides(p, bs[start], d) {
        lemma_first_collision_from(p, bs, d, start + 1);
    }
}

impl Point {
    /// Look-ahead test: does a step along `direction` enter `bounds`?
    pub fn will_collide(&self, bounds: &Bounds, direction: &Direction) -> (r: bool)
        ensures
            r == collides(*self, *bounds, *direction),
    {
        let vel = direction.vel();
        let nx = self.x as i64 + vel.x as i64;
        let ny = self.y as i64 + vel.y as i64;
        ny == bounds.max_y as i64 && nx <= bounds.max_x as i64 && nx >= bounds.min_x as i64
    }

    /// Index of the first box in `bounds` that a step along `direction`
    /// enters; earlier boxes win when several match.
    pub fn will_collide_with_any(&self, bounds: &Vec<Bounds>, direction: &Direction) -> (r: Option<usize>)
        ensures
            r matches Some(i) ==> i < bounds@.len(),
            first_collision(*self, bounds@, *direction) == match r {
                Some(i) => Some(i as int),
                None => None::<int>,
            },
    {
        let mut idx: usize = 0;
        while idx < bounds.len()
            invariant
                idx <= bounds@.len(),
                first_collision(*self, bounds@, *direction) == first_collision_from(*self, bounds@, *direction, idx as int),
            decreases bounds@.len() - idx,
        {
            if self.will_collide(&bounds[idx], direction) {
                return Some(idx);
            }
            idx = idx + 1;
        }
        None
    }

    /// Moves one step along `direction`.
    pub fn move_dir(&mut self, direction: &Direction)
        requires
            i32::MIN <= old(self).x + direction.dx() <= i32::MAX,
            i32::MIN <= old(self).y + direction.dy() <= i32::MAX,
        ensures
            (final(self).x as int, final(self).y as int) == stepped(*old(self), *direction),
    {
        let vel = direction.vel();
        self.x = self.x + vel.x;
        self.y = self.y + vel.y;
    }
}

} // verus!
