use vstd::prelude::*;
use crate::geometry::{Bounds, Direction, Point, collides, first_collision};

verus! {

/// The classified result of a one-cell move attempt along one axis.
#[derive(Clone, Copy, Debug, PartialEq, Eq, Structural)]
pub enum MoveResult {
    HitPaddleCenter,
    HitPaddleLeft,
    HitPaddleRight,
    HitWallLeftRight,
    HitWallBottom,
    HitWallTop,
    /// A brick, with the direction of approach and its index in the brick list.
    HitBrick(Direction, usize),
}

/// Raised when the ball falls onto the bottom wall.
#[derive(Clone, Copy, Debug, PartialEq, Eq, Structural)]
pub struct LossSignal;

/// A ball, a paddle or a brick: a one-row object centred on `pos`.
#[derive(Clone, Copy, Debug, PartialEq, Eq, Structural)]
pub struct GameObject {
    pub pos: Point,
    pub vel: Point,
    /// The glyph an external renderer draws in each cell of the object.
    pub disp_char: u32,
    pub width: i32,
}

/// The brick, if any, that a step from `p` along `d` strikes first.
pub open spec fn brick_outcome(p: Point, bricks: Seq<Bounds>, d: Direction) -> Option<MoveResult> {
    match first_collision(p, bricks, d) {
        Some(i) => Some(MoveResult::HitBrick(d, i as usize)),
        None => None,
    }
}

/// Which third of `paddle` a ball above column `x` lands on.
pub open spec fn paddle_third(x: int, paddle: Bounds) -> MoveResult {
    let third = (paddle.max_x - paddle.min_x) / 3;
    if x < paddle.min_x + third {
        MoveResult::HitPaddleLeft
    } else if x < paddle.min_x + 2 * third {
        MoveResult::HitPaddleCenter
    } else {
        MoveResult::HitPaddleRight
    }
}

/// The horizontal step that a velocity asks for.
pub open spec fn x_direction(vx: int) -> Direction {
    if vx < 0 {
        Direction::Left
    } else if vx > 0 {
        Direction::Right
    } else {
        Direction::Still
    }
}

/// The vertical step that a velocity asks for.
pub open spec fn y_direction(vy: int) -> Direction {
    if vy > 0 {
        Direction::Down
    } else if vy < 0 {
        Direction::Up
    } else {
        Direction::Still
    }
}

/// The brick index that a vertical outcome carries.
pub open spec fn vertical_brick(y_out: Option<MoveResult>) -> Option<usize> {
    match y_out {
        Some(MoveResult::HitBrick(Direction::Down, i)) => Some(i),
        Some(MoveResult::HitBrick(Direction::Up, i)) => Some(i),
        _ => None,
    }
}

/// The velocity after the vertical outcome of a tick.
pub open spec fn velocity_after_y(v: (int, int), y_out: Option<MoveResult>) -> (int, int) {
    match y_out {
        Some(MoveResult::HitPaddleCenter) => (0, -v.1),
        Some(MoveResult::HitPaddleLeft) => (-1, -v.1),
        Some(MoveResult::HitPaddleRight) => (1, -v.1),
        Some(MoveResult::HitWallTop) => (v.0, -v.1),
        Some(MoveResult::HitWallBottom) => (0, 0),
        Some(MoveResult::HitBrick(Direction::Down, _)) => (v.0, -v.1),
        Some(MoveResult::HitBrick(Direction::Up, _)) => (v.0, -v.1),
        _ => v,
    }
}

/// The velocity after the horizontal outcome of a tick, given the brick, if
/// any, that the vertical outcome already struck.
pub open spec fn velocity_after_x(v: (int, int), x_out: Option<MoveResult>, y_brick: Option<usize>) -> (int, int) {
    match x_out {
        Some(MoveResult::HitBrick(Direction::Left, _)) => if y_brick.is_none() { (-v.0, v.1) } else { v },
        Some(MoveResult::HitBrick(Direction::Right, _)) => if y_brick.is_none() { (-v.0, v.1) } else { v },
        Some(_) => (-v.0, v.1),
        None => v,
    }
}

/// The velocity after a tick whose two axes gave `x_out` and `y_out`: the
/// vertical outcome applies first.
pub open spec fn velocity_after(v: (int, int), x_out: Option<MoveResult>, y_out: Option<MoveResult>) -> (int, int) {
    velocity_after_x(velocity_after_y(v, y_out), x_out, vertical_brick(y_out))
}

/// The one brick a tick strikes: the vertical hit if there is one, else the
/// horizontal one.
pub open spec fn struck_brick(x_out: Option<MoveResult>, y_out: Option<MoveResult>) -> Option<usize> {
    match vertical_brick(y_out) {
        Some(i) => Some(i),
        None => match x_out {
            Some(MoveResult::HitBrick(Direction::Left, i)) => Some(i),
            Some(MoveResult::HitBrick(Direction::Right, i)) => Some(i),
            _ => None,
        },
    }
}

/// What a tick reports: a loss when the ball fell onto the bottom wall, else
/// the brick it struck, if any.
pub open spec fn tick_result(x_out: Option<MoveResult>, y_out: Option<MoveResult>) -> Result<Option<usize>, LossSignal> {
    if y_out == Some(MoveResult::HitWallBottom) {
        Err(LossSignal)
    } else {
        Ok(struck_brick(x_out, y_out))
    }
}

impl GameObject {
    /// Width at least one cell, velocity in {-1, 0, 1} per axis, and a box
    /// whose columns fit in `i32`.
    pub open spec fn wf(self) -> bool {
        &&& self.width >= 1
        &&& -1 <= self.vel.x <= 1
        &&& -1 <= self.vel.y <= 1
        &&& i32::MIN <= self.left_edge()
        &&& self.right_edge() <= i32::MAX
    }

    pub open spec fn left_edge(self) -> int {
        self.pos.x - self.width / 2
    }

    pub open spec fn right_edge(self) -> int {
        self.pos.x + self.width / 2
    }

    /// The object's box, derived from its position and width.
    pub open spec fn box_of(self) -> Bounds {
        Bounds {
            min_x: self.left_edge() as i32,
            max_x: self.right_edge() as i32,
            min_y: self.pos.y,
            max_y: self.pos.y,
        }
    }

    /// The object after a move attempt along `d` that gave `out`: it steps
    /// only when nothing was struck.
    pub open spec fn advanced(self, d: Direction, out: Option<MoveResult>) -> GameObject {
        if out.is_none() {
            GameObject {
                pos: Point { x: (self.pos.x + d.dx()) as i32, y: (self.pos.y + d.dy()) as i32 },
                ..self
            }
        } else {
            self
        }
    }

    /// What a one-cell move along `d` strikes. Walls lie one cell inside the
    /// left and top of `screen` and two cells inside its right and bottom.
    /// Going down, the paddle is checked before the bricks.
    pub open spec fn move_outcome(self, d: Direction, screen: Bounds, paddle: Bounds, bricks: Seq<Bounds>) -> Option<MoveResult> {
        match d {
            Direction::Left => if self.left_edge() <= 1 {
                Some(MoveResult::HitWallLeftRight)
            } else {
                brick_outcome(self.pos, bricks, d)
            },
            Direction::Right => if self.right_edge() >= screen.max_x - 2 {
                Some(MoveResult::HitWallLeftRight)
            } else {
                brick_outcome(self.pos, bricks, d)
            },
            Direction::Up => if self.pos.y <= 1 {
                Some(MoveResult::HitWallTop)
            } else {
                brick_outcome(self.pos, bricks, d)
            },
            Direction::Down => if self.pos.y >= screen.max_y - 2 {
                Some(MoveResult::HitWallBottom)
            } else if collides(self.pos, paddle, Direction::Down) {
                Some(paddle_third(self.pos.x as int, paddle))
            } else {
                brick_outcome(self.pos, bricks, d)
            },
            Direction::Still => None,
        }
    }

    /// The horizontal outcome of a tick.
    pub open spec fn horizontal_outcome(self, screen: Bounds, paddle: Bounds, bricks: Seq<Bounds>) -> Option<MoveResult> {
        self.move_outcome(x_direction(self.vel.x as int), screen, paddle, bricks)
    }

    /// The object after the horizontal step of a tick.
    pub open spec fn after_horizontal(self, screen: Bounds, paddle: Bounds, bricks: Seq<Bounds>) -> GameObject {
        self.advanced(x_direction(self.vel.x as int), self.horizontal_outcome(screen, paddle, bricks))
    }

    /// The vertical outcome of a tick, resolved from where the horizontal
    /// step left the object.
    pub open spec fn vertical_outcome(self, screen: Bounds, paddle: Bounds, bricks: Seq<Bounds>) -> Option<MoveResult> {
        self.after_horizontal(screen, paddle, bricks).move_outcome(y_direction(self.vel.y as int), screen, paddle, bricks)
    }

    /// The object after a whole tick: both steps, then the new velocity.
    pub open spec fn floated(self, screen: Bounds, paddle: Bounds, bricks: Seq<Bounds>) -> GameObject {
        let x_out = self.horizontal_outcome(screen, paddle, bricks);
        let y_out = self.vertical_outcome(screen, paddle, bricks);
        let moved = self.after_horizontal(screen, paddle, bricks).advanced(y_direction(self.vel.y as int), y_out);
        let v = velocity_after((self.vel.x as int, self.vel.y as int), x_out, y_out);
        GameObject { vel: Point { x: v.0 as i32, y: v.1 as i32 }, ..moved }
    }

    /// What a tick of this object reports.
    pub open spec fn float_result(self, screen: Bounds, paddle: Bounds, bricks: Seq<Bounds>) -> Result<Option<usize>, LossSignal> {
        tick_result(self.horizontal_outcome(screen, paddle, bricks), self.vertical_outcome(screen, paddle, bricks))
    }

    /// The box of this object.
    pub fn get_bounds(&self) -> (r: Bounds)
        requires
            self.wf(),
        ensures
            r == self.box_of(),
    {
        let half = self.width / 2;
        let left_edge = self.pos.x - half;
        let right_edge = self.pos.x + half;
        Bounds { min_x: left_edge, max_x: right_edge, min_y: self.pos.y, max_y: self.pos.y }
    }

    /// Steps along `dir` unless that enters one of `bricks`.
    pub fn do_move1(&mut self, bricks: &Vec<Bounds>, dir: Direction) -> (r: Option<MoveResult>)
        requires
            i32::MIN <= old(self).pos.x + dir.dx() <= i32::MAX,
            i32::MIN <= old(self).pos.y + dir.dy() <= i32::MAX,
        ensures
            r == brick_outcome(old(self).pos, bricks@, dir),
            *final(self) == old(self).advanced(dir, r),
    {
        match self.pos.will_collide_with_any(bricks, &dir) {
            Some(idx) => Some(MoveResult::HitBrick(dir, idx)),
            None => {
                self.pos.move_dir(&dir);
                None
            },
        }
    }

    /// Attempts a one-cell move along `direction`. The object moves only when
    /// nothing is struck; otherwise it stays put and the outcome says what
    /// stopped it.
    pub fn move1(&mut self, direction: Direction, bounds: &Bounds, paddle_bounds: &Bounds, bricks: &Vec<Bounds>) -> (r: Option<MoveResult>)
        requires
            old(self).wf(),
        ensures
            r == old(self).move_outcome(direction, *bounds, *paddle_bounds, bricks@),
            *final(self) == old(self).advanced(direction, r),
            final(self).wf(),
    {
        let half = self.width / 2;
        let left_edge = self.pos.x as i64 - half as i64;
        let right_edge = self.pos.x as i64 + half as i64;

        match direction {
            Direction::Left => {
                if left_edge <= 1 {
                    return Some(MoveResult::HitWallLeftRight);
                }
                self.do_move1(bricks, direction)
            },
            Direction::Right => {
                if right_edge >= bounds.max_x as i64 - 2 {
                    return Some(MoveResult::HitWallLeftRight);
                }
                self.do_move1(bricks, direction)
            },
            Direction::Up => {
                if self.pos.y <= 1 {
                    return Some(MoveResult::HitWallTop);
                }
                self.do_move1(bricks, direction)
            },
            Direction::Down => {
                if self.pos.y as i64 >= bounds.max_y as i64 - 2 {
                    return Some(MoveResult::HitWallBottom);
                }
                if self.pos.will_collide(paddle_bounds, &Direction::Down) {
                    let third = (paddle_bounds.max_x as i64 - paddle_bounds.min_x as i64) / 3;
                    if (self.pos.x as i64) < paddle_bounds.min_x as i64 + third {
                        return Some(MoveResult::HitPaddleLeft);
                    }
                    if (self.pos.x as i64) < paddle_bounds.min_x as i64 + 2 * third {
                        return Some(MoveResult::HitPaddleCenter);
                    }
                    return Some(MoveResult::HitPaddleRight);
                }
                self.do_move1(bricks, direction)
            },
            Direction::Still => None,
        }
    }

    /// Advances the object by its velocity for one tick: horizontal step,
    /// then vertical step, then the velocity changes that the two outcomes
    /// call for. Fails when the ball fell onto the bottom wall; otherwise
    /// gives the one brick struck, if any.
    pub fn float(&mut self, screen_bounds: &Bounds, paddle_bounds: &Bounds, brick_bounds: &Vec<Bounds>) -> (r: Result<Option<usize>, LossSignal>)
        requires
            old(self).wf(),
        ensures
            r == old(self).float_result(*screen_bounds, *paddle_bounds, brick_bounds@),
            *final(self) == old(self).floated(*screen_bounds, *paddle_bounds, brick_bounds@),
            final(self).wf(),
    {
        let mut hit_brick: Option<usize> = None;
        let mut lost: bool = false;
        let x_collision: Option<MoveResult> = if self.vel.x < 0 {
            self.move1(Direction::Left, screen_bounds, paddle_bounds, brick_bounds)
        } else if self.vel.x > 0 {
            self.move1(Direction::Right, screen_bounds, paddle_bounds, brick_bounds)
        } else {
            None
        };
        let y_collision: Option<MoveResult> = if self.vel.y > 0 {
            self.move1(Direction::Down, screen_bounds, paddle_bounds, brick_bounds)
        } else if self.vel.y < 0 {
            self.move1(Direction::Up, screen_bounds, paddle_bounds, brick_bounds)
        } else {
            None
        };

        match y_collision {
            Some(MoveResult::HitPaddleCenter) => {
                self.vel.y = -self.vel.y;
                self.vel.x = 0;
            },
            Some(MoveResult::HitPaddleLeft) => {
                self.vel.x = -1;
                self.vel.y = -self.vel.y;
            },
            Some(MoveResult::HitPaddleRight) => {
                self.vel.x = 1;
                self.vel.y = -self.vel.y;
            },
            Some(MoveResult::HitWallTop) => self.vel.y = -self.vel.y,
            Some(MoveResult::HitWallBottom) => {
                self.vel.x = 0;
                self.vel.y = 0;
                lost = true;
            },
            Some(MoveResult::HitBrick(Direction::Down, brick_idx)) => {
                self.vel.y = -self.vel.y;
                hit_brick = Some(brick_idx);
            },
            Some(MoveResult::HitBrick(Direction::Up, brick_idx)) => {
                self.vel.y = -self.vel.y;
                hit_brick = Some(brick_idx);
            },
            _ => (),
        }

        match x_collision {
            Some(MoveResult::HitBrick(Direction::Left, brick_idx)) => {
                if hit_brick.is_none() {
                    self.vel.x = -self.vel.x;
                    hit_brick = Some(brick_idx);
                }
            },
            Some(MoveResult::HitBrick(Direction::Right, brick_idx)) => {
                if hit_brick.is_none() {
                    self.vel.x = -self.vel.x;
                    hit_brick = Some(brick_idx);
                }
            },
            Some(_) => self.vel.x = -self.vel.x,
            None => (),
        }

        if lost {
            return Err(LossSignal);
        }
        Ok(hit_brick)
    }

    /// First and last column, inclusive, that a renderer paints or clears for
    /// this object: `width / 2` cells either side of the centre, less the
    /// last one, and never fewer than one cell.
    pub fn footprint(&self) -> (r: (i32, i32))
        requires
            self.wf(),
        ensures
            r.0 == self.left_edge(),
            r.1 == if self.right_edge() > self.left_edge() { self.right_edge() - 1 } else { self.left_edge() },
    {
        let half = self.width / 2;
        let start = self.pos.x - half;
        let end = self.pos.x + half;
        if end > start {
            (start, end - 1)
        } else {
            (start, start)
        }
    }
}

} // verus!
