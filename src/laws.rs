use vstd::prelude::*;
use crate::board::{Game, TickEffect, brick_boxes, lemma_struck_brick_in_range};
use crate::geometry::{Bounds, Direction, Point, collides, lemma_first_collision_from};
use crate::object::{GameObject, LossSignal, MoveResult, velocity_after};

verus! {

/// Whether `obj` already touches the wall that a step along `d` heads for.
pub open spec fn at_wall(obj: GameObject, d: Direction, screen: Bounds) -> bool {
    match d {
        Direction::Left => obj.left_edge() <= 1,
        Direction::Right => obj.right_edge() >= screen.max_x - 2,
        Direction::Up => obj.pos.y <= 1,
        Direction::Down => obj.pos.y >= screen.max_y - 2,
        Direction::Still => false,
    }
}

/// The outcome of striking the wall that a step along `d` heads for.
pub open spec fn wall_for(d: Direction) -> Option<MoveResult> {
    match d {
        Direction::Left => Some(MoveResult::HitWallLeftRight),
        Direction::Right => Some(MoveResult::HitWallLeftRight),
        Direction::Up => Some(MoveResult::HitWallTop),
        Direction::Down => Some(MoveResult::HitWallBottom),
        Direction::Still => None,
    }
}

/// A step toward a wall that the object already touches reports that wall
/// and leaves the object where it is, whatever paddle and bricks there are.
pub proof fn lemma_wall_stops_move(obj: GameObject, d: Direction, screen: Bounds, paddle: Bounds, bricks: Seq<Bounds>)
    requires
        obj.wf(),
        at_wall(obj, d, screen),
    ensures
        obj.move_outcome(d, screen, paddle, bricks) == wall_for(d),
        obj.advanced(d, obj.move_outcome(d, screen, paddle, bricks)) == obj,
{
}

/// A step that meets no wall, no paddle (going down) and no brick reports
/// nothing and moves the object by exactly the unit vector of its direction.
pub proof fn lemma_free_step(obj: GameObject, d: Direction, screen: Bounds, paddle: Bounds, bricks: Seq<Bounds>)
    requires
        obj.wf(),
        !at_wall(obj, d, screen),
        d == Direction::Down ==> !collides(obj.pos, paddle, d),
        forall|j: int| 0 <= j < bricks.len() ==> !collides(obj.pos, #[trigger] bricks[j], d),
    ensures
        obj.move_outcome(d, screen, paddle, bricks).is_none(),
        obj.advanced(d, None).pos.x == obj.pos.x + d.dx(),
        obj.advanced(d, None).pos.y == obj.pos.y + d.dy(),
        obj.advanced(d, None).vel == obj.vel,
        obj.advanced(d, None).width == obj.width,
{
    lemma_first_collision_from(obj.pos, bricks, d, 0);
}

/// A ball falling onto a paddle whose box spans `w` columns from `min_x`
/// lands on its left third when left of `min_x + w / 3`, on its centre third
/// when left of `min_x + 2 * (w / 3)`, and on its right third otherwise.
pub proof fn lemma_paddle_thirds(ball: GameObject, screen: Bounds, paddle: Bounds, bricks: Seq<Bounds>)
    requires
        ball.wf(),
        ball.pos.y < screen.max_y - 2,
        collides(ball.pos, paddle, Direction::Down),
    ensures
        ({
            let w = paddle.max_x - paddle.min_x;
            ball.move_outcome(Direction::Down, screen, paddle, bricks) == Some(
                if ball.pos.x < paddle.min_x + w / 3 {
                    MoveResult::HitPaddleLeft
                } else if ball.pos.x < paddle.min_x + 2 * (w / 3) {
                    MoveResult::HitPaddleCenter
                } else {
                    MoveResult::HitPaddleRight
                },
            )
        }),
{
}

/// A tick that lands the ball on the paddle's centre third sends it straight
/// back: no horizontal velocity, vertical velocity reversed.
pub proof fn lemma_center_third_straight(ball: GameObject, screen: Bounds, paddle: Bounds, bricks: Seq<Bounds>)
    requires
        ball.wf(),
        ball.vertical_outcome(screen, paddle, bricks) == Some(MoveResult::HitPaddleCenter),
    ensures
        ball.floated(screen, paddle, bricks).vel.x == 0,
        ball.floated(screen, paddle, bricks).vel.y == -ball.vel.y,
{
}

/// A tick on which both axes strike a brick destroys one brick only: the one
/// struck vertically, and the board loses exactly one brick.
pub proof fn lemma_one_brick_per_tick(g: Game, i: usize, j: usize, dx: Direction, dy: Direction)
    requires
        g.wf(),
        g.ball.horizontal_outcome(g.bounds, g.player.box_of(), brick_boxes(g.bricks@)) == Some(MoveResult::HitBrick(dx, i)),
        g.ball.vertical_outcome(g.bounds, g.player.box_of(), brick_boxes(g.bricks@)) == Some(MoveResult::HitBrick(dy, j)),
    ensures
        g.ball_result() == Ok::<Option<usize>, LossSignal>(Some(j)),
        g.bricks_after_tick().len() == g.bricks@.len() - 1,
{
    lemma_struck_brick_in_range(g.ball, g.bounds, g.player.box_of(), brick_boxes(g.bricks@));
}

/// With one live brick left, a tick that strikes it wins the game and leaves
/// no brick.
pub proof fn lemma_last_brick_wins(g: Game)
    requires
        g.wf(),
        g.bricks@.len() == 1,
        g.ball_result() matches Ok(Some(_)),
    ensures
        g.tick_effect() == TickEffect::PlayerWon,
        g.bricks_after_tick().len() == 0,
{
    lemma_struck_brick_in_range(g.ball, g.bounds, g.player.box_of(), brick_boxes(g.bricks@));
}

/// A ball moving down from the bottom margin row loses the game and comes to
/// rest, whatever paddle and bricks there are.
pub proof fn lemma_fall_loses(g: Game)
    requires
        g.wf(),
        g.ball.vel.y > 0,
        g.ball.pos.y >= g.bounds.max_y - 2,
    ensures
        g.ball_result() == Err::<Option<usize>, LossSignal>(LossSignal),
        g.tick_effect() == TickEffect::PlayerLost,
        g.ball_after_tick().vel == (Point { x: 0, y: 0 }),
{
}

/// Reflecting twice off the same kind of wall, side or top, gives back the
/// velocity the ball had.
pub proof fn lemma_double_reflection(v: (int, int))
    ensures
        velocity_after(velocity_after(v, Some(MoveResult::HitWallLeftRight), None), Some(MoveResult::HitWallLeftRight), None) == v,
        velocity_after(velocity_after(v, None, Some(MoveResult::HitWallTop)), None, Some(MoveResult::HitWallTop)) == v,
{
}

} // verus!
