use vstd::prelude::*;
use crate::command::Command;
use crate::geometry::{Bounds, Direction, Point, lemma_first_collision_from};
use crate::object::{GameObject, LossSignal, x_direction, y_direction};

verus! {

/// Width of the paddle; divisible by three so that it splits into thirds.
pub const PADDLE_WIDTH: i32 = 12;
/// Rows of bricks at the start of a game.
pub const NUM_ROWS: i32 = 4;
/// The screen is cut into this many brick widths; each row holds one brick
/// fewer, shifted to lay the rows like a wall.
pub const BRICKS_PER_ROW: i32 = 6;
/// Least time between two advances of the ball, in milliseconds.
pub const BALL_COOLDOWN_MS: u128 = 70;

/// What one advance of the ball did to the game.
#[derive(Clone, Copy, Debug, PartialEq, Eq, Structural)]
pub enum TickEffect {
    Continue,
    BrickDestroyed(usize),
    PlayerLost,
    PlayerWon,
}

/// Where the game stands after one turn of the control loop.
#[derive(Clone, Copy, Debug, PartialEq, Eq, Structural)]
pub enum StepOutcome {
    Running,
    Quit,
    Lost,
    Won,
}

/// A board: playfield bounds, paddle, ball and the live bricks, with the
/// time at which the ball last advanced.
#[derive(Debug)]
pub struct Game {
    pub bounds: Bounds,
    pub player: GameObject,
    pub ball: GameObject,
    pub bricks: Vec<GameObject>,
    pub last_ball_move: u128,
}

/// The boxes of `bricks`, in order.
pub open spec fn brick_boxes(bricks: Seq<GameObject>) -> Seq<Bounds> {
    bricks.map_values(|b: GameObject| b.box_of())
}

/// Every brick is well formed.
pub open spec fn bricks_wf(bricks: Seq<GameObject>) -> bool {
    forall|i: int| 0 <= i < bricks.len() ==> (#[trigger] bricks[i]).wf()
}

/// A brick struck on a tick is one of the live bricks.
pub proof fn lemma_struck_brick_in_range(ball: GameObject, screen: Bounds, paddle: Bounds, bricks: Seq<Bounds>)
    requires
        ball.wf(),
    ensures
        ball.float_result(screen, paddle, bricks) matches Ok(Some(i)) ==> i < bricks.len(),
{
    let mid = ball.after_horizontal(screen, paddle, bricks);
    lemma_first_collision_from(ball.pos, bricks, x_direction(ball.vel.x as int), 0);
    lemma_first_collision_from(mid.pos, bricks, y_direction(ball.vel.y as int), 0);
}

/// The brick at index `k` of a fresh layout whose bricks are `bw` cells
/// wide: rows from the top, `BRICKS_PER_ROW - 1` bricks to a row, the odd
/// rows shifted left by a quarter of a brick.
pub open spec fn layout_brick(bw: int, k: int) -> GameObject {
    let row = k / (BRICKS_PER_ROW - 1) + 1;
    let col = k % (BRICKS_PER_ROW - 1);
    let offset = if row % 2 == 0 { bw / 2 } else { bw / 2 - bw / 4 };
    GameObject {
        pos: Point { x: (offset + col * bw + bw / 2) as i32, y: row as i32 },
        vel: Point { x: 0, y: 0 },
        disp_char: '#' as u32,
        width: bw as i32,
    }
}

impl Game {
    pub open spec fn wf(self) -> bool {
        &&& self.player.wf()
        &&& self.ball.wf()
        &&& bricks_wf(self.bricks@)
    }

    /// What the ball reports on the next tick.
    pub open spec fn ball_result(self) -> Result<Option<usize>, LossSignal> {
        self.ball.float_result(self.bounds, self.player.box_of(), brick_boxes(self.bricks@))
    }

    /// The ball after the next tick.
    pub open spec fn ball_after_tick(self) -> GameObject {
        self.ball.floated(self.bounds, self.player.box_of(), brick_boxes(self.bricks@))
    }

    /// The live bricks after the next tick: the struck one, if any, is gone.
    pub open spec fn bricks_after_tick(self) -> Seq<GameObject> {
        match self.ball_result() {
            Ok(Some(i)) => self.bricks@.remove(i as int),
            _ => self.bricks@,
        }
    }

    /// The effect of the next tick: a loss, a win when the last brick is
    /// struck, a destroyed brick, or nothing of note.
    pub open spec fn tick_effect(self) -> TickEffect {
        match self.ball_result() {
            Err(_) => TickEffect::PlayerLost,
            Ok(Some(i)) => if self.bricks@.len() == 1 {
                TickEffect::PlayerWon
            } else {
                TickEffect::BrickDestroyed(i)
            },
            Ok(None) => TickEffect::Continue,
        }
    }

    /// The paddle after a one-cell move along `d`, which only the walls stop.
    pub open spec fn player_moved(self, d: Direction) -> GameObject {
        self.player.advanced(d, self.player.move_outcome(d, self.bounds, self.bounds, Seq::empty()))
    }

    /// This game with `player` in place of the paddle.
    pub open spec fn with_player(self, player: GameObject) -> Game {
        Game { player, ..self }
    }

    /// The boxes of the live bricks, in order.
    pub fn get_brick_bounds(&self) -> (r: Vec<Bounds>)
        requires
            bricks_wf(self.bricks@),
        ensures
            r@ == brick_boxes(self.bricks@),
    {
        let mut brick_bounds: Vec<Bounds> = Vec::with_capacity(self.bricks.len());
        let mut i: usize = 0;
        while i < self.bricks.len()
            invariant
                i <= self.bricks@.len(),
                bricks_wf(self.bricks@),
                brick_bounds@ == brick_boxes(self.bricks@.take(i as int)),
            decreases self.bricks@.len() - i,
        {
            let bounds = self.bricks[i].get_bounds();
            brick_bounds.push(bounds);
            proof {
                assert(self.bricks@.take(i + 1) == self.bricks@.take(i as int).push(self.bricks@[i as int]));
            }
            i = i + 1;
        }
        proof {
            assert(self.bricks@.take(i as int) == self.bricks@);
        }
        brick_bounds
    }

    /// Removes the brick at `brick_idx`.
    pub fn rm_brick(&mut self, brick_idx: usize)
        requires
            brick_idx < old(self).bricks@.len(),
        ensures
            final(self).bricks@ == old(self).bricks@.remove(brick_idx as int),
            final(self).bounds == old(self).bounds,
            final(self).player == old(self).player,
            final(self).ball == old(self).ball,
            final(self).last_ball_move == old(self).last_ball_move,
    {
        self.bricks.remove(brick_idx);
    }

    /// Advances the ball one tick against the walls, the paddle and the live
    /// bricks, removes the brick it struck, and reports the effect.
    pub fn advance_tick(&mut self) -> (r: TickEffect)
        requires
            old(self).wf(),
        ensures
            r == old(self).tick_effect(),
            final(self).ball == old(self).ball_after_tick(),
            final(self).bricks@ == old(self).bricks_after_tick(),
            final(self).bounds == old(self).bounds,
            final(self).player == old(self).player,
            final(self).last_ball_move == old(self).last_ball_move,
            final(self).wf(),
    {
        let brick_bounds = self.get_brick_bounds();
        let paddle_bounds = self.player.get_bounds();
        proof {
            lemma_struck_brick_in_range(self.ball, self.bounds, paddle_bounds, brick_bounds@);
        }
        match self.ball.float(&self.bounds, &paddle_bounds, &brick_bounds) {
            Err(_) => TickEffect::PlayerLost,
            Ok(None) => TickEffect::Continue,
            Ok(Some(brick_idx)) => {
                let ghost before = self.bricks@;
                self.rm_brick(brick_idx);
                proof {
                    assert forall|k: int| 0 <= k < self.bricks@.len() implies (#[trigger] self.bricks@[k]).wf() by {
                        if k >= brick_idx {
                            assert(self.bricks@[k] == before[k + 1]);
                        }
                    }
                }
                if self.bricks.len() == 0 {
                    TickEffect::PlayerWon
                } else {
                    TickEffect::BrickDestroyed(brick_idx)
                }
            },
        }
    }

    /// Whether the ball is due to advance at time `now`: more than the
    /// cooldown has passed since it last did.
    pub open spec fn ball_due(self, now: u128) -> bool {
        now >= self.last_ball_move && now - self.last_ball_move > BALL_COOLDOWN_MS
    }

    /// Advances the ball if it is due at time `now`, and records `now` as the
    /// time of its last advance; otherwise leaves the game as it is.
    pub fn move_ball(&mut self, now: u128) -> (r: TickEffect)
        requires
            old(self).wf(),
        ensures
            final(self).wf(),
            old(self).ball_due(now) ==> {
                &&& r == old(self).tick_effect()
                &&& final(self).ball == old(self).ball_after_tick()
                &&& final(self).bricks@ == old(self).bricks_after_tick()
                &&& final(self).last_ball_move == now
            },
            !old(self).ball_due(now) ==> {
                &&& r == TickEffect::Continue
                &&& final(self).ball == old(self).ball
                &&& final(self).bricks@ == old(self).bricks@
                &&& final(self).last_ball_move == old(self).last_ball_move
            },
            final(self).bounds == old(self).bounds,
            final(self).player == old(self).player,
    {
        if now >= self.last_ball_move && now - self.last_ball_move > BALL_COOLDOWN_MS {
            self.last_ball_move = now;
            self.advance_tick()
        } else {
            TickEffect::Continue
        }
    }

    /// Moves the paddle one cell along `direction`; only the walls stop it.
    pub fn move_player(&mut self, direction: Direction)
        requires
            old(self).wf(),
        ensures
            final(self).player == old(self).player.advanced(
                direction,
                old(self).player.move_outcome(direction, old(self).bounds, old(self).bounds, Seq::empty()),
            ),
            final(self).bounds == old(self).bounds,
            final(self).ball == old(self).ball,
            final(self).bricks@ == old(self).bricks@,
            final(self).last_ball_move == old(self).last_ball_move,
            final(self).wf(),
    {
        let no_bricks: Vec<Bounds> = Vec::new();
        let screen = self.bounds;
        self.player.move1(direction, &screen, &screen, &no_bricks);
        proof {
            assert(no_bricks@ == Seq::<Bounds>::empty());
        }
    }

    /// A fresh game on a screen of `max_x` columns and `max_y` rows, at time
    /// `now`: the brick wall at the top, the paddle four rows above the
    /// bottom edge and the ball falling from row seven, both centred.
    pub fn new(max_x: i32, max_y: i32, now: u128) -> (r: Game)
        requires
            BRICKS_PER_ROW <= max_x,
            i32::MIN + 4 <= max_y,
        ensures
            r.bounds == (Bounds { min_x: 0, min_y: 0, max_x, max_y }),
            r.player == (GameObject {
                pos: Point { x: (max_x / 2) as i32, y: (max_y - 4) as i32 },
                vel: Point { x: 0, y: 0 },
                disp_char: '=' as u32,
                width: PADDLE_WIDTH,
            }),
            r.ball == (GameObject {
                pos: Point { x: (max_x / 2) as i32, y: 7 },
                vel: Point { x: 0, y: 1 },
                disp_char: '0' as u32,
                width: 1,
            }),
            r.bricks@.len() == NUM_ROWS * (BRICKS_PER_ROW - 1),
            forall|k: int| 0 <= k < r.bricks@.len() ==> #[trigger] r.bricks@[k] == layout_brick(max_x / BRICKS_PER_ROW, k),
            r.last_ball_move == now,
            r.wf(),
    {
        let brick_width: i32 = max_x / BRICKS_PER_ROW;
        let per_row: i32 = BRICKS_PER_ROW - 1;
        let mut bricks: Vec<GameObject> = Vec::new();
        let mut row: i32 = 1;
        while row <= NUM_ROWS
            invariant
                1 <= row <= NUM_ROWS + 1,
                1 <= brick_width <= max_x / BRICKS_PER_ROW,
                brick_width == max_x / BRICKS_PER_ROW,
                per_row == BRICKS_PER_ROW - 1,
                bricks@.len() == (row - 1) * per_row,
                forall|k: int| 0 <= k < bricks@.len() ==> #[trigger] bricks@[k] == layout_brick(brick_width as int, k),
                bricks_wf(bricks@),
            decreases NUM_ROWS + 1 - row,
        {
            let offset: i32 = if row % 2 == 0 {
                brick_width / 2
            } else {
                brick_width / 2 - brick_width / 4
            };
            let mut col: i32 = 0;
            while col < per_row
                invariant
                    1 <= row <= NUM_ROWS,
                    0 <= col <= per_row,
                    1 <= brick_width,
                    brick_width == max_x / BRICKS_PER_ROW,
                    per_row == BRICKS_PER_ROW - 1,
                    offset == if row % 2 == 0 { brick_width / 2 } else { brick_width / 2 - brick_width / 4 },
                    bricks@.len() == (row - 1) * per_row + col,
                    forall|k: int| 0 <= k < bricks@.len() ==> #[trigger] bricks@[k] == layout_brick(brick_width as int, k),
                    bricks_wf(bricks@),
                decreases per_row - col,
            {
                proof {
                    assert(col * brick_width <= 4 * brick_width) by (nonlinear_arith)
                        requires 0 <= col <= 4, 1 <= brick_width;
                    assert(6 * brick_width <= max_x) by (nonlinear_arith)
                        requires brick_width == max_x / 6, 6 <= max_x;
                }
                let x: i32 = offset + col * brick_width + brick_width / 2;
                let brick = GameObject {
                    pos: Point { x, y: row },
                    vel: Point { x: 0, y: 0 },
                    disp_char: '#' as u32,
                    width: brick_width,
                };
                proof {
                    let k = (row - 1) * per_row + col;
                    vstd::arithmetic::div_mod::lemma_fundamental_div_mod_converse(k, per_row as int, row - 1, col as int);
                    assert(brick == layout_brick(brick_width as int, k));
                }
                bricks.push(brick);
                col = col + 1;
            }
            proof {
                assert((row - 1) * per_row + per_row == row * per_row) by (nonlinear_arith);
            }
            row = row + 1;
        }
        let half_x: i32 = max_x / 2;
        Game {
            bounds: Bounds { min_x: 0, min_y: 0, max_x, max_y },
            player: GameObject {
                pos: Point { x: half_x, y: max_y - 4 },
                vel: Point { x: 0, y: 0 },
                disp_char: '=' as u32,
                width: PADDLE_WIDTH,
            },
            ball: GameObject {
                pos: Point { x: half_x, y: 7 },
                vel: Point { x: 0, y: 1 },
                disp_char: '0' as u32,
                width: 1,
            },
            bricks,
            last_ball_move: now,
        }
    }

    /// One turn of the control loop at time `now`: a quit ends the game
    /// untouched; otherwise the paddle moves as `command` asks, the ball
    /// advances if it is due, and the game is lost, won once no brick is
    /// left, or still running.
    pub fn step(&mut self, command: Command, now: u128) -> (r: StepOutcome)
        requires
            old(self).wf(),
        ensures
            final(self).wf(),
            command == Command::Quit ==> r == StepOutcome::Quit && *final(self) == *old(self),
            command matches Command::Move(d) ==> {
                let g = old(self).with_player(old(self).player_moved(d));
                &&& final(self).bounds == g.bounds
                &&& final(self).player == g.player
                &&& g.ball_due(now) ==> {
                    &&& final(self).ball == g.ball_after_tick()
                    &&& final(self).bricks@ == g.bricks_after_tick()
                    &&& final(self).last_ball_move == now
                }
                &&& !g.ball_due(now) ==> {
                    &&& final(self).ball == g.ball
                    &&& final(self).bricks@ == g.bricks@
                    &&& final(self).last_ball_move == g.last_ball_move
                }
                &&& r == if g.ball_due(now) && g.tick_effect() == TickEffect::PlayerLost {
                    StepOutcome::Lost
                } else if final(self).bricks@.len() == 0 {
                    StepOutcome::Won
                } else {
                    StepOutcome::Running
                }
            },
    {
        match command {
            Command::Quit => {
                return StepOutcome::Quit;
            },
            Command::Move(direction) => {
                self.move_player(direction);
            },
        }
        let effect = self.move_ball(now);
        if effect == TickEffect::PlayerLost {
            StepOutcome::Lost
        } else if self.bricks.len() == 0 {
            StepOutcome::Won
        } else {
            StepOutcome::Running
        }
    }
}

} // verus!
