use breakout::{Bounds, Command, Direction, Game, GameObject, LossSignal, MoveResult, Point, StepOutcome, TickEffect};

fn screen() -> Bounds {
    Bounds { min_x: 0, min_y: 0, max_x: 40, max_y: 20 }
}

fn ball_at(x: i32, y: i32, vx: i32, vy: i32) -> GameObject {
    GameObject { pos: Point { x, y }, vel: Point { x: vx, y: vy }, disp_char: '0' as u32, width: 1 }
}

fn paddle_at(x: i32, y: i32) -> GameObject {
    GameObject { pos: Point { x, y }, vel: Point { x: 0, y: 0 }, disp_char: '=' as u32, width: 12 }
}

fn brick_at(x: i32, y: i32, width: i32) -> GameObject {
    GameObject { pos: Point { x, y }, vel: Point { x: 0, y: 0 }, disp_char: '#' as u32, width }
}

fn far_paddle() -> Bounds {
    paddle_at(20, 16).get_bounds()
}

#[test]
fn direction_unit_vectors() {
    assert_eq!(Direction::Left.vel(), Point { x: -1, y: 0 });
    assert_eq!(Direction::Right.vel(), Point { x: 1, y: 0 });
    assert_eq!(Direction::Up.vel(), Point { x: 0, y: -1 });
    assert_eq!(Direction::Down.vel(), Point { x: 0, y: 1 });
    assert_eq!(Direction::Still.vel(), Point { x: 0, y: 0 });
}

#[test]
fn look_ahead_collision() {
    let b = Bounds { min_x: 5, min_y: 3, max_x: 9, max_y: 3 };
    assert!(Point { x: 7, y: 4 }.will_collide(&b, &Direction::Up));
    assert!(Point { x: 5, y: 2 }.will_collide(&b, &Direction::Down));
    assert!(Point { x: 4, y: 3 }.will_collide(&b, &Direction::Right));
    assert!(Point { x: 10, y: 3 }.will_collide(&b, &Direction::Left));
    assert!(!Point { x: 10, y: 2 }.will_collide(&b, &Direction::Down));
    assert!(!Point { x: 7, y: 3 }.will_collide(&b, &Direction::Up));
}

#[test]
fn first_matching_box_wins() {
    let a = Bounds { min_x: 0, min_y: 1, max_x: 3, max_y: 1 };
    let b = Bounds { min_x: 4, min_y: 1, max_x: 8, max_y: 1 };
    let c = Bounds { min_x: 6, min_y: 1, max_x: 9, max_y: 1 };
    let p = Point { x: 7, y: 2 };
    assert_eq!(p.will_collide_with_any(&vec![a, b, c], &Direction::Up), Some(1));
    assert_eq!(p.will_collide_with_any(&vec![a, c, b], &Direction::Up), Some(1));
    assert_eq!(p.will_collide_with_any(&vec![a], &Direction::Up), None);
    assert_eq!(p.will_collide_with_any(&vec![], &Direction::Up), None);
}

#[test]
fn move_dir_adds_unit_vector() {
    let mut p = Point { x: 3, y: 3 };
    p.move_dir(&Direction::Left);
    assert_eq!(p, Point { x: 2, y: 3 });
    p.move_dir(&Direction::Down);
    assert_eq!(p, Point { x: 2, y: 4 });
    p.move_dir(&Direction::Still);
    assert_eq!(p, Point { x: 2, y: 4 });
}

#[test]
fn bounds_from_centre_and_width() {
    assert_eq!(paddle_at(20, 16).get_bounds(), Bounds { min_x: 14, min_y: 16, max_x: 26, max_y: 16 });
    assert_eq!(ball_at(3, 4, 0, 0).get_bounds(), Bounds { min_x: 3, min_y: 4, max_x: 3, max_y: 4 });
}

#[test]
fn footprint_columns() {
    assert_eq!(paddle_at(20, 16).footprint(), (14, 25));
    assert_eq!(ball_at(3, 4, 0, 0).footprint(), (3, 3));
    assert_eq!(brick_at(10, 1, 3).footprint(), (9, 10));
}

#[test]
fn walls_stop_moves_in_every_direction() {
    let cases = [
        (ball_at(1, 10, 0, 0), Direction::Left, MoveResult::HitWallLeftRight),
        (ball_at(38, 10, 0, 0), Direction::Right, MoveResult::HitWallLeftRight),
        (ball_at(10, 1, 0, 0), Direction::Up, MoveResult::HitWallTop),
        (ball_at(10, 18, 0, 0), Direction::Down, MoveResult::HitWallBottom),
        (paddle_at(7, 16), Direction::Left, MoveResult::HitWallLeftRight),
        (paddle_at(32, 16), Direction::Right, MoveResult::HitWallLeftRight),
    ];
    for (obj, dir, expected) in cases {
        let mut moved = obj;
        let r = moved.move1(dir, &screen(), &far_paddle(), &vec![]);
        assert_eq!(r, Some(expected));
        assert_eq!(moved, obj);
    }
}

#[test]
fn free_steps_move_one_cell() {
    let cases = [
        (Direction::Left, Point { x: 9, y: 10 }),
        (Direction::Right, Point { x: 11, y: 10 }),
        (Direction::Up, Point { x: 10, y: 9 }),
        (Direction::Down, Point { x: 10, y: 11 }),
        (Direction::Still, Point { x: 10, y: 10 }),
    ];
    for (dir, expected) in cases {
        let mut ball = ball_at(10, 10, 1, 1);
        let r = ball.move1(dir, &screen(), &far_paddle(), &vec![]);
        assert_eq!(r, None);
        assert_eq!(ball.pos, expected);
        assert_eq!(ball.vel, Point { x: 1, y: 1 });
    }
}

#[test]
fn paddle_thirds() {
    let paddle = far_paddle();
    let cases = [
        (14, MoveResult::HitPaddleLeft),
        (17, MoveResult::HitPaddleLeft),
        (18, MoveResult::HitPaddleCenter),
        (21, MoveResult::HitPaddleCenter),
        (22, MoveResult::HitPaddleRight),
        (26, MoveResult::HitPaddleRight),
    ];
    for (x, expected) in cases {
        let mut ball = ball_at(x, 15, 0, 1);
        assert_eq!(ball.move1(Direction::Down, &screen(), &paddle, &vec![]), Some(expected));
        assert_eq!(ball.pos, Point { x, y: 15 });
    }
    let mut beside = ball_at(27, 15, 0, 1);
    assert_eq!(beside.move1(Direction::Down, &screen(), &paddle, &vec![]), None);
    assert_eq!(beside.pos, Point { x: 27, y: 16 });
}

#[test]
fn paddle_wins_over_brick_on_same_row() {
    let brick = brick_at(20, 16, 3).get_bounds();
    let mut ball = ball_at(20, 15, 0, 1);
    assert_eq!(ball.move1(Direction::Down, &screen(), &far_paddle(), &vec![brick]), Some(MoveResult::HitPaddleCenter));
}

#[test]
fn brick_hits_carry_direction_and_index() {
    let bricks = vec![brick_at(5, 3, 3).get_bounds(), brick_at(12, 4, 3).get_bounds()];
    let mut ball = ball_at(12, 5, 0, -1);
    assert_eq!(ball.move1(Direction::Up, &screen(), &far_paddle(), &bricks), Some(MoveResult::HitBrick(Direction::Up, 1)));
    assert_eq!(ball.pos, Point { x: 12, y: 5 });
    let mut side = ball_at(10, 4, 1, 0);
    assert_eq!(side.move1(Direction::Right, &screen(), &far_paddle(), &bricks), Some(MoveResult::HitBrick(Direction::Right, 1)));
    let mut left = ball_at(7, 3, -1, 0);
    assert_eq!(left.move1(Direction::Left, &screen(), &far_paddle(), &bricks), Some(MoveResult::HitBrick(Direction::Left, 0)));
}

#[test]
fn ball_onto_paddle_centre_bounces_straight_up() {
    // 40 by 20 board, paddle of width 12 centred at (20, 16), ball just above it falling.
    let mut ball = ball_at(20, 15, 0, 1);
    let paddle = paddle_at(20, 16).get_bounds();
    let r = ball.float(&screen(), &paddle, &vec![]);
    assert_eq!(r, Ok(None));
    assert_eq!(ball.pos, Point { x: 20, y: 15 });
    assert_eq!(ball.vel, Point { x: 0, y: -1 });
}

#[test]
fn centre_third_zeroes_horizontal_velocity() {
    let mut ball = ball_at(19, 15, 1, 1);
    let r = ball.float(&screen(), &far_paddle(), &vec![]);
    assert_eq!(r, Ok(None));
    assert_eq!(ball.pos, Point { x: 20, y: 15 });
    assert_eq!(ball.vel, Point { x: 0, y: -1 });
}

#[test]
fn outer_thirds_set_horizontal_velocity() {
    let mut left = ball_at(15, 15, 0, 1);
    assert_eq!(left.float(&screen(), &far_paddle(), &vec![]), Ok(None));
    assert_eq!(left.vel, Point { x: -1, y: -1 });
    let mut right = ball_at(25, 15, 0, 1);
    assert_eq!(right.float(&screen(), &far_paddle(), &vec![]), Ok(None));
    assert_eq!(right.vel, Point { x: 1, y: -1 });
}

#[test]
fn both_axes_hit_bricks_destroys_one() {
    let bricks = vec![brick_at(11, 5, 1), brick_at(10, 6, 1), brick_at(30, 2, 3)];
    let mut game = Game {
        bounds: screen(),
        player: paddle_at(20, 16),
        ball: ball_at(10, 5, 1, 1),
        bricks,
        last_ball_move: 0,
    };
    let effect = game.advance_tick();
    assert_eq!(effect, TickEffect::BrickDestroyed(1));
    assert_eq!(game.bricks, vec![brick_at(11, 5, 1), brick_at(30, 2, 3)]);
    assert_eq!(game.ball.pos, Point { x: 10, y: 5 });
    assert_eq!(game.ball.vel, Point { x: 1, y: -1 });
}

#[test]
fn horizontal_brick_hit_reflects_x() {
    let mut ball = ball_at(10, 5, 1, 0);
    let bricks = vec![brick_at(11, 5, 1).get_bounds()];
    assert_eq!(ball.float(&screen(), &far_paddle(), &bricks), Ok(Some(0)));
    assert_eq!(ball.vel, Point { x: -1, y: 0 });
    assert_eq!(ball.pos, Point { x: 10, y: 5 });
}

#[test]
fn last_brick_struck_wins() {
    let mut game = Game {
        bounds: screen(),
        player: paddle_at(20, 16),
        ball: ball_at(10, 5, 0, -1),
        bricks: vec![brick_at(10, 4, 5)],
        last_ball_move: 0,
    };
    assert_eq!(game.advance_tick(), TickEffect::PlayerWon);
    assert!(game.bricks.is_empty());
    assert_eq!(game.ball.vel, Point { x: 0, y: 1 });
}

#[test]
fn falling_past_bottom_loses() {
    let mut game = Game {
        bounds: screen(),
        player: paddle_at(20, 16),
        ball: ball_at(5, 18, 1, 1),
        bricks: vec![brick_at(10, 4, 5)],
        last_ball_move: 0,
    };
    assert_eq!(game.advance_tick(), TickEffect::PlayerLost);
    assert_eq!(game.ball.vel, Point { x: 0, y: 0 });
    assert_eq!(game.bricks.len(), 1);

    let mut ball = ball_at(5, 18, 0, 1);
    assert_eq!(ball.float(&screen(), &far_paddle(), &vec![]), Err(LossSignal));
    assert_eq!(ball.vel, Point { x: 0, y: 0 });
}

#[test]
fn ball_above_bottom_margin_falls_one_row() {
    let mut ball = ball_at(5, 17, 0, 1);
    assert_eq!(ball.float(&screen(), &far_paddle(), &vec![]), Ok(None));
    assert_eq!(ball.pos, Point { x: 5, y: 18 });
    assert_eq!(ball.float(&screen(), &far_paddle(), &vec![]), Err(LossSignal));
}

#[test]
fn two_side_wall_bounces_restore_velocity() {
    let mut ball = ball_at(38, 10, 1, 0);
    assert_eq!(ball.float(&screen(), &far_paddle(), &vec![]), Ok(None));
    assert_eq!(ball.vel, Point { x: -1, y: 0 });
    let mut other = ball_at(1, 10, -1, 0);
    assert_eq!(other.float(&screen(), &far_paddle(), &vec![]), Ok(None));
    assert_eq!(other.vel, Point { x: 1, y: 0 });
}

#[test]
fn two_top_wall_bounces_restore_velocity() {
    let mut ball = ball_at(10, 1, 0, -1);
    assert_eq!(ball.float(&screen(), &far_paddle(), &vec![]), Ok(None));
    assert_eq!(ball.vel, Point { x: 0, y: 1 });
    let mut again = ball_at(10, 1, ball.vel.x, -ball.vel.y);
    assert_eq!(again.float(&screen(), &far_paddle(), &vec![]), Ok(None));
    assert_eq!(again.vel, Point { x: 0, y: 1 });
}

#[test]
fn commands_from_keys() {
    assert_eq!(Command::from_char('a'), Command::Move(Direction::Left));
    assert_eq!(Command::from_char('d'), Command::Move(Direction::Right));
    assert_eq!(Command::from_char('q'), Command::Quit);
    assert_eq!(Command::from_char('x'), Command::Move(Direction::Still));
    assert_eq!(Command::from_i32('a' as i32), Command::Move(Direction::Left));
    assert_eq!(Command::from_i32('d' as i32), Command::Move(Direction::Right));
    assert_eq!(Command::from_i32('q' as i32), Command::Quit);
    assert_eq!(Command::from_i32(-1), Command::Move(Direction::Still));
    assert_eq!(Command::from_i32(0x110000), Command::Move(Direction::Still));
    assert_eq!(Command::from_i32(0x2603), Command::Move(Direction::Still));
}
