use pong_core::geometry::{collide, Extent, Vec3i, UNIT};
use pong_core::input::{move_sticks, InputGate, Keys, PADDLE_STEP};
use pong_core::physics::{ball_movement_system, bounce_off, clamp_delta, collision_management, MAX_FRAME_US};
use pong_core::scene::{setup, Ball, Collider, Paddle, PlayerRole, Wall, WallRole};

fn ball_at(x: i64, y: i64, vx: i64, vy: i64) -> Ball {
    Ball {
        translation: Vec3i::new(x, y, 0),
        scale: Vec3i::new(60_000, 60_000, 1_000_000_000),
        velocity: Vec3i::new(vx, vy, 0),
    }
}

fn wall_of(world_walls: &[Wall], role: WallRole) -> Wall {
    *world_walls.iter().find(|w| w.role == role).unwrap()
}

fn paddle_y(paddles: &[Paddle], role: PlayerRole) -> i64 {
    paddles.iter().find(|p| p.role == role).unwrap().translation.y
}

#[test]
fn setup_builds_the_arena() {
    let w = setup();
    assert_eq!(w.ball.translation, Vec3i::new(0, 0, 0));
    assert_eq!(w.ball.velocity, Vec3i::new(150, 150, 0));
    assert_eq!(w.paddles.len(), 2);
    assert_eq!(w.paddles[0].role, PlayerRole::PlayerOne);
    assert_eq!(w.paddles[0].translation, Vec3i::new(-600 * UNIT, 0, 0));
    assert_eq!(w.paddles[1].translation, Vec3i::new(600 * UNIT, 0, 0));
    assert_eq!(w.paddles[1].size, Extent::new(30 * UNIT, 200 * UNIT));
    assert!(w.paddles.iter().all(|p| p.score == 0));
    assert_eq!(w.walls.len(), 4);
    let top = wall_of(&w.walls, WallRole::Top);
    assert_eq!(top.translation, Vec3i::new(0, 345 * UNIT, 0));
    assert_eq!(top.size, Extent::new(1280 * UNIT, 30 * UNIT));
    assert_eq!(top.collider, Collider::Solid);
    assert_eq!(wall_of(&w.walls, WallRole::Bottom).translation.y, -345 * UNIT);
    let left = wall_of(&w.walls, WallRole::Left);
    assert_eq!(left.translation.x, -690 * UNIT);
    assert_eq!(left.size, Extent::new(100 * UNIT, 720 * UNIT));
    assert_eq!(left.collider, Collider::Score);
    let right = wall_of(&w.walls, WallRole::Right);
    assert_eq!(right.translation.x, 650 * UNIT);
    assert_eq!(right.size, Extent::new(60 * UNIT, 720 * UNIT));
}

#[test]
fn one_tick_of_a_tenth_of_a_second() {
    let mut ball = ball_at(0, 0, 150, 150);
    ball_movement_system(&mut ball, 100_000);
    assert_eq!(ball.translation, Vec3i::new(15 * UNIT, 15 * UNIT, 0));
    assert_eq!(ball.velocity, Vec3i::new(150, 150, 0));
}

#[test]
fn zero_time_keeps_the_ball_still() {
    let mut ball = ball_at(123, -456, 150, -150);
    ball_movement_system(&mut ball, 0);
    assert_eq!(ball, ball_at(123, -456, 150, -150));
}

#[test]
fn long_stall_is_clamped_to_a_fifth_of_a_second() {
    assert_eq!(clamp_delta(5_000_000), 200_000);
    assert_eq!(clamp_delta(MAX_FRAME_US), MAX_FRAME_US);
    assert_eq!(clamp_delta(16_667), 16_667);
    let mut ball = ball_at(0, 0, 150, -150);
    ball_movement_system(&mut ball, 5_000_000);
    assert_eq!(ball.translation, Vec3i::new(30 * UNIT, -30 * UNIT, 0));
}

#[test]
fn top_wall_flips_vertical_velocity() {
    let w = setup();
    let top = wall_of(&w.walls, WallRole::Top);
    let mut ball = ball_at(0, 340 * UNIT, 150, 150);
    bounce_off(&mut ball, &top);
    assert_eq!(ball.velocity, Vec3i::new(150, -150, 0));
    assert_eq!(ball.translation, Vec3i::new(0, 340 * UNIT, 0));
}

#[test]
fn bottom_wall_flips_vertical_velocity() {
    let w = setup();
    let bottom = wall_of(&w.walls, WallRole::Bottom);
    let mut ball = ball_at(10 * UNIT, -335 * UNIT, -70, -150);
    bounce_off(&mut ball, &bottom);
    assert_eq!(ball.velocity, Vec3i::new(-70, 150, 0));
}

#[test]
fn side_walls_flip_horizontal_velocity() {
    let w = setup();
    let mut ball = ball_at(-645 * UNIT, 0, -150, 40);
    bounce_off(&mut ball, &wall_of(&w.walls, WallRole::Left));
    assert_eq!(ball.velocity, Vec3i::new(150, 40, 0));
    let mut ball = ball_at(625 * UNIT, 0, 150, 40);
    bounce_off(&mut ball, &wall_of(&w.walls, WallRole::Right));
    assert_eq!(ball.velocity, Vec3i::new(-150, 40, 0));
}

#[test]
fn overlapping_the_top_wall_during_resolution() {
    let w = setup();
    let mut ball = ball_at(0, 331 * UNIT, 150, 150);
    collision_management(&mut ball, &w.walls);
    assert_eq!(ball.velocity, Vec3i::new(150, -150, 0));
    assert_eq!(ball.translation, Vec3i::new(0, 331 * UNIT, 0));
}

#[test]
fn ball_in_open_arena_keeps_its_velocity() {
    let w = setup();
    let mut ball = ball_at(0, 0, 150, 150);
    collision_management(&mut ball, &w.walls);
    assert_eq!(ball.velocity, Vec3i::new(150, 150, 0));
}

#[test]
fn corner_overlap_flips_both_components() {
    let w = setup();
    let mut ball = ball_at(630 * UNIT, 340 * UNIT, 150, 150);
    collision_management(&mut ball, &w.walls);
    assert_eq!(ball.velocity, Vec3i::new(-150, -150, 0));
}

#[test]
fn two_overlapping_walls_of_one_orientation_cancel() {
    let w = setup();
    let top = wall_of(&w.walls, WallRole::Top);
    let walls = vec![top, top];
    let mut ball = ball_at(0, 340 * UNIT, 150, 150);
    collision_management(&mut ball, &walls);
    assert_eq!(ball.velocity, Vec3i::new(150, 150, 0));
}

#[test]
fn boxes_that_touch_at_an_edge_collide() {
    let a = Vec3i::new(0, 0, 0);
    let b = Vec3i::new(10, 0, 0);
    assert!(collide(a, Extent::new(10, 10), b, Extent::new(10, 10)));
    assert!(!collide(a, Extent::new(10, 10), Vec3i::new(11, 0, 0), Extent::new(10, 10)));
    assert!(!collide(a, Extent::new(10, 10), Vec3i::new(0, 11, 0), Extent::new(10, 10)));
    assert!(collide(a, Extent::new(3, 3), Vec3i::new(0, 0, 500), Extent::new(1, 1)));
    assert!(collide(a, Extent::new(1, 1), Vec3i::new(1, 0, 0), Extent::new(1, 1)));
    assert!(!collide(a, Extent::new(1, 1), Vec3i::new(2, 0, 0), Extent::new(1, 1)));
}

#[test]
fn gate_fires_once_per_interval() {
    let mut g = InputGate::paddle_rate();
    assert!(!g.tick(4_000));
    assert_eq!(g.elapsed_us, 4_000);
    assert!(g.tick(6_000));
    assert_eq!(g.elapsed_us, 0);
    assert!(!g.tick(9_999));
    assert!(g.tick(35_001));
    assert_eq!(g.elapsed_us, 5_000);
    assert!(g.tick(u64::MAX));
    assert_eq!(g.elapsed_us, ((5_000u128 + u64::MAX as u128) % 10_000) as u64);
}

#[test]
fn held_up_key_moves_player_one_once_per_gated_interval() {
    let mut w = setup();
    let mut g = InputGate::paddle_rate();
    let keys = Keys { w: true, s: false, up: false, down: false };
    assert!(w.frame(&mut g, keys, 10_000));
    assert_eq!(paddle_y(&w.paddles, PlayerRole::PlayerOne), 10 * UNIT);
    assert_eq!(paddle_y(&w.paddles, PlayerRole::PlayerTwo), 0);
    assert!(!w.frame(&mut g, keys, 4_000));
    assert!(!w.frame(&mut g, keys, 5_000));
    assert_eq!(paddle_y(&w.paddles, PlayerRole::PlayerOne), 10 * UNIT);
    assert!(w.frame(&mut g, keys, 1_000));
    assert_eq!(paddle_y(&w.paddles, PlayerRole::PlayerOne), 20 * UNIT);
}

#[test]
fn each_key_drives_its_own_paddle() {
    let w = setup();
    let mut paddles = w.paddles.clone();
    move_sticks(&mut paddles, Keys { w: false, s: true, up: true, down: false });
    assert_eq!(paddle_y(&paddles, PlayerRole::PlayerOne), -PADDLE_STEP);
    assert_eq!(paddle_y(&paddles, PlayerRole::PlayerTwo), PADDLE_STEP);
    move_sticks(&mut paddles, Keys { w: true, s: true, up: false, down: true });
    assert_eq!(paddle_y(&paddles, PlayerRole::PlayerOne), -PADDLE_STEP);
    assert_eq!(paddle_y(&paddles, PlayerRole::PlayerTwo), 0);
    assert_eq!(paddles[0].translation.x, -600 * UNIT);
}

#[test]
fn paddles_are_not_kept_inside_the_arena() {
    let w = setup();
    let mut paddles = w.paddles.clone();
    for _ in 0..100 {
        move_sticks(&mut paddles, Keys { w: true, s: false, up: false, down: false });
    }
    assert_eq!(paddle_y(&paddles, PlayerRole::PlayerOne), 1000 * UNIT);
}

#[test]
fn no_key_held_moves_no_paddle_but_the_ball_still_runs() {
    let mut w = setup();
    let mut g = InputGate::paddle_rate();
    w.ball.translation = Vec3i::new(0, 320 * UNIT, 0);
    assert!(w.frame(&mut g, Keys::none(), 100_000));
    assert_eq!(paddle_y(&w.paddles, PlayerRole::PlayerOne), 0);
    assert_eq!(paddle_y(&w.paddles, PlayerRole::PlayerTwo), 0);
    assert_eq!(w.ball.translation, Vec3i::new(15 * UNIT, 335 * UNIT, 0));
    assert_eq!(w.ball.velocity, Vec3i::new(150, -150, 0));
}

#[test]
fn scores_stay_at_zero_after_a_side_wall_contact() {
    let mut w = setup();
    let mut g = InputGate::paddle_rate();
    w.ball.translation = Vec3i::new(630 * UNIT, 0, 0);
    w.frame(&mut g, Keys::none(), 16_000);
    assert_eq!(w.ball.velocity.x, -150);
    assert!(w.paddles.iter().all(|p| p.score == 0));
}
