//! The entities of the arena and the scene that a session starts from.
use vstd::prelude::*;
use crate::geometry::{Extent, Vec3i, UNIT};

verus! {

/// What a wall is for: `Solid` walls only bounce, `Score` walls stand behind
/// the paddles. The collision response does not consult it.
#[derive(Clone, Copy, Debug, PartialEq, Eq, Structural)]
pub enum Collider {
    Solid,
    Score,
}

/// Which side of the arena a wall closes.
#[derive(Clone, Copy, Debug, PartialEq, Eq, Structural)]
pub enum WallRole {
    Top,
    Bottom,
    Left,
    Right,
}

/// Which player steers a paddle.
#[derive(Clone, Copy, Debug, PartialEq, Eq, Structural)]
pub enum PlayerRole {
    PlayerOne,
    PlayerTwo,
}

/// The ball: its centre in micro-units, its drawing scale in millionths, and
/// its velocity in units per second.
#[derive(Clone, Copy, Debug, PartialEq, Eq, Structural)]
pub struct Ball {
    pub translation: Vec3i,
    pub scale: Vec3i,
    pub velocity: Vec3i,
}

/// A player's paddle, with the score counter it owns.
#[derive(Clone, Copy, Debug, PartialEq, Eq, Structural)]
pub struct Paddle {
    pub role: PlayerRole,
    pub translation: Vec3i,
    pub size: Extent,
    pub score: u32,
}

/// One of the walls that close the arena.
#[derive(Clone, Copy, Debug, PartialEq, Eq, Structural)]
pub struct Wall {
    pub role: WallRole,
    pub collider: Collider,
    pub translation: Vec3i,
    pub size: Extent,
}

/// Every entity of a session.
#[derive(Clone, Debug)]
pub struct World {
    pub ball: Ball,
    pub paddles: Vec<Paddle>,
    pub walls: Vec<Wall>,
}

/// The ball's starting speed along x and along y, in units per second.
pub const BALL_SPEED: i64 = 150;
/// The side of the square box the ball collides with: 0.06 units.
pub const BALL_COLLIDER: i64 = 60_000;
/// The ball's drawing scale across, in millionths: 0.06.
pub const BALL_SCALE_XY: i64 = 60_000;
/// The ball's drawing scale along z, in millionths: 1000, which draws it on top.
pub const BALL_SCALE_Z: i64 = 1_000_000_000;
/// Where player two's paddle and player one's paddle stand across.
pub const PADDLE_TWO_X: i64 = 600 * UNIT;
pub const PADDLE_ONE_X: i64 = -600 * UNIT;
pub const PADDLE_WIDTH: i64 = 30 * UNIT;
pub const PADDLE_HEIGHT: i64 = 200 * UNIT;
/// Heights of the top and bottom walls' centres.
pub const WALL_TOP_Y: i64 = 345 * UNIT;
pub const WALL_BOTTOM_Y: i64 = -345 * UNIT;
pub const WALL_LONG: i64 = 1280 * UNIT;
pub const WALL_THICK: i64 = 30 * UNIT;
pub const WALL_LEFT_X: i64 = -690 * UNIT;
pub const WALL_LEFT_WIDTH: i64 = 100 * UNIT;
pub const WALL_RIGHT_X: i64 = 650 * UNIT;
pub const WALL_RIGHT_WIDTH: i64 = 60 * UNIT;
pub const WALL_SIDE_HEIGHT: i64 = 720 * UNIT;

/// The size of the box the ball collides with; it does not follow the
/// ball's drawing scale.
pub open spec fn ball_extent() -> Extent {
    Extent { w: BALL_COLLIDER, h: BALL_COLLIDER }
}

pub open spec fn start_ball() -> Ball {
    Ball {
        translation: Vec3i { x: 0, y: 0, z: 0 },
        scale: Vec3i { x: BALL_SCALE_XY, y: BALL_SCALE_XY, z: BALL_SCALE_Z },
        velocity: Vec3i { x: BALL_SPEED, y: BALL_SPEED, z: 0 },
    }
}

pub open spec fn start_paddle(role: PlayerRole, x: i64) -> Paddle {
    Paddle {
        role,
        translation: Vec3i { x, y: 0, z: 0 },
        size: Extent { w: PADDLE_WIDTH, h: PADDLE_HEIGHT },
        score: 0,
    }
}

pub open spec fn start_wall(role: WallRole, collider: Collider, x: i64, y: i64, w: i64, h: i64) -> Wall {
    Wall { role, collider, translation: Vec3i { x, y, z: 0 }, size: Extent { w, h } }
}

/// The paddles of a new session: player one on the left, player two on the right.
pub open spec fn start_paddles() -> Seq<Paddle> {
    seq![
        start_paddle(PlayerRole::PlayerOne, PADDLE_ONE_X),
        start_paddle(PlayerRole::PlayerTwo, PADDLE_TWO_X),
    ]
}

/// The walls of a new session: solid strips above and below, scoring strips
/// at both sides (of different widths).
pub open spec fn start_walls() -> Seq<Wall> {
    seq![
        start_wall(WallRole::Top, Collider::Solid, 0, WALL_TOP_Y, WALL_LONG, WALL_THICK),
        start_wall(WallRole::Bottom, Collider::Solid, 0, WALL_BOTTOM_Y, WALL_LONG, WALL_THICK),
        start_wall(WallRole::Left, Collider::Score, WALL_LEFT_X, 0, WALL_LEFT_WIDTH, WALL_SIDE_HEIGHT),
        start_wall(WallRole::Right, Collider::Score, WALL_RIGHT_X, 0, WALL_RIGHT_WIDTH, WALL_SIDE_HEIGHT),
    ]
}

impl Ball {
    /// The ball's velocity can be negated on both axes without overflow.
    pub open spec fn wf(&self) -> bool {
        self.velocity.x > i64::MIN && self.velocity.y > i64::MIN
    }
}

impl World {
    pub open spec fn wf(&self) -> bool {
        self.ball.wf()
    }
}

/// Builds the entities a session starts with.
pub fn setup() -> (w: World)
    ensures
        w.ball == start_ball(),
        w.paddles@ == start_paddles(),
        w.walls@ == start_walls(),
        w.wf(),
{
    let ball = Ball {
        translation: Vec3i::new(0, 0, 0),
        scale: Vec3i::new(BALL_SCALE_XY, BALL_SCALE_XY, BALL_SCALE_Z),
        velocity: Vec3i::new(BALL_SPEED, BALL_SPEED, 0),
    };
    let mut paddles: Vec<Paddle> = Vec::new();
    paddles.push(new_paddle(PlayerRole::PlayerOne, PADDLE_ONE_X));
    paddles.push(new_paddle(PlayerRole::PlayerTwo, PADDLE_TWO_X));
    let mut walls: Vec<Wall> = Vec::new();
    walls.push(new_wall(WallRole::Top, Collider::Solid, 0, WALL_TOP_Y, WALL_LONG, WALL_THICK));
    walls.push(new_wall(WallRole::Bottom, Collider::Solid, 0, WALL_BOTTOM_Y, WALL_LONG, WALL_THICK));
    walls.push(
        new_wall(WallRole::Left, Collider::Score, WALL_LEFT_X, 0, WALL_LEFT_WIDTH, WALL_SIDE_HEIGHT),
    );
    walls.push(
        new_wall(WallRole::Right, Collider::Score, WALL_RIGHT_X, 0, WALL_RIGHT_WIDTH, WALL_SIDE_HEIGHT),
    );
    assert(paddles@ =~= start_paddles());
    assert(walls@ =~= start_walls());
    World { ball, paddles, walls }
}

/// In the starting scene no two paddles share a player and no two walls
/// share a side, so dispatch by role reaches exactly one entity.
pub proof fn lemma_start_roles_unique()
    ensures
        forall|i: int, j: int|
            0 <= i < j < start_paddles().len() ==> start_paddles()[i].role != start_paddles()[j].role,
        forall|i: int, j: int|
            0 <= i < j < start_walls().len() ==> start_walls()[i].role != start_walls()[j].role,
{
}

fn new_paddle(role: PlayerRole, x: i64) -> (p: Paddle)
    ensures
        p == start_paddle(role, x),
{
    Paddle { role, translation: Vec3i::new(x, 0, 0), size: Extent::new(PADDLE_WIDTH, PADDLE_HEIGHT), score: 0 }
}

fn new_wall(role: WallRole, collider: Collider, x: i64, y: i64, w: i64, h: i64) -> (r: Wall)
    ensures
        r == start_wall(role, collider, x, y, w, h),
{
    Wall { role, collider, translation: Vec3i::new(x, y, 0), size: Extent::new(w, h) }
}

} // verus!
