//! Ball integration with a clamped frame time, and the bounce of the ball
//! off the walls it overlaps.
use vstd::prelude::*;
use crate::geometry::{boxes_overlap, collide, Extent, Vec3i};
use crate::scene::{ball_extent, Ball, Wall, WallRole, BALL_COLLIDER};

verus! {

/// The longest frame the integrator steps over, in microseconds (0.2 s).
pub const MAX_FRAME_US: u64 = 200_000;

/// A value that an `i64` can hold.
pub open spec fn fits(v: int) -> bool {
    i64::MIN <= v <= i64::MAX
}

/// The time step used for a frame that took `elapsed_us` microseconds.
pub open spec fn clamped(elapsed_us: u64) -> u64 {
    if elapsed_us < MAX_FRAME_US {
        elapsed_us
    } else {
        MAX_FRAME_US
    }
}

/// A coordinate after moving at `v` units per second for `dt_us` microseconds.
pub open spec fn moved(p: i64, v: i64, dt_us: u64) -> int {
    p + v * dt_us
}

pub open spec fn component_can_move(p: i64, v: i64, dt_us: u64) -> bool {
    fits(v * dt_us) && fits(moved(p, v, dt_us))
}

/// Moving the ball for `dt_us` stays within the range of `i64` on every axis.
pub open spec fn can_advance(ball: Ball, dt_us: u64) -> bool {
    &&& dt_us <= i64::MAX
    &&& component_can_move(ball.translation.x, ball.velocity.x, dt_us)
    &&& component_can_move(ball.translation.y, ball.velocity.y, dt_us)
    &&& component_can_move(ball.translation.z, ball.velocity.z, dt_us)
}

/// The ball after it has moved for `dt_us` microseconds at its velocity.
pub open spec fn advanced(ball: Ball, dt_us: u64) -> Ball {
    Ball {
        translation: Vec3i {
            x: moved(ball.translation.x, ball.velocity.x, dt_us) as i64,
            y: moved(ball.translation.y, ball.velocity.y, dt_us) as i64,
            z: moved(ball.translation.z, ball.velocity.z, dt_us) as i64,
        },
        ..ball
    }
}

/// Limits a frame's elapsed time to `MAX_FRAME_US`, so that a stall does not
/// throw the ball far across the arena.
pub fn clamp_delta(elapsed_us: u64) -> (r: u64)
    ensures
        r == clamped(elapsed_us),
{
    if elapsed_us < MAX_FRAME_US {
        elapsed_us
    } else {
        MAX_FRAME_US
    }
}

fn move_component(p: i64, v: i64, dt_us: u64) -> (r: i64)
    requires
        dt_us <= i64::MAX,
        component_can_move(p, v, dt_us),
    ensures
        r == moved(p, v, dt_us),
{
    p + v * (dt_us as i64)
}

impl Ball {
    /// Moves the ball along its velocity for `dt_us` microseconds.
    pub fn advance(&mut self, dt_us: u64)
        requires
            can_advance(*old(self), dt_us),
        ensures
            *final(self) == advanced(*old(self), dt_us),
    {
        self.translation = Vec3i::new(
            move_component(self.translation.x, self.velocity.x, dt_us),
            move_component(self.translation.y, self.velocity.y, dt_us),
            move_component(self.translation.z, self.velocity.z, dt_us),
        );
    }

    /// The box the ball collides with: a small square round its centre.
    pub fn collider_extent(&self) -> (r: Extent)
        ensures
            r == ball_extent(),
    {
        Extent::new(BALL_COLLIDER, BALL_COLLIDER)
    }
}

/// One frame of ball motion: the frame time, clamped, times the velocity.
pub fn ball_movement_system(ball: &mut Ball, elapsed_us: u64)
    requires
        can_advance(*old(ball), clamped(elapsed_us)),
    ensures
        *final(ball) == advanced(*old(ball), clamped(elapsed_us)),
{
    let dt = clamp_delta(elapsed_us);
    ball.advance(dt);
}

/// The top and bottom walls run horizontally.
pub open spec fn is_horizontal(role: WallRole) -> bool {
    role == WallRole::Top || role == WallRole::Bottom
}

/// A velocity after a bounce off a wall of the given role: a horizontal wall
/// negates the vertical component, a vertical wall the horizontal one.
pub open spec fn bounced(v: Vec3i, role: WallRole) -> Vec3i {
    if is_horizontal(role) {
        Vec3i { y: (-v.y) as i64, ..v }
    } else {
        Vec3i { x: (-v.x) as i64, ..v }
    }
}

/// The ball overlaps or touches the wall.
pub open spec fn touches(ball: Ball, wall: Wall) -> bool {
    boxes_overlap(ball.translation, ball_extent(), wall.translation, wall.size)
}

/// The ball after its contact with one wall has been resolved: bounced if it
/// touches the wall, as it was otherwise. Its position never changes.
pub open spec fn collision_response(ball: Ball, wall: Wall) -> Ball {
    if touches(ball, wall) {
        Ball { velocity: bounced(ball.velocity, wall.role), ..ball }
    } else {
        ball
    }
}

/// The ball after the walls have been tested against it in order, each
/// contact flipping its velocity once.
pub open spec fn resolve_walls(ball: Ball, walls: Seq<Wall>) -> Ball
    decreases walls.len(),
{
    if walls.len() == 0 {
        ball
    } else {
        collision_response(resolve_walls(ball, walls.drop_last()), walls.last())
    }
}

/// Tests the ball against one wall and, on contact, reflects the velocity
/// component that the wall's orientation calls for.
pub fn bounce_off(ball: &mut Ball, wall: &Wall)
    requires
        old(ball).wf(),
    ensures
        *final(ball) == collision_response(*old(ball), *wall),
        final(ball).wf(),
{
    let size = ball.collider_extent();
    if collide(ball.translation, size, wall.translation, wall.size) {
        match wall.role {
            WallRole::Top | WallRole::Bottom => {
                ball.velocity.y = -ball.velocity.y;
            },
            WallRole::Left | WallRole::Right => {
                ball.velocity.x = -ball.velocity.x;
            },
        }
    }
}

/// Tests the ball against every wall in turn; each wall it touches flips one
/// velocity component, so two walls touched in one frame flip twice.
pub fn collision_management(ball: &mut Ball, walls: &Vec<Wall>)
    requires
        old(ball).wf(),
    ensures
        *final(ball) == resolve_walls(*old(ball), walls@),
        final(ball).wf(),
{
    let ghost start = *ball;
    let mut i: usize = 0;
    while i < walls.len()
        invariant
            i <= walls.len(),
            ball.wf(),
            *ball == resolve_walls(start, walls@.subrange(0, i as int)),
        decreases walls.len() - i,
    {
        bounce_off(ball, &walls[i]);
        assert(walls@.subrange(0, i + 1).drop_last() =~= walls@.subrange(0, i as int));
        i = i + 1;
    }
    assert(walls@.subrange(0, walls.len() as int) =~= walls@);
}

/// Bouncing off the top or bottom wall negates exactly the vertical velocity
/// component and leaves the horizontal one, the depth one and the position
/// as they were.
pub proof fn lemma_horizontal_bounce(ball: Ball, wall: Wall)
    requires
        ball.wf(),
        is_horizontal(wall.role),
        touches(ball, wall),
    ensures
        collision_response(ball, wall).velocity.y == -ball.velocity.y,
        collision_response(ball, wall).velocity.x == ball.velocity.x,
        collision_response(ball, wall).velocity.z == ball.velocity.z,
        collision_response(ball, wall).translation == ball.translation,
{
}

/// Bouncing off the left or right wall negates exactly the horizontal
/// velocity component and leaves the vertical one, the depth one and the
/// position as they were.
pub proof fn lemma_vertical_bounce(ball: Ball, wall: Wall)
    requires
        ball.wf(),
        !is_horizontal(wall.role),
        touches(ball, wall),
    ensures
        collision_response(ball, wall).velocity.x == -ball.velocity.x,
        collision_response(ball, wall).velocity.y == ball.velocity.y,
        collision_response(ball, wall).velocity.z == ball.velocity.z,
        collision_response(ball, wall).translation == ball.translation,
{
}

/// Collision response never moves the ball and never changes the size of a
/// velocity component, only its sign, whatever walls it meets.
pub proof fn lemma_resolution_keeps_position(ball: Ball, walls: Seq<Wall>)
    requires
        ball.wf(),
    ensures
        resolve_walls(ball, walls).translation == ball.translation,
        resolve_walls(ball, walls).scale == ball.scale,
        resolve_walls(ball, walls).wf(),
        magnitude(resolve_walls(ball, walls).velocity.x as int) == magnitude(ball.velocity.x as int),
        magnitude(resolve_walls(ball, walls).velocity.y as int) == magnitude(ball.velocity.y as int),
        resolve_walls(ball, walls).velocity.z == ball.velocity.z,
    decreases walls.len(),
{
    if walls.len() > 0 {
        lemma_resolution_keeps_position(ball, walls.drop_last());
    }
}

pub open spec fn magnitude(v: int) -> int {
    if v < 0 {
        -v
    } else {
        v
    }
}

/// Advancing the ball by no time leaves it where it was.
pub proof fn lemma_zero_time_keeps_position(ball: Ball)
    ensures
        can_advance(ball, 0),
        advanced(ball, 0) == ball,
{
    assert(ball.velocity.x * 0 == 0);
    assert(ball.velocity.y * 0 == 0);
    assert(ball.velocity.z * 0 == 0);
}

proof fn lemma_component_bound(p: i64, v: i64, dt: u64)
    requires
        dt <= MAX_FRAME_US,
    ensures
        magnitude(moved(p, v, dt) - p) <= magnitude(v as int) * MAX_FRAME_US,
{
    assert(magnitude(v * dt) <= magnitude(v as int) * MAX_FRAME_US) by (nonlinear_arith)
        requires
            0 <= dt <= MAX_FRAME_US,
            magnitude(v as int) == (if v < 0 { -(v as int) } else { v as int }),
            magnitude(v * dt) == (if v * dt < 0 { -(v * dt) } else { v * dt }),
    ;
}

/// Whatever time a frame took, the ball moves for at most `MAX_FRAME_US`:
/// a frame of that length or longer moves it exactly as a frame of
/// `MAX_FRAME_US` does, and no axis moves by more than its speed times that.
pub proof fn lemma_frame_step_is_clamped(ball: Ball, elapsed_us: u64)
    requires
        can_advance(ball, clamped(elapsed_us)),
    ensures
        clamped(elapsed_us) <= MAX_FRAME_US,
        elapsed_us >= MAX_FRAME_US ==> advanced(ball, clamped(elapsed_us)) == advanced(ball, MAX_FRAME_US),
        magnitude(advanced(ball, clamped(elapsed_us)).translation.x - ball.translation.x)
            <= magnitude(ball.velocity.x as int) * MAX_FRAME_US,
        magnitude(advanced(ball, clamped(elapsed_us)).translation.y - ball.translation.y)
            <= magnitude(ball.velocity.y as int) * MAX_FRAME_US,
        magnitude(advanced(ball, clamped(elapsed_us)).translation.z - ball.translation.z)
            <= magnitude(ball.velocity.z as int) * MAX_FRAME_US,
{
    let dt = clamped(elapsed_us);
    lemma_component_bound(ball.translation.x, ball.velocity.x, dt);
    lemma_component_bound(ball.translation.y, ball.velocity.y, dt);
    lemma_component_bound(ball.translation.z, ball.velocity.z, dt);
}

} // verus!
