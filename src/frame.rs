//! One frame of the simulation: gated paddle input, then ball motion, then
//! collision response, in that order.
use vstd::prelude::*;
use crate::input::{all_can_shift, move_sticks, shifted_all, InputGate, Keys};
use crate::physics::{advanced, ball_movement_system, can_advance, clamped, collision_management, resolve_walls};
use crate::scene::World;

verus! {

/// What a frame may start from without any value leaving the range of `i64`.
pub open spec fn frame_fits(world: World, elapsed_us: u64) -> bool {
    &&& all_can_shift(world.paddles@)
    &&& can_advance(world.ball, clamped(elapsed_us))
}

impl World {
    /// Runs one frame that took `elapsed_us` microseconds with `keys` held.
    /// Returns whether the input gate fired, which is when the paddles moved.
    pub fn frame(&mut self, gate: &mut InputGate, keys: Keys, elapsed_us: u64) -> (fired: bool)
        requires
            old(self).wf(),
            old(gate).wf(),
            frame_fits(*old(self), elapsed_us),
        ensures
            final(gate).wf(),
            final(gate).interval_us == old(gate).interval_us,
            fired == (old(gate).elapsed_us + elapsed_us >= old(gate).interval_us),
            final(gate).elapsed_us == (old(gate).elapsed_us + elapsed_us) % (old(gate).interval_us as int),
            final(self).paddles@ == (if fired {
                shifted_all(old(self).paddles@, keys)
            } else {
                old(self).paddles@
            }),
            final(self).walls@ == old(self).walls@,
            final(self).ball == resolve_walls(advanced(old(self).ball, clamped(elapsed_us)), old(self).walls@),
            final(self).wf(),
    {
        let fired = gate.tick(elapsed_us);
        if fired {
            move_sticks(&mut self.paddles, keys);
        }
        ball_movement_system(&mut self.ball, elapsed_us);
        collision_management(&mut self.ball, &self.walls);
        fired
    }
}

} // verus!
