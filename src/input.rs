//! Keyboard-driven paddle motion, gated by a fixed-interval timer.
use vstd::prelude::*;
use crate::geometry::{Vec3i, UNIT};
use crate::scene::{Paddle, PlayerRole};

verus! {

/// How far a held key moves a paddle per gated tick: 10 units.
pub const PADDLE_STEP: i64 = 10 * UNIT;
/// The interval of the input gate, in microseconds (0.01 s).
pub const INPUT_INTERVAL_US: u64 = 10_000;

/// Which of the four movement keys are held this frame.
#[derive(Clone, Copy, Debug, PartialEq, Eq, Structural)]
pub struct Keys {
    /// Player one up.
    pub w: bool,
    /// Player one down.
    pub s: bool,
    /// Player two up.
    pub up: bool,
    /// Player two down.
    pub down: bool,
}

impl Keys {
    /// No key held.
    pub fn none() -> (r: Keys)
        ensures
            r == (Keys { w: false, s: false, up: false, down: false }),
    {
        Keys { w: false, s: false, up: false, down: false }
    }

    /// The up and down keys of the given player.
    pub open spec fn of(self, role: PlayerRole) -> (bool, bool) {
        match role {
            PlayerRole::PlayerOne => (self.w, self.s),
            PlayerRole::PlayerTwo => (self.up, self.down),
        }
    }
}

/// The vertical move of a paddle of the given role in one gated tick: a step
/// up for its up key, a step down for its down key, nothing when both or
/// neither are held.
pub open spec fn key_shift(role: PlayerRole, keys: Keys) -> int {
    (if keys.of(role).0 { PADDLE_STEP as int } else { 0 }) - (if keys.of(role).1 {
        PADDLE_STEP as int
    } else {
        0
    })
}

/// A paddle can move a step either way without leaving the range of `i64`.
/// Paddles are not kept inside the arena.
pub open spec fn can_shift(p: Paddle) -> bool {
    i64::MIN + PADDLE_STEP <= p.translation.y <= i64::MAX - PADDLE_STEP
}

pub open spec fn shifted(p: Paddle, keys: Keys) -> Paddle {
    Paddle {
        translation: Vec3i { y: (p.translation.y + key_shift(p.role, keys)) as i64, ..p.translation },
        ..p
    }
}

/// Every paddle after one gated tick of the held keys.
pub open spec fn shifted_all(ps: Seq<Paddle>, keys: Keys) -> Seq<Paddle> {
    ps.map_values(|p: Paddle| shifted(p, keys))
}

pub open spec fn all_can_shift(ps: Seq<Paddle>) -> bool {
    forall|i: int| 0 <= i < ps.len() ==> can_shift(#[trigger] ps[i])
}

/// An accumulator that fires once each time a fixed interval has passed,
/// then keeps only the time beyond the last whole interval.
#[derive(Clone, Copy, Debug, PartialEq, Eq, Structural)]
pub struct InputGate {
    pub interval_us: u64,
    pub elapsed_us: u64,
}

impl InputGate {
    pub open spec fn wf(&self) -> bool {
        0 < self.interval_us && self.elapsed_us < self.interval_us
    }

    /// A gate with nothing accumulated.
    pub fn new(interval_us: u64) -> (g: InputGate)
        requires
            interval_us > 0,
        ensures
            g == (InputGate { interval_us, elapsed_us: 0 }),
            g.wf(),
    {
        InputGate { interval_us, elapsed_us: 0 }
    }

    /// A gate for paddle input that fires every 10 ms.
    pub fn paddle_rate() -> (g: InputGate)
        ensures
            g == (InputGate { interval_us: INPUT_INTERVAL_US, elapsed_us: 0 }),
            g.wf(),
    {
        InputGate::new(INPUT_INTERVAL_US)
    }

    /// Adds `delta_us` to the accumulated time. Fires when a whole interval
    /// has been reached (once, however many intervals passed) and keeps the
    /// remainder.
    pub fn tick(&mut self, delta_us: u64) -> (fired: bool)
        requires
            old(self).wf(),
        ensures
            final(self).wf(),
            final(self).interval_us == old(self).interval_us,
            fired == (old(self).elapsed_us + delta_us >= old(self).interval_us),
            final(self).elapsed_us == (old(self).elapsed_us + delta_us) % (old(self).interval_us as int),
    {
        let total: u128 = self.elapsed_us as u128 + delta_us as u128;
        let interval: u128 = self.interval_us as u128;
        let rest: u128 = total % interval;
        self.elapsed_us = rest as u64;
        total >= interval
    }
}

fn shift_paddle(p: &mut Paddle, keys: Keys)
    requires
        can_shift(*old(p)),
    ensures
        *final(p) == shifted(*old(p), keys),
{
    let (up, down) = match p.role {
        PlayerRole::PlayerOne => (keys.w, keys.s),
        PlayerRole::PlayerTwo => (keys.up, keys.down),
    };
    if up {
        p.translation.y = p.translation.y + PADDLE_STEP;
    }
    if down {
        p.translation.y = p.translation.y - PADDLE_STEP;
    }
}

/// One gated tick of paddle input: each paddle moves by its player's held
/// keys. A position edit, not a velocity; paddles are not clamped.
pub fn move_sticks(paddles: &mut Vec<Paddle>, keys: Keys)
    requires
        all_can_shift(old(paddles)@),
    ensures
        final(paddles)@ == shifted_all(old(paddles)@, keys),
{
    let ghost start = paddles@;
    let mut i: usize = 0;
    while i < paddles.len()
        invariant
            i <= paddles.len() == start.len(),
            all_can_shift(start),
            forall|j: int| 0 <= j < i ==> paddles@[j] == shifted(start[j], keys),
            forall|j: int| i <= j < paddles.len() ==> paddles@[j] == start[j],
        decreases paddles.len() - i,
    {
        let mut p = paddles[i];
        assert(can_shift(start[i as int]));
        shift_paddle(&mut p, keys);
        paddles.set(i, p);
        i = i + 1;
    }
    assert(paddles@ =~= shifted_all(start, keys));
}

/// With no key held a gated tick moves no paddle.
pub proof fn lemma_idle_keys_keep_paddles(ps: Seq<Paddle>)
    ensures
        shifted_all(ps, Keys { w: false, s: false, up: false, down: false }) == ps,
{
    assert(shifted_all(ps, Keys { w: false, s: false, up: false, down: false }) =~= ps);
}

} // verus!
