//! The orbit angle of a camera that circles a fixed target.
//!
//! The camera turns at π/8 radians per second. Its angle is kept as an exact
//! count of steps of π/(8·10⁹) radians, the turn it makes in one nanosecond,
//! so advancing by a time given in nanoseconds adds that many steps, with no
//! rounding. The host places the camera from the phase, the angle within the
//! current turn, so every quantity it derives repeats with each full turn.

use vstd::prelude::*;

verus! {

/// Nanoseconds in one second.
pub const NANOS_PER_SECOND: u64 = 1_000_000_000;

/// Steps in one full turn of 2π radians: at π/8 radians per second a turn
/// takes sixteen seconds, one step per nanosecond.
pub const STEPS_PER_TURN: u64 = 16_000_000_000;

/// The angle within the current turn, in steps.
pub open spec fn phase_of(steps: nat) -> nat {
    steps % (STEPS_PER_TURN as nat)
}

/// The angle after advancing `steps` by each time of `dts` in turn.
pub open spec fn after_advances(steps: nat, dts: Seq<nat>) -> nat
    decreases dts.len(),
{
    if dts.len() == 0 {
        steps
    } else {
        after_advances(steps, dts.drop_last()) + dts.last()
    }
}

/// The orbit angle of one camera, counted in steps from where it started.
/// It grows without bound.
#[derive(Clone, Copy, Debug)]
pub struct OrbitAngle {
    steps: u128,
}

impl View for OrbitAngle {
    type V = nat;

    closed spec fn view(&self) -> nat {
        self.steps as nat
    }
}

impl OrbitAngle {
    /// The angle at which the camera starts: zero, where it stands at its
    /// offset from the target.
    pub fn new() -> (r: OrbitAngle)
        ensures
            r@ == 0,
    {
        OrbitAngle { steps: 0 }
    }

    /// The angle, in steps.
    pub fn steps(&self) -> (r: u128)
        ensures
            r == self@,
    {
        self.steps
    }

    /// Advances the angle by the turn made in `dt_nanos` nanoseconds: one
    /// step per nanosecond. A time of zero leaves the angle as it is.
    pub fn advance(&mut self, dt_nanos: u128)
        requires
            old(self)@ + dt_nanos <= u128::MAX,
        ensures
            final(self)@ == old(self)@ + dt_nanos,
    {
        self.steps = self.steps + dt_nanos;
    }

    /// The angle within the current turn, in steps, below `STEPS_PER_TURN`.
    /// The camera's position and orientation are computed from it alone.
    pub fn phase(&self) -> (r: u64)
        ensures
            r == phase_of(self@),
            r < STEPS_PER_TURN,
    {
        (self.steps % (STEPS_PER_TURN as u128)) as u64
    }
}

/// Advances the angle of every orbiting camera by the time of one tick.
pub fn spin_camera(cameras: &mut Vec<OrbitAngle>, dt_nanos: u128)
    requires
        forall|i: int| 0 <= i < old(cameras)@.len() ==> #[trigger] old(cameras)@[i]@ + dt_nanos <= u128::MAX,
    ensures
        final(cameras)@.len() == old(cameras)@.len(),
        forall|i: int|
            0 <= i < old(cameras)@.len() ==> #[trigger] final(cameras)@[i]@ == old(cameras)@[i]@ + dt_nanos,
{
    let n = cameras.len();
    let mut i: usize = 0;
    while i < n
        invariant
            n == old(cameras)@.len(),
            cameras@.len() == n,
            i <= n,
            forall|j: int| 0 <= j < n ==> #[trigger] old(cameras)@[j]@ + dt_nanos <= u128::MAX,
            forall|j: int| 0 <= j < i ==> #[trigger] cameras@[j]@ == old(cameras)@[j]@ + dt_nanos,
            forall|j: int| i <= j < n ==> #[trigger] cameras@[j] == old(cameras)@[j],
        decreases n - i,
    {
        let mut a = cameras[i];
        a.advance(dt_nanos);
        cameras.set(i, a);
        i = i + 1;
    }
}

/// Advancing by a time of zero, any number of times, leaves the angle and
/// so its phase unchanged.
pub proof fn lemma_zero_advances_idempotent(steps: nat, dts: Seq<nat>)
    requires
        forall|i: int| 0 <= i < dts.len() ==> dts[i] == 0,
    ensures
        after_advances(steps, dts) == steps,
        phase_of(after_advances(steps, dts)) == phase_of(steps),
    decreases dts.len(),
{
    if dts.len() > 0 {
        lemma_zero_advances_idempotent(steps, dts.drop_last());
    }
}

/// An angle and that angle plus one full turn have the same phase, so the
/// camera stands and faces the same way at both.
pub proof fn lemma_phase_periodic(steps: nat)
    ensures
        phase_of(steps + STEPS_PER_TURN as nat) == phase_of(steps),
{
    let t = STEPS_PER_TURN as nat;
    assert((steps + t) % t == steps % t) by {
        vstd::arithmetic::div_mod::lemma_mod_add_multiples_vanish(steps as int, t as int);
    }
}

} // verus!
