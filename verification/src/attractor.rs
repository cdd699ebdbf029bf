//! The vector-field abstraction and the fixed-step integration scheduler.

use crate::fixed::Fx;
use crate::vec3::{euler_step, origin, Vec3};
use vstd::prelude::*;

verus! {

/// A strange-attractor vector field: a pure rule mapping a position in phase
/// space to its instantaneous rate of change. Implementations never hold
/// mutable state; the same position always yields the same derivative,
/// stated by `delta_spec`.
pub trait Attractor: Sized {
    /// The derivative of the field at `p`, as a mathematical function.
    spec fn delta_spec(&self, p: Vec3) -> Vec3;

    /// Evaluate the derivative of the field at `p`.
    fn delta(&self, p: Vec3) -> (r: Vec3)
        ensures
            r == self.delta_spec(p),
    ;
}

/// An independent trajectory: one state paired with the (immutable) field
/// variant that drives it.
#[derive(Clone, Copy, Debug, PartialEq, Eq, Structural)]
pub struct Particle<A> {
    pub state: Vec3,
    pub field: A,
}

impl<A: Attractor> Particle<A> {
    /// The particle after one explicit-Euler update with time delta `dt`
    /// (in units): the state advances along the field's derivative, the
    /// field itself never changes.
    pub open spec fn stepped(self, dt: int) -> Particle<A> {
        Particle { state: euler_step(self.state, self.field.delta_spec(self.state), dt), field: self.field }
    }

    /// The particle after `n` updates, each with time delta `dt`.
    pub open spec fn iterated(self, dt: int, n: nat) -> Particle<A>
        decreases n,
    {
        if n == 0 {
            self
        } else {
            self.iterated(dt, (n - 1) as nat).stepped(dt)
        }
    }
}

/// A whole tick: every particle advanced one step, each from its own prior
/// state alone.
pub open spec fn stepped_all<A: Attractor>(ps: Seq<Particle<A>>, dt: int) -> Seq<Particle<A>> {
    ps.map_values(|p: Particle<A>| p.stepped(dt))
}

/// Advance every particle one explicit-Euler step with time delta `dt`:
/// `state += delta(state) * dt`, in place. Exactly one derivative
/// evaluation per particle; no particle's update reads any other.
pub fn update_node_positions<A: Attractor + Copy>(particles: &mut Vec<Particle<A>>, dt: Fx)
    ensures
        final(particles)@ == stepped_all(old(particles)@, dt@),
{
    let ghost orig = particles@;
    let n: usize = particles.len();
    let mut i: usize = 0;
    while i < n
        invariant
            i <= n,
            n == particles@.len(),
            n == orig.len(),
            forall|j: int| 0 <= j < i ==> particles@[j] == orig[j].stepped(dt@),
            forall|j: int| i <= j < n ==> particles@[j] == orig[j],
        decreases n - i,
    {
        let p = particles[i];
        let d = p.field.delta(p.state);
        let next = Particle { state: p.state.step(d, dt), field: p.field };
        particles.set(i, next);
        i += 1;
    }
    proof {
        assert(particles@ =~= stepped_all(orig, dt@));
    }
}

/// A zero time delta moves nothing: one step with `dt == 0` returns the
/// particle bit-for-bit.
pub proof fn lemma_step_zero_dt<A: Attractor>(p: Particle<A>)
    ensures
        p.stepped(0) == p,
{
    let d = p.field.delta_spec(p.state);
    crate::fixed::lemma_fx_mul_of_zero(d.x@, 0);
    crate::fixed::lemma_fx_mul_of_zero(d.y@, 0);
    crate::fixed::lemma_fx_mul_of_zero(d.z@, 0);
    crate::vec3::lemma_v3_eq(p.stepped(0).state, p.state);
}

/// A whole tick with `dt == 0` leaves every particle's state unchanged.
pub proof fn lemma_tick_zero_dt<A: Attractor>(ps: Seq<Particle<A>>)
    ensures
        stepped_all(ps, 0) == ps,
{
    assert forall|j: int| 0 <= j < ps.len() implies stepped_all(ps, 0)[j] == ps[j] by {
        lemma_step_zero_dt(ps[j]);
    }
    assert(stepped_all(ps, 0) =~= ps);
}

/// Independence: what a tick does to the particle at index `i` depends on
/// that particle alone. Two collections agreeing at `i` agree at `i` after
/// the tick, whatever the other particles are.
pub proof fn lemma_particle_independence<A: Attractor>(
    ps1: Seq<Particle<A>>,
    ps2: Seq<Particle<A>>,
    dt: int,
    i: int,
)
    requires
        0 <= i < ps1.len(),
        0 <= i < ps2.len(),
        ps1[i] == ps2[i],
    ensures
        stepped_all(ps1, dt)[i] == stepped_all(ps2, dt)[i],
{
}

/// A fixed point of the field is a fixed point of the integrator: a
/// particle whose derivative vanishes at its state stays put for any
/// number of steps, whatever the time delta.
pub proof fn lemma_fixed_point_stays<A: Attractor>(p: Particle<A>, dt: int, n: nat)
    requires
        p.field.delta_spec(p.state) == origin(),
    ensures
        p.iterated(dt, n) == p,
    decreases n,
{
    if n > 0 {
        lemma_fixed_point_stays(p, dt, (n - 1) as nat);
        let d = p.field.delta_spec(p.state);
        crate::fixed::lemma_fx_mul_of_zero(dt, d.x@);
        crate::fixed::lemma_fx_mul_of_zero(dt, d.y@);
        crate::fixed::lemma_fx_mul_of_zero(dt, d.z@);
        crate::vec3::lemma_v3_eq(p.stepped(dt).state, p.state);
    }
}

} // verus!
