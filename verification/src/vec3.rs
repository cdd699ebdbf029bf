//! Three-component phase-space vectors and the explicit-Euler step.

use crate::fixed::{fx_add, fx_mul, Fx};
use vstd::prelude::*;

verus! {

/// A particle's state: a position in three-dimensional phase space.
#[derive(Clone, Copy, Debug, PartialEq, Eq, Structural)]
pub struct Vec3 {
    pub x: Fx,
    pub y: Fx,
    pub z: Fx,
}

/// The vector whose components hold the given unit counts (saturated into
/// the `i64` range by the arithmetic that produced them).
pub open spec fn v3(x: int, y: int, z: int) -> Vec3 {
    Vec3 { x: Fx { units: x as i64 }, y: Fx { units: y as i64 }, z: Fx { units: z as i64 } }
}

/// The origin of phase space.
pub open spec fn origin() -> Vec3 {
    v3(0, 0, 0)
}

/// One explicit-Euler update: `p + d * dt`, componentwise in fixed point.
pub open spec fn euler_step(p: Vec3, d: Vec3, dt: int) -> Vec3 {
    v3(
        fx_add(p.x@, fx_mul(d.x@, dt)),
        fx_add(p.y@, fx_mul(d.y@, dt)),
        fx_add(p.z@, fx_mul(d.z@, dt)),
    )
}

/// Two vectors with equal components are equal.
pub proof fn lemma_v3_eq(a: Vec3, b: Vec3)
    requires
        a.x@ == b.x@,
        a.y@ == b.y@,
        a.z@ == b.z@,
    ensures
        a == b,
{
}

impl Vec3 {
    /// The origin, as a value.
    pub fn zero() -> (r: Vec3)
        ensures
            r == origin(),
    {
        Vec3 { x: Fx { units: 0 }, y: Fx { units: 0 }, z: Fx { units: 0 } }
    }

    /// Advance this state one explicit-Euler step along the derivative `d`
    /// with time delta `dt`.
    pub fn step(self, d: Vec3, dt: Fx) -> (r: Vec3)
        ensures
            r == euler_step(self, d, dt@),
    {
        let r = Vec3 {
            x: self.x.add(d.x.mul(dt)),
            y: self.y.add(d.y.mul(dt)),
            z: self.z.add(d.z.mul(dt)),
        };
        proof {
            lemma_v3_eq(r, euler_step(self, d, dt@));
        }
        r
    }
}

} // verus!
