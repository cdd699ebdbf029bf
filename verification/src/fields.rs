//! The ten attractor variants.
//!
//! Each variant is an immutable record of fixed-point coefficients together
//! with its derivative rule. `delta_spec` states the rule exactly, operation
//! by operation, over the spec arithmetic of [`crate::fixed`]; `delta` is
//! proved to return it. The `default` constructors carry the stock
//! coefficients of each system.

use crate::attractor::{Attractor, Particle};
use crate::fixed::{
    fx_abs, fx_add, fx_div, fx_div_int, fx_mul, fx_neg, fx_sin, fx_sub, lemma_fx_div_int_of_zero,
    lemma_fx_mul_of_zero, lemma_fx_sin_zero, Fx, SCALE,
};
use crate::vec3::{lemma_v3_eq, origin, v3, Vec3};
use vstd::prelude::*;

verus! {

// ---------------------------------------------------------------- Lorenz

/// The Lorenz system: dx = sigma*(y - x); dy = x*(rho - z) - y;
/// dz = x*y - beta*z.
#[derive(Clone, Copy, Debug, PartialEq, Eq, Structural)]
pub struct LorenzAttractor {
    pub sigma: Fx,
    pub rho: Fx,
    pub beta: Fx,
}

impl LorenzAttractor {
    /// A Lorenz field with the given coefficients.
    pub fn new(sigma: Fx, rho: Fx, beta: Fx) -> (r: Self)
        ensures
            r == (LorenzAttractor { sigma, rho, beta }),
    {
        LorenzAttractor { sigma, rho, beta }
    }
}

impl Default for LorenzAttractor {
    /// The stock coefficients: sigma = 3, rho = 28, beta = 8/3.
    fn default() -> (r: Self)
        ensures
            r.sigma@ == 3 * SCALE,
            r.rho@ == 28 * SCALE,
            r.beta@ == 2_666_666,
    {
        LorenzAttractor {
            sigma: Fx { units: 3_000_000 },
            rho: Fx { units: 28_000_000 },
            beta: Fx { units: 2_666_666 },
        }
    }
}

impl Attractor for LorenzAttractor {
    open spec fn delta_spec(&self, p: Vec3) -> Vec3 {
        v3(
            fx_mul(self.sigma@, fx_sub(p.y@, p.x@)),
            fx_sub(fx_mul(p.x@, fx_sub(self.rho@, p.z@)), p.y@),
            fx_sub(fx_mul(p.x@, p.y@), fx_mul(self.beta@, p.z@)),
        )
    }

    fn delta(&self, p: Vec3) -> (r: Vec3) {
        let r = Vec3 {
            x: self.sigma.mul(p.y.sub(p.x)),
            y: p.x.mul(self.rho.sub(p.z)).sub(p.y),
            z: p.x.mul(p.y).sub(self.beta.mul(p.z)),
        };
        proof {
            lemma_v3_eq(r, self.delta_spec(p));
        }
        r
    }
}

/// At the origin every Lorenz term carries a zero coordinate, so the
/// derivative vanishes, whatever the coefficients.
pub proof fn lemma_lorenz_delta_origin(a: LorenzAttractor)
    ensures
        a.delta_spec(origin()) == origin(),
{
    lemma_fx_mul_of_zero(a.sigma@, fx_sub(0, 0));
    lemma_fx_mul_of_zero(fx_sub(a.rho@, 0), 0);
    lemma_fx_mul_of_zero(0, 0);
    lemma_fx_mul_of_zero(a.beta@, 0);
    lemma_v3_eq(a.delta_spec(origin()), origin());
}

// --------------------------------------------------------- ThreeCellCnn

/// The piecewise-linear saturation h(v) = 0.5*(|v + 1| - |v - 1|).
pub open spec fn shift_spec(v: int) -> int {
    fx_mul(500_000, fx_sub(fx_abs(fx_add(v, SCALE as int)), fx_abs(fx_sub(v, SCALE as int))))
}

/// Evaluate the saturation h on a fixed-point scalar.
pub fn shift(v: Fx) -> (r: Fx)
    ensures
        r@ == shift_spec(v@),
{
    let one = Fx { units: SCALE };
    let half = Fx { units: 500_000 };
    half.mul(v.add(one).abs().sub(v.sub(one).abs()))
}

/// A three-cell cellular neural network:
/// dx = -x + p0*h(x) - p3*h(y) - p3*h(z);
/// dy = -y - p3*h(x) + p1*h(y) - p2*h(z);
/// dz = -z - p3*h(x) + p2*h(y) + h(z).
#[derive(Clone, Copy, Debug, PartialEq, Eq, Structural)]
pub struct ThreeCellCnnAttractor {
    pub p0: Fx,
    pub p1: Fx,
    pub p2: Fx,
    pub p3: Fx,
}

impl ThreeCellCnnAttractor {
    /// A three-cell CNN field with the given coefficients.
    pub fn new(p0: Fx, p1: Fx, p2: Fx, p3: Fx) -> (r: Self)
        ensures
            r == (ThreeCellCnnAttractor { p0, p1, p2, p3 }),
    {
        ThreeCellCnnAttractor { p0, p1, p2, p3 }
    }
}

impl Default for ThreeCellCnnAttractor {
    /// The stock coefficients: p0 = 1.24, p1 = 1.1, p2 = 4.4, p3 = 3.21.
    fn default() -> (r: Self)
        ensures
            r.p0@ == 1_240_000,
            r.p1@ == 1_100_000,
            r.p2@ == 4_400_000,
            r.p3@ == 3_210_000,
    {
        ThreeCellCnnAttractor {
            p0: Fx { units: 1_240_000 },
            p1: Fx { units: 1_100_000 },
            p2: Fx { units: 4_400_000 },
            p3: Fx { units: 3_210_000 },
        }
    }
}

impl Attractor for ThreeCellCnnAttractor {
    open spec fn delta_spec(&self, p: Vec3) -> Vec3 {
        let hx = shift_spec(p.x@);
        let hy = shift_spec(p.y@);
        let hz = shift_spec(p.z@);
        v3(
            fx_sub(fx_sub(fx_add(fx_neg(p.x@), fx_mul(self.p0@, hx)), fx_mul(self.p3@, hy)), fx_mul(self.p3@, hz)),
            fx_sub(fx_add(fx_sub(fx_neg(p.y@), fx_mul(self.p3@, hx)), fx_mul(self.p1@, hy)), fx_mul(self.p2@, hz)),
            fx_add(fx_add(fx_sub(fx_neg(p.z@), fx_mul(self.p3@, hx)), fx_mul(self.p2@, hy)), hz),
        )
    }

    fn delta(&self, p: Vec3) -> (r: Vec3) {
        let hx = shift(p.x);
        let hy = shift(p.y);
        let hz = shift(p.z);
        let r = Vec3 {
            x: p.x.neg().add(self.p0.mul(hx)).sub(self.p3.mul(hy)).sub(self.p3.mul(hz)),
            y: p.y.neg().sub(self.p3.mul(hx)).add(self.p1.mul(hy)).sub(self.p2.mul(hz)),
            z: p.z.neg().sub(self.p3.mul(hx)).add(self.p2.mul(hy)).add(hz),
        };
        proof {
            lemma_v3_eq(r, self.delta_spec(p));
        }
        r
    }
}

/// The saturation h vanishes at zero, so at the origin the whole CNN
/// derivative vanishes, whatever the coefficients.
pub proof fn lemma_three_cell_cnn_delta_origin(a: ThreeCellCnnAttractor)
    ensures
        a.delta_spec(origin()) == origin(),
{
    let h = shift_spec(0);
    lemma_fx_mul_of_zero(
        500_000,
        fx_sub(fx_abs(fx_add(0, SCALE as int)), fx_abs(fx_sub(0, SCALE as int))),
    );
    assert(h == 0);
    lemma_fx_mul_of_zero(a.p0@, h);
    lemma_fx_mul_of_zero(a.p1@, h);
    lemma_fx_mul_of_zero(a.p2@, h);
    lemma_fx_mul_of_zero(a.p3@, h);
    lemma_v3_eq(a.delta_spec(origin()), origin());
}

// ---------------------------------------------------------------- Aizawa

/// The Aizawa system: dx = (z - p1)*x - p3*y; dy = p3*x + (z - p1)*y;
/// dz = p2 + p0*z - z^3/3 - (x^2 + y^2)*(1 + p4*z) + p5*z*x^3.
#[derive(Clone, Copy, Debug, PartialEq, Eq, Structural)]
pub struct AizawaAttractor {
    pub p0: Fx,
    pub p1: Fx,
    pub p2: Fx,
    pub p3: Fx,
    pub p4: Fx,
    pub p5: Fx,
}

impl AizawaAttractor {
    /// An Aizawa field with the given coefficients.
    pub fn new(p0: Fx, p1: Fx, p2: Fx, p3: Fx, p4: Fx, p5: Fx) -> (r: Self)
        ensures
            r == (AizawaAttractor { p0, p1, p2, p3, p4, p5 }),
    {
        AizawaAttractor { p0, p1, p2, p3, p4, p5 }
    }
}

impl Default for AizawaAttractor {
    /// The stock coefficients: p0 = 0.95, p1 = 0.7, p2 = 0.6, p3 = 3.5,
    /// p4 = 0.25, p5 = 0.1.
    fn default() -> (r: Self)
        ensures
            r.p0@ == 950_000,
            r.p1@ == 700_000,
            r.p2@ == 600_000,
            r.p3@ == 3_500_000,
            r.p4@ == 250_000,
            r.p5@ == 100_000,
    {
        AizawaAttractor {
            p0: Fx { units: 950_000 },
            p1: Fx { units: 700_000 },
            p2: Fx { units: 600_000 },
            p3: Fx { units: 3_500_000 },
            p4: Fx { units: 250_000 },
            p5: Fx { units: 100_000 },
        }
    }
}

impl Attractor for AizawaAttractor {
    open spec fn delta_spec(&self, p: Vec3) -> Vec3 {
        v3(
            fx_sub(fx_mul(fx_sub(p.z@, self.p1@), p.x@), fx_mul(self.p3@, p.y@)),
            fx_add(fx_mul(self.p3@, p.x@), fx_mul(fx_sub(p.z@, self.p1@), p.y@)),
            fx_add(
                fx_sub(
                    fx_sub(
                        fx_add(self.p2@, fx_mul(self.p0@, p.z@)),
                        fx_div_int(fx_mul(fx_mul(p.z@, p.z@), p.z@), 3),
                    ),
                    fx_mul(
                        fx_add(fx_mul(p.x@, p.x@), fx_mul(p.y@, p.y@)),
                        fx_add(SCALE as int, fx_mul(self.p4@, p.z@)),
                    ),
                ),
                fx_mul(fx_mul(fx_mul(fx_mul(self.p5@, p.z@), p.x@), p.x@), p.x@),
            ),
        )
    }

    fn delta(&self, p: Vec3) -> (r: Vec3) {
        let one = Fx { units: SCALE };
        let r = Vec3 {
            x: p.z.sub(self.p1).mul(p.x).sub(self.p3.mul(p.y)),
            y: self.p3.mul(p.x).add(p.z.sub(self.p1).mul(p.y)),
            z: self.p2.add(self.p0.mul(p.z))
                .sub(p.z.mul(p.z).mul(p.z).div_int(3))
                .sub(p.x.mul(p.x).add(p.y.mul(p.y)).mul(one.add(self.p4.mul(p.z))))
                .add(self.p5.mul(p.z).mul(p.x).mul(p.x).mul(p.x)),
        };
        proof {
            lemma_v3_eq(r, self.delta_spec(p));
        }
        r
    }
}

/// At the origin the Aizawa derivative reduces to its constant term:
/// (0, 0, p2), whatever the coefficients.
pub proof fn lemma_aizawa_delta_origin(a: AizawaAttractor)
    ensures
        a.delta_spec(origin()) == v3(0, 0, a.p2@),
{
    lemma_fx_mul_of_zero(fx_sub(0, a.p1@), 0);
    lemma_fx_mul_of_zero(a.p3@, 0);
    lemma_fx_mul_of_zero(a.p0@, 0);
    lemma_fx_mul_of_zero(0, 0);
    lemma_fx_mul_of_zero(fx_mul(0, 0), 0);
    lemma_fx_div_int_of_zero(fx_mul(fx_mul(0, 0), 0), 3);
    lemma_fx_mul_of_zero(a.p4@, 0);
    lemma_fx_mul_of_zero(
        fx_add(SCALE as int, fx_mul(a.p4@, 0)),
        fx_add(fx_mul(0, 0), fx_mul(0, 0)),
    );
    lemma_fx_mul_of_zero(a.p5@, 0);
    lemma_fx_mul_of_zero(fx_mul(a.p5@, 0), 0);
    lemma_fx_mul_of_zero(fx_mul(fx_mul(a.p5@, 0), 0), 0);
    lemma_fx_mul_of_zero(fx_mul(fx_mul(fx_mul(a.p5@, 0), 0), 0), 0);
    lemma_v3_eq(a.delta_spec(origin()), v3(0, 0, a.p2@));
}

// ---------------------------------------------------------------- Bouali

/// The Bouali system: dx = x*(4 - y) + p0*z; dy = -y*(1 - x^2);
/// dz = -x*(1.5 - z*p1) - 0.05*z.
#[derive(Clone, Copy, Debug, PartialEq, Eq, Structural)]
pub struct BoualiAttractor {
    pub p0: Fx,
    pub p1: Fx,
}

impl BoualiAttractor {
    /// A Bouali field with the given coefficients.
    pub fn new(p0: Fx, p1: Fx) -> (r: Self)
        ensures
            r == (BoualiAttractor { p0, p1 }),
    {
        BoualiAttractor { p0, p1 }
    }
}

impl Default for BoualiAttractor {
    /// The stock coefficients: p0 = 0.3, p1 = 1.
    fn default() -> (r: Self)
        ensures
            r.p0@ == 300_000,
            r.p1@ == SCALE as int,
    {
        BoualiAttractor { p0: Fx { units: 300_000 }, p1: Fx { units: SCALE } }
    }
}

impl Attractor for BoualiAttractor {
    open spec fn delta_spec(&self, p: Vec3) -> Vec3 {
        v3(
            fx_add(fx_mul(p.x@, fx_sub(4 * SCALE, p.y@)), fx_mul(self.p0@, p.z@)),
            fx_mul(fx_neg(p.y@), fx_sub(SCALE as int, fx_mul(p.x@, p.x@))),
            fx_sub(
                fx_mul(fx_neg(p.x@), fx_sub(1_500_000, fx_mul(p.z@, self.p1@))),
                fx_mul(50_000, p.z@),
            ),
        )
    }

    fn delta(&self, p: Vec3) -> (r: Vec3) {
        let one = Fx { units: SCALE };
        let four = Fx { units: 4_000_000 };
        let three_halves = Fx { units: 1_500_000 };
        let twentieth = Fx { units: 50_000 };
        let r = Vec3 {
            x: p.x.mul(four.sub(p.y)).add(self.p0.mul(p.z)),
            y: p.y.neg().mul(one.sub(p.x.mul(p.x))),
            z: p.x.neg().mul(three_halves.sub(p.z.mul(self.p1))).sub(twentieth.mul(p.z)),
        };
        proof {
            lemma_v3_eq(r, self.delta_spec(p));
        }
        r
    }
}

/// At the origin every Bouali term carries a zero coordinate, so the
/// derivative vanishes, whatever the coefficients.
pub proof fn lemma_bouali_delta_origin(a: BoualiAttractor)
    ensures
        a.delta_spec(origin()) == origin(),
{
    lemma_fx_mul_of_zero(fx_sub(4 * SCALE, 0), 0);
    lemma_fx_mul_of_zero(a.p0@, 0);
    lemma_fx_mul_of_zero(0, 0);
    lemma_fx_mul_of_zero(fx_sub(SCALE as int, fx_mul(0, 0)), fx_neg(0));
    lemma_fx_mul_of_zero(a.p1@, 0);
    lemma_fx_mul_of_zero(fx_sub(1_500_000, fx_mul(0, a.p1@)), fx_neg(0));
    lemma_fx_mul_of_zero(50_000, 0);
    lemma_v3_eq(a.delta_spec(origin()), origin());
}

// --------------------------------------------------------------- ChenLee

/// The Chen-Lee system, with a global damping factor of one quarter:
/// (dx, dy, dz) = 0.25 * (p0*x - y*z, p1*y + x*z, p2*z + x*y/3).
#[derive(Clone, Copy, Debug, PartialEq, Eq, Structural)]
pub struct ChenLeeAttractor {
    pub p0: Fx,
    pub p1: Fx,
    pub p2: Fx,
}

impl ChenLeeAttractor {
    /// A Chen-Lee field with the given coefficients.
    pub fn new(p0: Fx, p1: Fx, p2: Fx) -> (r: Self)
        ensures
            r == (ChenLeeAttractor { p0, p1, p2 }),
    {
        ChenLeeAttractor { p0, p1, p2 }
    }
}

impl Default for ChenLeeAttractor {
    /// The stock coefficients: p0 = 5, p1 = -10, p2 = -0.38.
    fn default() -> (r: Self)
        ensures
            r.p0@ == 5 * SCALE,
            r.p1@ == -10 * SCALE,
            r.p2@ == -380_000,
    {
        ChenLeeAttractor {
            p0: Fx { units: 5_000_000 },
            p1: Fx { units: -10_000_000 },
            p2: Fx { units: -380_000 },
        }
    }
}

impl Attractor for ChenLeeAttractor {
    open spec fn delta_spec(&self, p: Vec3) -> Vec3 {
        v3(
            fx_mul(fx_sub(fx_mul(self.p0@, p.x@), fx_mul(p.y@, p.z@)), 250_000),
            fx_mul(fx_add(fx_mul(self.p1@, p.y@), fx_mul(p.x@, p.z@)), 250_000),
            fx_mul(fx_add(fx_mul(self.p2@, p.z@), fx_div_int(fx_mul(p.x@, p.y@), 3)), 250_000),
        )
    }

    fn delta(&self, p: Vec3) -> (r: Vec3) {
        let quarter = Fx { units: 250_000 };
        let r = Vec3 {
            x: self.p0.mul(p.x).sub(p.y.mul(p.z)).mul(quarter),
            y: self.p1.mul(p.y).add(p.x.mul(p.z)).mul(quarter),
            z: self.p2.mul(p.z).add(p.x.mul(p.y).div_int(3)).mul(quarter),
        };
        proof {
            lemma_v3_eq(r, self.delta_spec(p));
        }
        r
    }
}

/// At the origin every Chen-Lee term carries a zero coordinate, so the
/// derivative vanishes, whatever the coefficients.
pub proof fn lemma_chen_lee_delta_origin(a: ChenLeeAttractor)
    ensures
        a.delta_spec(origin()) == origin(),
{
    lemma_fx_mul_of_zero(a.p0@, 0);
    lemma_fx_mul_of_zero(a.p1@, 0);
    lemma_fx_mul_of_zero(a.p2@, 0);
    lemma_fx_mul_of_zero(0, 0);
    lemma_fx_div_int_of_zero(fx_mul(0, 0), 3);
    lemma_fx_mul_of_zero(250_000, fx_sub(fx_mul(a.p0@, 0), fx_mul(0, 0)));
    lemma_fx_mul_of_zero(250_000, fx_add(fx_mul(a.p1@, 0), fx_mul(0, 0)));
    lemma_fx_mul_of_zero(250_000, fx_add(fx_mul(a.p2@, 0), fx_div_int(fx_mul(0, 0), 3)));
    lemma_v3_eq(a.delta_spec(origin()), origin());
}

// ------------------------------------------------------------- Halvorsen

/// One cyclic Halvorsen component: a*s - 4*m - 4*l - m^2.
pub open spec fn halvorsen_term_spec(a: int, s: int, m: int, l: int) -> int {
    fx_sub(fx_sub(fx_sub(fx_mul(a, s), fx_mul(4 * SCALE, m)), fx_mul(4 * SCALE, l)), fx_mul(m, m))
}

/// Evaluate one cyclic Halvorsen component.
fn halvorsen_term(a: Fx, s: Fx, m: Fx, l: Fx) -> (r: Fx)
    ensures
        r@ == halvorsen_term_spec(a@, s@, m@, l@),
{
    let four = Fx { units: 4_000_000 };
    a.mul(s).sub(four.mul(m)).sub(four.mul(l)).sub(m.mul(m))
}

/// The Halvorsen system: the same component a*s - 4*m - 4*l - m^2 applied
/// cyclically to (x, y, z), (y, z, x) and (z, x, y).
#[derive(Clone, Copy, Debug, PartialEq, Eq, Structural)]
pub struct HalvorsenAttractor {
    pub p0: Fx,
}

impl HalvorsenAttractor {
    /// A Halvorsen field with the given coefficient.
    pub fn new(p0: Fx) -> (r: Self)
        ensures
            r == (HalvorsenAttractor { p0 }),
    {
        HalvorsenAttractor { p0 }
    }
}

impl Default for HalvorsenAttractor {
    /// The stock coefficient: p0 = 1.4.
    fn default() -> (r: Self)
        ensures
            r.p0@ == 1_400_000,
    {
        HalvorsenAttractor { p0: Fx { units: 1_400_000 } }
    }
}

impl Attractor for HalvorsenAttractor {
    open spec fn delta_spec(&self, p: Vec3) -> Vec3 {
        v3(
            halvorsen_term_spec(self.p0@, p.x@, p.y@, p.z@),
            halvorsen_term_spec(self.p0@, p.y@, p.z@, p.x@),
            halvorsen_term_spec(self.p0@, p.z@, p.x@, p.y@),
        )
    }

    fn delta(&self, p: Vec3) -> (r: Vec3) {
        let r = Vec3 {
            x: halvorsen_term(self.p0, p.x, p.y, p.z),
            y: halvorsen_term(self.p0, p.y, p.z, p.x),
            z: halvorsen_term(self.p0, p.z, p.x, p.y),
        };
        proof {
            lemma_v3_eq(r, self.delta_spec(p));
        }
        r
    }
}

/// At the origin every Halvorsen term carries a zero coordinate, so the
/// derivative vanishes, whatever the coefficient.
pub proof fn lemma_halvorsen_delta_origin(a: HalvorsenAttractor)
    ensures
        a.delta_spec(origin()) == origin(),
{
    lemma_fx_mul_of_zero(a.p0@, 0);
    lemma_fx_mul_of_zero(4 * SCALE, 0);
    lemma_fx_mul_of_zero(0, 0);
    lemma_v3_eq(a.delta_spec(origin()), origin());
}

// --------------------------------------------------------------- Finance

/// The Finance system: dx = (1/p1 - p0)*x + z + x*y; dy = -p1*y - x^2;
/// dz = -x - p2*z.
#[derive(Clone, Copy, Debug, PartialEq, Eq, Structural)]
pub struct FinanceAttractor {
    pub p0: Fx,
    pub p1: Fx,
    pub p2: Fx,
}

impl FinanceAttractor {
    /// A Finance field with the given coefficients.
    pub fn new(p0: Fx, p1: Fx, p2: Fx) -> (r: Self)
        ensures
            r == (FinanceAttractor { p0, p1, p2 }),
    {
        FinanceAttractor { p0, p1, p2 }
    }
}

impl Default for FinanceAttractor {
    /// The stock coefficients: p0 = 0.001, p1 = 0.2, p2 = 1.1.
    fn default() -> (r: Self)
        ensures
            r.p0@ == 1_000,
            r.p1@ == 200_000,
            r.p2@ == 1_100_000,
    {
        FinanceAttractor {
            p0: Fx { units: 1_000 },
            p1: Fx { units: 200_000 },
            p2: Fx { units: 1_100_000 },
        }
    }
}

impl Attractor for FinanceAttractor {
    open spec fn delta_spec(&self, p: Vec3) -> Vec3 {
        v3(
            fx_add(
                fx_add(fx_mul(fx_sub(fx_div(SCALE as int, self.p1@), self.p0@), p.x@), p.z@),
                fx_mul(p.x@, p.y@),
            ),
            fx_sub(fx_mul(fx_neg(self.p1@), p.y@), fx_mul(p.x@, p.x@)),
            fx_sub(fx_neg(p.x@), fx_mul(self.p2@, p.z@)),
        )
    }

    fn delta(&self, p: Vec3) -> (r: Vec3) {
        let one = Fx { units: SCALE };
        let r = Vec3 {
            x: one.div(self.p1).sub(self.p0).mul(p.x).add(p.z).add(p.x.mul(p.y)),
            y: self.p1.neg().mul(p.y).sub(p.x.mul(p.x)),
            z: p.x.neg().sub(self.p2.mul(p.z)),
        };
        proof {
            lemma_v3_eq(r, self.delta_spec(p));
        }
        r
    }
}

/// At the origin every Finance term carries a zero coordinate, so the
/// derivative vanishes, whatever the coefficients.
pub proof fn lemma_finance_delta_origin(a: FinanceAttractor)
    ensures
        a.delta_spec(origin()) == origin(),
{
    lemma_fx_mul_of_zero(fx_sub(fx_div(SCALE as int, a.p1@), a.p0@), 0);
    lemma_fx_mul_of_zero(0, 0);
    lemma_fx_mul_of_zero(fx_neg(a.p1@), 0);
    lemma_fx_mul_of_zero(a.p2@, 0);
    lemma_v3_eq(a.delta_spec(origin()), origin());
}

// --------------------------------------------------------- NewtonLeipnik

/// The Newton-Leipnik system: dx = -p0*x + y + 10*y*z;
/// dy = -x - 0.4*y + 5*x*z; dz = p1*z - 5*x*y.
#[derive(Clone, Copy, Debug, PartialEq, Eq, Structural)]
pub struct NewtonLeipnikAttractor {
    pub p0: Fx,
    pub p1: Fx,
}

impl NewtonLeipnikAttractor {
    /// A Newton-Leipnik field with the given coefficients.
    pub fn new(p0: Fx, p1: Fx) -> (r: Self)
        ensures
            r == (NewtonLeipnikAttractor { p0, p1 }),
    {
        NewtonLeipnikAttractor { p0, p1 }
    }
}

impl Default for NewtonLeipnikAttractor {
    /// The stock coefficients: p0 = 0.4, p1 = 0.175.
    fn default() -> (r: Self)
        ensures
            r.p0@ == 400_000,
            r.p1@ == 175_000,
    {
        NewtonLeipnikAttractor { p0: Fx { units: 400_000 }, p1: Fx { units: 175_000 } }
    }
}

impl Attractor for NewtonLeipnikAttractor {
    open spec fn delta_spec(&self, p: Vec3) -> Vec3 {
        v3(
            fx_add(fx_add(fx_mul(fx_neg(self.p0@), p.x@), p.y@), fx_mul(fx_mul(10 * SCALE, p.y@), p.z@)),
            fx_add(fx_sub(fx_neg(p.x@), fx_mul(400_000, p.y@)), fx_mul(fx_mul(5 * SCALE, p.x@), p.z@)),
            fx_sub(fx_mul(self.p1@, p.z@), fx_mul(fx_mul(5 * SCALE, p.x@), p.y@)),
        )
    }

    fn delta(&self, p: Vec3) -> (r: Vec3) {
        let ten = Fx { units: 10_000_000 };
        let five = Fx { units: 5_000_000 };
        let two_fifths = Fx { units: 400_000 };
        let r = Vec3 {
            x: self.p0.neg().mul(p.x).add(p.y).add(ten.mul(p.y).mul(p.z)),
            y: p.x.neg().sub(two_fifths.mul(p.y)).add(five.mul(p.x).mul(p.z)),
            z: self.p1.mul(p.z).sub(five.mul(p.x).mul(p.y)),
        };
        proof {
            lemma_v3_eq(r, self.delta_spec(p));
        }
        r
    }
}

/// At the origin every Newton-Leipnik term carries a zero coordinate, so
/// the derivative vanishes, whatever the coefficients.
pub proof fn lemma_newton_leipnik_delta_origin(a: NewtonLeipnikAttractor)
    ensures
        a.delta_spec(origin()) == origin(),
{
    lemma_fx_mul_of_zero(fx_neg(a.p0@), 0);
    lemma_fx_mul_of_zero(10 * SCALE, 0);
    lemma_fx_mul_of_zero(fx_mul(10 * SCALE, 0), 0);
    lemma_fx_mul_of_zero(400_000, 0);
    lemma_fx_mul_of_zero(5 * SCALE, 0);
    lemma_fx_mul_of_zero(fx_mul(5 * SCALE, 0), 0);
    lemma_fx_mul_of_zero(a.p1@, 0);
    lemma_v3_eq(a.delta_spec(origin()), origin());
}

// ------------------------------------------------------------ NoseHoover

/// The Nose-Hoover system: dx = y; dy = -x + y*z; dz = p0 - y^2.
#[derive(Clone, Copy, Debug, PartialEq, Eq, Structural)]
pub struct NoseHooverAttractor {
    pub p0: Fx,
}

impl NoseHooverAttractor {
    /// A Nose-Hoover field with the given coefficient.
    pub fn new(p0: Fx) -> (r: Self)
        ensures
            r == (NoseHooverAttractor { p0 }),
    {
        NoseHooverAttractor { p0 }
    }
}

impl Default for NoseHooverAttractor {
    /// The stock coefficient: p0 = 1.5.
    fn default() -> (r: Self)
        ensures
            r.p0@ == 1_500_000,
    {
        NoseHooverAttractor { p0: Fx { units: 1_500_000 } }
    }
}

impl Attractor for NoseHooverAttractor {
    open spec fn delta_spec(&self, p: Vec3) -> Vec3 {
        v3(
            p.y@,
            fx_add(fx_neg(p.x@), fx_mul(p.y@, p.z@)),
            fx_sub(self.p0@, fx_mul(p.y@, p.y@)),
        )
    }

    fn delta(&self, p: Vec3) -> (r: Vec3) {
        let r = Vec3 {
            x: p.y,
            y: p.x.neg().add(p.y.mul(p.z)),
            z: self.p0.sub(p.y.mul(p.y)),
        };
        proof {
            lemma_v3_eq(r, self.delta_spec(p));
        }
        r
    }
}

/// At the origin the Nose-Hoover derivative reduces to its constant term:
/// (0, 0, p0), whatever the coefficient.
pub proof fn lemma_nose_hoover_delta_origin(a: NoseHooverAttractor)
    ensures
        a.delta_spec(origin()) == v3(0, 0, a.p0@),
{
    lemma_fx_mul_of_zero(0, 0);
    lemma_v3_eq(a.delta_spec(origin()), v3(0, 0, a.p0@));
}

// ---------------------------------------------------------------- Thomas

/// The Thomas system: dx = -p0*x + sin(y); dy = -p0*y + sin(z);
/// dz = -p0*z + sin(x).
#[derive(Clone, Copy, Debug, PartialEq, Eq, Structural)]
pub struct ThomasAttractor {
    pub p0: Fx,
}

impl ThomasAttractor {
    /// A Thomas field with the given coefficient.
    pub fn new(p0: Fx) -> (r: Self)
        ensures
            r == (ThomasAttractor { p0 }),
    {
        ThomasAttractor { p0 }
    }
}

impl Default for ThomasAttractor {
    /// The stock coefficient: p0 = 0.2.
    fn default() -> (r: Self)
        ensures
            r.p0@ == 200_000,
    {
        ThomasAttractor { p0: Fx { units: 200_000 } }
    }
}

impl Attractor for ThomasAttractor {
    open spec fn delta_spec(&self, p: Vec3) -> Vec3 {
        v3(
            fx_add(fx_mul(fx_neg(self.p0@), p.x@), fx_sin(p.y@)),
            fx_add(fx_mul(fx_neg(self.p0@), p.y@), fx_sin(p.z@)),
            fx_add(fx_mul(fx_neg(self.p0@), p.z@), fx_sin(p.x@)),
        )
    }

    fn delta(&self, p: Vec3) -> (r: Vec3) {
        let r = Vec3 {
            x: self.p0.neg().mul(p.x).add(p.y.sin()),
            y: self.p0.neg().mul(p.y).add(p.z.sin()),
            z: self.p0.neg().mul(p.z).add(p.x.sin()),
        };
        proof {
            lemma_v3_eq(r, self.delta_spec(p));
        }
        r
    }
}

/// At the origin the Thomas derivative vanishes: sine vanishes at zero and
/// the linear terms carry a zero coordinate, whatever the coefficient.
pub proof fn lemma_thomas_delta_origin(a: ThomasAttractor)
    ensures
        a.delta_spec(origin()) == origin(),
{
    lemma_fx_mul_of_zero(fx_neg(a.p0@), 0);
    lemma_fx_sin_zero();
    lemma_v3_eq(a.delta_spec(origin()), origin());
}

/// A Thomas particle at the origin never moves, whatever the coefficient,
/// the time delta and the number of steps.
pub proof fn lemma_thomas_origin_fixed(a: ThomasAttractor, dt: int, n: nat)
    ensures
        (Particle { state: origin(), field: a }).iterated(dt, n) == (Particle {
            state: origin(),
            field: a,
        }),
{
    lemma_thomas_delta_origin(a);
    crate::attractor::lemma_fixed_point_stays(Particle { state: origin(), field: a }, dt, n);
}

} // verus!
