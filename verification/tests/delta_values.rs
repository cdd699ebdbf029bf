//! Exact derivative values for every attractor variant: at the origin
//! (where each variant's closed form collapses to its constant term) and at
//! one hand-computed nonzero state each.

use attractors::{
    AizawaAttractor, Attractor, BoualiAttractor, ChenLeeAttractor, FinanceAttractor, Fx,
    HalvorsenAttractor, LorenzAttractor, NewtonLeipnikAttractor, NoseHooverAttractor,
    ThomasAttractor, ThreeCellCnnAttractor, Vec3,
};

fn fx(units: i64) -> Fx {
    Fx { units }
}

fn v(x: i64, y: i64, z: i64) -> Vec3 {
    Vec3 { x: fx(x), y: fx(y), z: fx(z) }
}

fn units_of(d: Vec3) -> (i64, i64, i64) {
    (d.x.units, d.y.units, d.z.units)
}

const ORIGIN: (i64, i64, i64) = (0, 0, 0);
const ONE: i64 = 1_000_000;

#[test]
fn lorenz_default_coefficients() {
    let a = LorenzAttractor::default();
    assert_eq!(a.sigma.units, 3_000_000);
    assert_eq!(a.rho.units, 28_000_000);
    assert_eq!(a.beta.units, 2_666_666);
    // the default beta is what dividing 8 by 3 in fixed point gives
    assert_eq!(fx(8_000_000).div(fx(3_000_000)).units, 2_666_666);
}

#[test]
fn lorenz_delta_at_origin_vanishes() {
    let a = LorenzAttractor::default();
    assert_eq!(units_of(a.delta(v(0, 0, 0))), ORIGIN);
}

#[test]
fn lorenz_delta_at_ones() {
    let a = LorenzAttractor::default();
    assert_eq!(units_of(a.delta(v(ONE, ONE, ONE))), (0, 26_000_000, -1_666_666));
}

#[test]
fn three_cell_cnn_default_coefficients() {
    let a = ThreeCellCnnAttractor::default();
    assert_eq!(
        (a.p0.units, a.p1.units, a.p2.units, a.p3.units),
        (1_240_000, 1_100_000, 4_400_000, 3_210_000)
    );
}

#[test]
fn three_cell_cnn_delta_at_origin_vanishes() {
    let a = ThreeCellCnnAttractor::default();
    assert_eq!(units_of(a.delta(v(0, 0, 0))), ORIGIN);
}

#[test]
fn three_cell_cnn_delta_at_two() {
    // h(2) saturates to 1, h(0) is 0
    let a = ThreeCellCnnAttractor::default();
    assert_eq!(units_of(a.delta(v(2 * ONE, 0, 0))), (-760_000, -3_210_000, -3_210_000));
}

#[test]
fn aizawa_default_coefficients() {
    let a = AizawaAttractor::default();
    assert_eq!(
        (a.p0.units, a.p1.units, a.p2.units, a.p3.units, a.p4.units, a.p5.units),
        (950_000, 700_000, 600_000, 3_500_000, 250_000, 100_000)
    );
}

#[test]
fn aizawa_delta_at_origin_is_constant_term() {
    // only the constant p2 survives at the origin
    let a = AizawaAttractor::default();
    assert_eq!(units_of(a.delta(v(0, 0, 0))), (0, 0, 600_000));
}

#[test]
fn aizawa_delta_at_ones() {
    let a = AizawaAttractor::default();
    assert_eq!(units_of(a.delta(v(ONE, ONE, ONE))), (-3_200_000, 3_800_000, -1_183_333));
}

#[test]
fn bouali_default_coefficients() {
    let a = BoualiAttractor::default();
    assert_eq!((a.p0.units, a.p1.units), (300_000, 1_000_000));
}

#[test]
fn bouali_delta_at_origin_vanishes() {
    let a = BoualiAttractor::default();
    assert_eq!(units_of(a.delta(v(0, 0, 0))), ORIGIN);
}

#[test]
fn bouali_delta_at_ones() {
    let a = BoualiAttractor::default();
    assert_eq!(units_of(a.delta(v(ONE, ONE, ONE))), (3_300_000, 0, -550_000));
}

#[test]
fn chen_lee_default_coefficients() {
    let a = ChenLeeAttractor::default();
    assert_eq!((a.p0.units, a.p1.units, a.p2.units), (5_000_000, -10_000_000, -380_000));
}

#[test]
fn chen_lee_delta_at_origin_vanishes() {
    let a = ChenLeeAttractor::default();
    assert_eq!(units_of(a.delta(v(0, 0, 0))), ORIGIN);
}

#[test]
fn chen_lee_delta_at_ones() {
    // the x*y/3 term truncates: 333333 units, then the quarter damping
    let a = ChenLeeAttractor::default();
    assert_eq!(units_of(a.delta(v(ONE, ONE, ONE))), (1_000_000, -2_250_000, -11_666));
}

#[test]
fn halvorsen_default_coefficient() {
    assert_eq!(HalvorsenAttractor::default().p0.units, 1_400_000);
}

#[test]
fn halvorsen_delta_at_origin_vanishes() {
    let a = HalvorsenAttractor::default();
    assert_eq!(units_of(a.delta(v(0, 0, 0))), ORIGIN);
}

#[test]
fn halvorsen_delta_at_unit_x() {
    let a = HalvorsenAttractor::default();
    assert_eq!(units_of(a.delta(v(ONE, 0, 0))), (1_400_000, -4_000_000, -5_000_000));
}

#[test]
fn finance_default_coefficients() {
    let a = FinanceAttractor::default();
    assert_eq!((a.p0.units, a.p1.units, a.p2.units), (1_000, 200_000, 1_100_000));
}

#[test]
fn finance_delta_at_origin_vanishes() {
    let a = FinanceAttractor::default();
    assert_eq!(units_of(a.delta(v(0, 0, 0))), ORIGIN);
}

#[test]
fn finance_delta_at_ones() {
    // 1/p1 is exactly 5, so dx = (5 - 0.001) + 1 + 1 = 6.999
    let a = FinanceAttractor::default();
    assert_eq!(units_of(a.delta(v(ONE, ONE, ONE))), (6_999_000, -1_200_000, -2_100_000));
}

#[test]
fn newton_leipnik_default_coefficients() {
    let a = NewtonLeipnikAttractor::default();
    assert_eq!((a.p0.units, a.p1.units), (400_000, 175_000));
}

#[test]
fn newton_leipnik_delta_at_origin_vanishes() {
    let a = NewtonLeipnikAttractor::default();
    assert_eq!(units_of(a.delta(v(0, 0, 0))), ORIGIN);
}

#[test]
fn newton_leipnik_delta_at_ones() {
    let a = NewtonLeipnikAttractor::default();
    assert_eq!(units_of(a.delta(v(ONE, ONE, ONE))), (10_600_000, 3_600_000, -4_825_000));
}

#[test]
fn nose_hoover_default_coefficient() {
    assert_eq!(NoseHooverAttractor::default().p0.units, 1_500_000);
}

#[test]
fn nose_hoover_delta_at_origin_is_constant_term() {
    // only the constant p0 survives at the origin
    let a = NoseHooverAttractor::default();
    assert_eq!(units_of(a.delta(v(0, 0, 0))), (0, 0, 1_500_000));
}

#[test]
fn nose_hoover_delta_at_mixed_state() {
    let a = NoseHooverAttractor::default();
    assert_eq!(units_of(a.delta(v(ONE, 2 * ONE, 3 * ONE))), (2_000_000, 5_000_000, -2_500_000));
}

#[test]
fn thomas_default_coefficient() {
    assert_eq!(ThomasAttractor::default().p0.units, 200_000);
}

#[test]
fn thomas_delta_at_origin_vanishes() {
    // sin(0) = 0 in every term
    let a = ThomasAttractor::default();
    assert_eq!(units_of(a.delta(v(0, 0, 0))), ORIGIN);
}

#[test]
fn thomas_delta_at_right_angle() {
    // dx = sin(pi/2) = 1; dy = -0.2 * (pi/2); dz = sin(0) = 0
    let a = ThomasAttractor::default();
    assert_eq!(units_of(a.delta(v(0, 1_570_796, 0))), (1_000_000, -314_159, 0));
}

#[test]
fn constructors_keep_the_given_coefficients() {
    let a = LorenzAttractor::new(fx(10_000_000), fx(28_000_000), fx(2_666_666));
    assert_eq!((a.sigma.units, a.rho.units, a.beta.units), (10_000_000, 28_000_000, 2_666_666));
    let t = ThomasAttractor::new(fx(123));
    assert_eq!(t.p0.units, 123);
}
