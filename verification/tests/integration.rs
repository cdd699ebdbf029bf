//! The scheduler: zero-delta identity, one exact Euler step, fixed points,
//! per-particle independence, and first-order convergence.

use attractors::{
    update_node_positions, AizawaAttractor, ChenLeeAttractor, Fx, LorenzAttractor, Particle,
    ThomasAttractor, Vec3,
};

fn fx(units: i64) -> Fx {
    Fx { units }
}

fn v(x: i64, y: i64, z: i64) -> Vec3 {
    Vec3 { x: fx(x), y: fx(y), z: fx(z) }
}

#[test]
fn zero_delta_changes_nothing() {
    let mut particles = vec![
        Particle { state: v(1_234_567, -7_654_321, 42), field: AizawaAttractor::default() },
        Particle { state: v(0, 0, 0), field: AizawaAttractor::default() },
        Particle { state: v(i64::MAX, i64::MIN, 1), field: AizawaAttractor::default() },
    ];
    let before = particles.clone();
    update_node_positions(&mut particles, fx(0));
    assert_eq!(particles, before);
}

#[test]
fn lorenz_single_step_is_exact() {
    // sigma = 10, rho = 28, beta = 8/3, state (1, 1, 1), dt = 0.01:
    // x stays 1, y becomes 1.26, z becomes 1 - 0.016666
    let beta = fx(8_000_000).div(fx(3_000_000));
    let field = LorenzAttractor::new(fx(10_000_000), fx(28_000_000), beta);
    let mut particles = vec![Particle { state: v(1_000_000, 1_000_000, 1_000_000), field }];
    update_node_positions(&mut particles, fx(10_000));
    let s = particles[0].state;
    assert_eq!((s.x.units, s.y.units, s.z.units), (1_000_000, 1_260_000, 983_334));
}

#[test]
fn thomas_particle_at_origin_never_moves() {
    let mut particles =
        vec![Particle { state: v(0, 0, 0), field: ThomasAttractor::default() }];
    for _ in 0..100 {
        update_node_positions(&mut particles, fx(16_666));
    }
    let s = particles[0].state;
    assert_eq!((s.x.units, s.y.units, s.z.units), (0, 0, 0));
}

#[test]
fn updates_are_independent_of_neighbours() {
    let shared = Particle { state: v(3_000_000, -2_000_000, 500_000), field: ChenLeeAttractor::default() };
    let mut with_first = vec![
        Particle { state: v(9_000_000, 8_000_000, 7_000_000), field: ChenLeeAttractor::default() },
        shared,
    ];
    let mut with_other = vec![
        Particle { state: v(-1_000_000, -2, 3), field: ChenLeeAttractor::default() },
        shared,
    ];
    let mut alone = vec![shared];
    let dt = fx(16_666);
    update_node_positions(&mut with_first, dt);
    update_node_positions(&mut with_other, dt);
    update_node_positions(&mut alone, dt);
    assert_eq!(with_first[1], with_other[1]);
    assert_eq!(with_first[1], alone[0]);
}

fn run_lorenz(mut particles: Vec<Particle<LorenzAttractor>>, dt: Fx, steps: u32) -> Vec3 {
    for _ in 0..steps {
        update_node_positions(&mut particles, dt);
    }
    particles[0].state
}

fn distance(a: Vec3, b: Vec3) -> f64 {
    let dx = (a.x.units - b.x.units) as f64 / 1e6;
    let dy = (a.y.units - b.y.units) as f64 / 1e6;
    let dz = (a.z.units - b.z.units) as f64 / 1e6;
    (dx * dx + dy * dy + dz * dz).sqrt()
}

#[test]
fn halving_the_step_roughly_halves_the_error() {
    // integrate a Lorenz trajectory to t = 0.16 with three step sizes; the
    // error against the finest run shrinks about linearly in the step,
    // first-order Euler behaviour
    let beta = fx(8_000_000).div(fx(3_000_000));
    let field = LorenzAttractor::new(fx(10_000_000), fx(28_000_000), beta);
    let start = Particle { state: v(1_000_000, 1_000_000, 1_000_000), field };
    let reference = run_lorenz(vec![start], fx(1_000), 160);
    let coarse = run_lorenz(vec![start], fx(20_000), 8);
    let fine = run_lorenz(vec![start], fx(10_000), 16);
    let err_coarse = distance(coarse, reference);
    let err_fine = distance(fine, reference);
    assert!(err_coarse > 0.0);
    assert!(err_fine < 0.8 * err_coarse);
    assert!(err_fine > 0.2 * err_coarse);
}
