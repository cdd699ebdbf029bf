//! Chaotic divergence: a large cloud of Chen-Lee particles started at
//! distinct random positions ends at pairwise distinct states after many
//! steps — nearby trajectories separate instead of merging.

use attractors::{update_node_positions, ChenLeeAttractor, Fx, Particle, Vec3};
use rand::Rng;

#[test]
fn chen_lee_trajectories_stay_distinct() {
    let mut rng = rand::thread_rng();
    let mut particles: Vec<Particle<ChenLeeAttractor>> = Vec::with_capacity(1000);
    for _ in 0..1000 {
        let state = Vec3 {
            x: Fx { units: rng.gen_range(-20_000_000..20_000_000) },
            y: Fx { units: rng.gen_range(-20_000_000..20_000_000) },
            z: Fx { units: rng.gen_range(-20_000_000..20_000_000) },
        };
        particles.push(Particle { state, field: ChenLeeAttractor::default() });
    }

    let mut initial: Vec<(i64, i64, i64)> = particles
        .iter()
        .map(|p| (p.state.x.units, p.state.y.units, p.state.z.units))
        .collect();
    initial.sort();
    initial.dedup();
    assert_eq!(initial.len(), 1000, "random starting points collided");

    let dt = Fx { units: 16_666 }; // one tick at 60 frames per second
    for _ in 0..10_000 {
        update_node_positions(&mut particles, dt);
    }

    let mut finals: Vec<(i64, i64, i64)> = particles
        .iter()
        .map(|p| (p.state.x.units, p.state.y.units, p.state.z.units))
        .collect();
    finals.sort();
    finals.dedup();
    assert_eq!(finals.len(), 1000, "two distinct trajectories merged");
}
