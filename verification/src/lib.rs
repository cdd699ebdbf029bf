//! Strange-attractor particle dynamics.
//!
//! A small library that animates point particles by integrating a
//! continuous-time vector field (a "strange attractor") with fixed-step
//! explicit Euler. All arithmetic is saturating fixed-point (millionths of a
//! unit on an `i64`), so every update step has an exact, machine-checked
//! meaning: each public operation carries a contract that pins down the
//! integer it computes.

pub mod attractor;
pub mod fields;
pub mod fixed;
pub mod vec3;

pub use attractor::{update_node_positions, Attractor, Particle};
pub use fields::{
    AizawaAttractor, BoualiAttractor, ChenLeeAttractor, FinanceAttractor, HalvorsenAttractor,
    LorenzAttractor, NewtonLeipnikAttractor, NoseHooverAttractor, ThomasAttractor,
    ThreeCellCnnAttractor,
};
pub use fixed::{Fx, SCALE};
pub use vec3::Vec3;
