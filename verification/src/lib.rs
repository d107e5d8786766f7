pub mod engine;
pub mod lattice;
pub mod probs;
pub mod rng;
