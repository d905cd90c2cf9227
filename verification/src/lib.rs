pub mod scalar;
pub mod rng;
pub mod state;
pub mod nuts;
pub mod sampler;
