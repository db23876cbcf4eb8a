pub mod error;
pub mod input;
pub mod level;
pub mod paths;
pub mod prover;
pub mod sim;
pub mod sim_transpiler;
pub mod vk;
