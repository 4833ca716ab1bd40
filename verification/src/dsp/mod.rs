//! Signal sources of the synthesis graph.

pub mod env;
pub mod modulation;
pub mod oscillators;
