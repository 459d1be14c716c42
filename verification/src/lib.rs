pub mod decimal;
pub mod output;
pub mod rng;
