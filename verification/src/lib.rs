//! Verified decision logic of a simulation that draws truncated samples from
//! power-law distributions and scores them.

pub mod config;
pub mod sample;

pub use config::ScoreMethod;
pub use sample::SampleState;
