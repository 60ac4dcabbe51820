use vstd::prelude::*;

pub mod audio;
pub mod config;
pub mod multinet;
pub mod report;
pub mod session;
pub mod text;

pub use session::debug;

verus! {

/// Sample rate of the microphone and speaker streams, in hertz.
pub const SAMPLE_RATE: u32 = 16000;

} // verus!
