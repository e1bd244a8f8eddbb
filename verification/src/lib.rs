//! Rule-based formant speech synthesis: the deterministic part.
//!
//! Text becomes a sequence of phonetic symbols, a voice identifier is
//! resolved against a table of voices and turned into acoustic parameters,
//! and a timeline says, for every output sample, which symbol sounds and how
//! strongly the amplitude envelope lets it through. All quantities are exact
//! integers or ratios of integers; turning a frame into an oscillator value
//! is left to the caller.

pub mod engine;
pub mod phoneme;
pub mod render;
pub mod timeline;
pub mod voice;
