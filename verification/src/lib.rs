//! Voice management and envelope logic of a polyphonic unison supersaw
//! synthesizer with a one-shot attack / multiply / decay envelope.
pub mod envelope;
pub mod unison;
pub mod voices;
