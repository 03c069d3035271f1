//! A verified Morse-code signalling core: a character-to-pulse encoding
//! table, a pulse-to-timed-step executor, and a playback sequencer that
//! turns a fixed message into an endless stream of timed on/off steps.
//!
//! The library is pure: it computes the exact sequence of output-level
//! changes and delays that a blinking signal must perform. Driving a real
//! output (an LED, a terminal) from those steps is left to the caller.

pub mod encoder;
pub mod executor;
pub mod player;
pub mod pulse;
