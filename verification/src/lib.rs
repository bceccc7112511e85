//! A mode-driven indicator-light sequencer.
//!
//! The library holds the verified core of a small device controller: a
//! catalog of named color sequences, a translator that turns incoming
//! text commands into modes, and a tick-based scheduler that replays the
//! selected sequence and switches to a newly commanded one without
//! missing or doubling an output. The hardware and transport glue around
//! it stays outside the library.

pub mod config;
pub mod laws;
pub mod mode;
pub mod sequencer;
pub mod sequences;
