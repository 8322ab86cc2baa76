//! The listening half of a bass guitar play-along: from captured samples to
//! a score.
//!
//! * [`framing`] cuts the stream of samples into analysis windows, on top of
//!   the ring buffer in [`ring`].
//! * [`config`] holds the settings of the pitch analysis and [`estimate`]
//!   the fixed-point form of what the analysis finds.
//! * [`channel`] hands each finding from the capture thread to the game
//!   thread; a finding that was not read in time gives way to the next.
//! * [`table`] and [`classifier`] decide whether the pitch that was heard is
//!   the note that was asked for.
//! * [`score`] keeps the running score.
//! * [`capture`] holds the decisions in the life of an audio capture.
//!
//! The pitch estimator itself works in floating point and stays with the
//! caller, as does the audio device.

pub mod capture;
pub mod channel;
pub mod classifier;
pub mod config;
pub mod estimate;
pub mod framing;
pub mod ring;
pub mod score;
pub mod table;
