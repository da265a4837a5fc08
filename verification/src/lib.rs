//! The engine behind a view of the solar system: where its bodies are and
//! which paths they follow.
//!
//! The crate keeps a registry of celestial bodies arranged in a parent/child
//! hierarchy, decides which bodies are shown together, plans the questions
//! that are put to a planetary ephemeris, and turns the answers into positions
//! and trajectories in the frame of the display. The ephemeris itself stays
//! outside: the caller asks it what the crate has planned and hands the
//! answers back.
//!
//! Time, lengths and angles are whole numbers throughout: nanoseconds, metres
//! and millionths of a display unit, cosines and sines in billionths. Every
//! function is verified against the contract written above its body, but for
//! the one in [`ephemeris`] that calls the ephemeris crate for a lookup key.

pub mod celestial_body;
pub mod celestial_data;
pub mod ephemeris;
pub mod epoch;
pub mod error;
pub mod frame_transform;
pub mod hierarchy;
pub mod orbit_renderer;
pub mod position;
pub mod trajectory;
