//! Decoding of ADS-B (Mode S extended squitter) frames: frame parsing, the
//! message types, and the tracking of aircraft from their messages.
pub mod clock;
pub mod error;
pub mod frame;
pub mod text;
pub mod message;
pub mod tracker;
pub mod source;
