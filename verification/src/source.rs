//! Sources of raw frames.
use crate::error::AdsbError;
use crate::frame::{parses_frame, RawFrame};
use vstd::prelude::*;

verus! {

/// The error of an I/O operation, carried inside [`SourceError::IO`].
#[verifier::external_type_specification]
#[verifier::external_body]
pub struct ExIoError(std::io::Error);

/// A source of raw frames, such as a file of frames in hexadecimal, one per
/// line.
pub trait FrameSource {
    /// The error that reading the source can give.
    type Error;

    /// The next frame of the source, or `None` once it is exhausted.
    fn next_frame(&mut self) -> Result<Option<RawFrame>, Self::Error>;
}

/// The errors of a source that reads frames as text.
#[derive(Debug)]
pub enum SourceError {
    /// Reading the source failed.
    IO(std::io::Error),
    /// A line of the source is not a valid ADS-B frame.
    Adsb(AdsbError),
}

impl SourceError {
    /// What reading one line of frame text gives: `None` when the read found
    /// the end of the source (`bytes_read` is 0), else the frame that the
    /// line holds, or the error of parsing it.
    pub fn parse_line(line: &str, bytes_read: usize) -> (r: Result<Option<RawFrame>, SourceError>)
        ensures
            bytes_read == 0 ==> r matches Ok(None),
            bytes_read != 0 ==> match r {
                Ok(Some(frame)) => parses_frame(line@, Ok(frame)),
                Err(SourceError::Adsb(e)) => parses_frame(line@, Err(e)),
                _ => false,
            },
    {
        if bytes_read == 0 {
            return Ok(None);
        }
        match RawFrame::from_hex(line) {
            Ok(frame) => Ok(Some(frame)),
            Err(e) => Err(SourceError::Adsb(e)),
        }
    }
}

impl From<std::io::Error> for SourceError {
    /// A failed read of the source.
    fn from(e: std::io::Error) -> (r: Self) {
        SourceError::IO(e)
    }
}

impl vstd::std_specs::convert::FromSpecImpl<std::io::Error> for SourceError {
    open spec fn obeys_from_spec() -> bool {
        true
    }

    open spec fn from_spec(v: std::io::Error) -> Self {
        SourceError::IO(v)
    }
}

impl From<AdsbError> for SourceError {
    /// A line that is not a valid frame.
    fn from(e: AdsbError) -> (r: Self) {
        SourceError::Adsb(e)
    }
}

impl vstd::std_specs::convert::FromSpecImpl<AdsbError> for SourceError {
    open spec fn obeys_from_spec() -> bool {
        true
    }

    open spec fn from_spec(v: AdsbError) -> Self {
        SourceError::Adsb(v)
    }
}

} // verus!
