//! Frame identifier.

use vstd::prelude::*;

use crate::numeric::{spec_parse_usize, parse_usize, IntParseError};

verus! {

/// Identifies a frame; unique within one `Frames` collection.
#[derive(Clone, Copy, Debug, PartialEq, Eq, Structural)]
pub struct FrameNumber(pub usize);

impl FrameNumber {
    /// Reads a frame number from its source token.
    pub fn from_str(s: &str) -> (r: Result<FrameNumber, IntParseError>)
        ensures
            match spec_parse_usize(s@) {
                Ok(v) => r == Ok::<FrameNumber, IntParseError>(FrameNumber(v)),
                Err(e) => r == Err::<FrameNumber, IntParseError>(e),
            },
    {
        match parse_usize(s) {
            Ok(v) => Ok(FrameNumber(v)),
            Err(e) => Err(e),
        }
    }
}

impl Default for FrameNumber {
    /// Frame number `0`.
    fn default() -> (r: FrameNumber)
        ensures
            r == (FrameNumber(0usize)),
    {
        FrameNumber(0)
    }
}

} // verus!
