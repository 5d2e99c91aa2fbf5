//! Signed frame-number target.

use vstd::prelude::*;

use crate::frame_number::FrameNumber;
use crate::numeric::{spec_parse_isize, parse_isize, IntParseError};

verus! {

/// The next frame number to go to.
///
/// A negative value means the target frame is its absolute value and the
/// object's facing direction is flipped on arrival.
#[derive(Clone, Copy, Debug, PartialEq, Eq, Structural)]
pub struct FrameNumberNext(pub isize);

impl FrameNumberNext {
    /// The target frame number, ignoring the facing flip.
    pub fn abs(self) -> (r: FrameNumber)
        requires
            self.0 != isize::MIN,
        ensures
            r.0 as int == if self.0 < 0 {
                -(self.0 as int)
            } else {
                self.0 as int
            },
    {
        if self.0 < 0 {
            FrameNumber((-self.0) as usize)
        } else {
            FrameNumber(self.0 as usize)
        }
    }

    /// Whether the object's facing direction flips.
    pub fn facing_switch(self) -> (r: bool)
        ensures
            r == (self.0 < 0),
    {
        self.0 < 0
    }

    /// Reads a signed frame-number target from its source token.
    pub fn from_str(s: &str) -> (r: Result<FrameNumberNext, IntParseError>)
        ensures
            match spec_parse_isize(s@) {
                Ok(v) => r == Ok::<FrameNumberNext, IntParseError>(FrameNumberNext(v)),
                Err(e) => r == Err::<FrameNumberNext, IntParseError>(e),
            },
    {
        match parse_isize(s) {
            Ok(v) => Ok(FrameNumberNext(v)),
            Err(e) => Err(e),
        }
    }
}

impl Default for FrameNumberNext {
    /// Target frame `0`, no facing flip.
    fn default() -> (r: FrameNumberNext)
        ensures
            r == (FrameNumberNext(0isize)),
    {
        FrameNumberNext(0)
    }
}

} // verus!
