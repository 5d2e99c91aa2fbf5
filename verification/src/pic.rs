//! Sprite index.

use vstd::prelude::*;

use crate::numeric::{spec_parse_isize, parse_isize, IntParseError};

verus! {

/// The sprite number a frame displays.
///
/// A negative value means the sprite is its absolute value, drawn mirrored.
#[derive(Clone, Copy, Debug, PartialEq, Eq, Structural)]
pub struct Pic(pub isize);

impl Pic {
    /// The sprite number, ignoring the mirror flag.
    pub fn abs(self) -> (r: usize)
        requires
            self.0 != isize::MIN,
        ensures
            r as int == if self.0 < 0 {
                -(self.0 as int)
            } else {
                self.0 as int
            },
    {
        if self.0 < 0 {
            (-self.0) as usize
        } else {
            self.0 as usize
        }
    }

    /// Whether the object's facing direction flips.
    pub fn facing_switch(self) -> (r: bool)
        ensures
            r == (self.0 < 0),
    {
        self.0 < 0
    }

    /// Reads a sprite index from its source token.
    pub fn from_str(s: &str) -> (r: Result<Pic, IntParseError>)
        ensures
            match spec_parse_isize(s@) {
                Ok(v) => r == Ok::<Pic, IntParseError>(Pic(v)),
                Err(e) => r == Err::<Pic, IntParseError>(e),
            },
    {
        match parse_isize(s) {
            Ok(v) => Ok(Pic(v)),
            Err(e) => Err(e),
        }
    }
}

impl Default for Pic {
    /// Sprite `0`, not mirrored.
    fn default() -> (r: Pic)
        ensures
            r == (Pic(0isize)),
    {
        Pic(0)
    }
}

} // verus!
