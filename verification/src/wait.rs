//! Frame duration.

use vstd::prelude::*;

use crate::numeric::{spec_parse_u32, parse_u32, IntParseError};

verus! {

/// How many time units a frame lasts. Always at least `1`: a source value
/// of `0` is read as the default `1`.
#[derive(Clone, Copy, Debug, PartialEq, Eq, Structural)]
pub struct Wait(pub u32);

impl Wait {
    /// Reads a duration from its source token. `0` becomes the default `1`.
    pub fn from_str(s: &str) -> (r: Result<Wait, IntParseError>)
        ensures
            match spec_parse_u32(s@) {
                Ok(v) => r == Ok::<Wait, IntParseError>(
                    Wait(
                        if v == 0 {
                            1u32
                        } else {
                            v
                        },
                    ),
                ),
                Err(e) => r == Err::<Wait, IntParseError>(e),
            },
            r matches Ok(w) ==> w.0 >= 1,
    {
        match parse_u32(s) {
            Ok(v) => if v == 0 {
                Ok(Wait(1))
            } else {
                Ok(Wait(v))
            },
            Err(e) => Err(e),
        }
    }
}

impl Default for Wait {
    /// The default duration, one time unit.
    fn default() -> (r: Wait)
        ensures
            r == (Wait(1u32)),
    {
        Wait(1)
    }
}

} // verus!
