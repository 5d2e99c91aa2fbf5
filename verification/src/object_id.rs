//! Object identifier.

use vstd::prelude::*;

use crate::numeric::{spec_parse_usize, parse_usize, IntParseError};

verus! {

/// Identifies a game object, as listed in the game's object table.
#[derive(Clone, Copy, Debug, PartialEq, Eq, Structural)]
pub struct ObjectId(pub usize);

impl ObjectId {
    /// Reads an object identifier from its source token.
    pub fn from_str(s: &str) -> (r: Result<ObjectId, IntParseError>)
        ensures
            match spec_parse_usize(s@) {
                Ok(v) => r == Ok::<ObjectId, IntParseError>(ObjectId(v)),
                Err(e) => r == Err::<ObjectId, IntParseError>(e),
            },
    {
        match parse_usize(s) {
            Ok(v) => Ok(ObjectId(v)),
            Err(e) => Err(e),
        }
    }
}

impl Default for ObjectId {
    /// Object `0`.
    fn default() -> (r: ObjectId)
        ensures
            r == (ObjectId(0usize)),
    {
        ObjectId(0)
    }
}

} // verus!
