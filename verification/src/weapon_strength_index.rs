//! Index into a weapon strength table.

use vstd::prelude::*;

use crate::numeric::{spec_parse_usize, parse_usize, IntParseError};

verus! {

/// Which entry of the weapon strength table a weapon point uses when
/// attacking.
#[derive(Clone, Copy, Debug, PartialEq, Eq, Structural)]
pub struct WeaponStrengthIndex(pub usize);

impl WeaponStrengthIndex {
    /// Reads a weapon strength index from its source token.
    pub fn from_str(s: &str) -> (r: Result<WeaponStrengthIndex, IntParseError>)
        ensures
            match spec_parse_usize(s@) {
                Ok(v) => r == Ok::<WeaponStrengthIndex, IntParseError>(WeaponStrengthIndex(v)),
                Err(e) => r == Err::<WeaponStrengthIndex, IntParseError>(e),
            },
    {
        match parse_usize(s) {
            Ok(v) => Ok(WeaponStrengthIndex(v)),
            Err(e) => Err(e),
        }
    }
}

impl Default for WeaponStrengthIndex {
    /// Entry `0`: no strength entry selected.
    fn default() -> (r: WeaponStrengthIndex)
        ensures
            r == (WeaponStrengthIndex(0usize)),
    {
        WeaponStrengthIndex(0)
    }
}

} // verus!
