//! Attack strength entry of a light weapon.

use vstd::prelude::*;

verus! {

/// Attack strength of a light weapon, used when the `attacking` tag on a
/// holding weapon point is non-zero.
#[derive(Clone, Copy, Debug, PartialEq, Eq, Structural)]
pub struct WeaponStrength {
    /// Acceleration to place on the hit object in the X axis.
    pub d_vx: i64,
    /// Acceleration to place on the hit object in the Y axis.
    pub d_vy: i64,
    /// Delay before another hit may happen; restricts the hit to one object.
    pub arest: u32,
    /// Delay before another hit may happen; allows multiple objects.
    pub vrest: u32,
    /// How much a hit character is put off balance.
    pub fall: i32,
    /// Broken-defence points placed on the hit character.
    pub b_defend: i32,
    /// Damage inflicted on the hit object.
    pub injury: i32,
}

impl Default for WeaponStrength {
    /// All-zero strength entry.
    fn default() -> (r: WeaponStrength)
        ensures
            r == (WeaponStrength {
                d_vx: 0i64,
                d_vy: 0i64,
                arest: 0u32,
                vrest: 0u32,
                fall: 0i32,
                b_defend: 0i32,
                injury: 0i32,
            }),
    {
        WeaponStrength { d_vx: 0, d_vy: 0, arest: 0, vrest: 0, fall: 0, b_defend: 0, injury: 0 }
    }
}

} // verus!
