//! Frame behaviour-mode codes.

use vstd::prelude::*;

use crate::numeric::{spec_parse_u32, parse_u32, IntParseError};

verus! {

/// Behaviour mode a frame selects. A pure data tag: the parser validates
/// the code and stores it, it does not interpret the behaviour.
///
/// The codes `8000..=8099` form a coded range: `8000 + n` means "transform
/// into the object with id `n`", kept here as [`State::TransformToObject`].
#[derive(Clone, Copy, Debug, PartialEq, Eq, Structural)]
pub enum State {
    /// No `state:` tag was present on the frame.
    Uninitialized,
    /// Character standing.
    Standing,
    /// Character walking.
    Walking,
    /// Character running.
    Running,
    /// Character attacking.
    Attacking,
    /// Character jumping.
    Jumping,
    /// Character dashing.
    Dashing,
    /// Character rowing.
    Rowing,
    /// Character defending.
    Defend,
    /// Character's defence was broken.
    BrokenDefence,
    /// Character catching another.
    Catching,
    /// Character caught by another.
    Caught,
    /// Character injured.
    Injured,
    /// Character falling.
    Falling,
    /// Character frozen in ice.
    Ice,
    /// Character lying on the ground.
    Lying,
    /// Character state with no special function.
    Other,
    /// Character stunned; may be grabbed.
    Stunned,
    /// Character drinking.
    Drinking,
    /// Character burning.
    Burning,
    /// Character running while on fire.
    FireRun,
    /// Object just hit the ground.
    HitGround,
    /// Object moving in the Z axis.
    ZMovement,
    /// Teleport to the nearest enemy.
    TeleportNearestEnemy,
    /// Teleport to the furthest ally.
    TeleportFurthestAlly,
    /// Checks whether a transformation may run.
    TransformCheck,
    /// Transformation back to the original object.
    Transform,
    /// Heals the object.
    Heal,
    /// Light weapon in the air.
    LightWeaponInSky,
    /// Light weapon in a character's hand.
    LightWeaponInHand,
    /// Light weapon being thrown.
    LightWeaponBeingThrown,
    /// Light weapon that just landed.
    LightWeaponJustOnGround,
    /// Light weapon resting on the ground.
    LightWeaponOnGround,
    /// Heavy weapon in the air.
    HeavyWeaponInSky,
    /// Heavy weapon in a character's hand.
    HeavyWeaponInHand,
    /// Heavy weapon resting on the ground.
    HeavyWeaponOnGround,
    /// Projectile flying.
    BallFlying,
    /// Projectile flying and hitting.
    BallFlyingHitting,
    /// Projectile that was hit.
    BallFlyingHit,
    /// Projectile rebounding.
    BallFlyingRebound,
    /// Projectile disappearing.
    BallFlyingDisappear,
    /// Projectile flying without a shadow.
    BallFlyingNoShadow,
    /// Projectile that pierces through what it hits.
    BallFlyingPiercing,
    /// Transform into the object with the carried id (codes `8000..=8099`).
    TransformToObject {
        /// Id of the object to transform into; at most `99`.
        object_id: u8,
    },
    /// Louis transforming into LouisEX.
    LouisTransform,
    /// Louis transforming, spawning his armour.
    LouisTransformSpawnArmour,
    /// On-screen message object.
    Message,
    /// Deletes the object.
    DeleteObject,
    /// Weapon fragments of a broken weapon.
    BrokenWeapon,
}

/// Why a `state:` value failed to parse.
#[derive(Clone, Copy, Debug, PartialEq, Eq, Structural)]
pub enum StateParseError {
    /// The token is not an integer.
    ParseIntError(IntParseError),
    /// The integer is not a valid state code.
    InvalidValue(u32),
}

impl State {
    /// Whether the value is one that parsing can produce: a transform
    /// target id is at most `99`.
    pub open spec fn wf(self) -> bool {
        match self {
            State::TransformToObject { object_id } => object_id <= 99,
            _ => true,
        }
    }

    /// The numeric code of this state; `-1` for the uninitialized marker,
    /// which no code denotes.
    pub open spec fn spec_code(self) -> int {
        match self {
            State::Uninitialized => -1,
            State::Standing => 0,
            State::Walking => 1,
            State::Running => 2,
            State::Attacking => 3,
            State::Jumping => 4,
            State::Dashing => 5,
            State::Rowing => 6,
            State::Defend => 7,
            State::BrokenDefence => 8,
            State::Catching => 9,
            State::Caught => 10,
            State::Injured => 11,
            State::Falling => 12,
            State::Ice => 13,
            State::Lying => 14,
            State::Other => 15,
            State::Stunned => 16,
            State::Drinking => 17,
            State::Burning => 18,
            State::FireRun => 19,
            State::HitGround => 100,
            State::ZMovement => 301,
            State::TeleportNearestEnemy => 400,
            State::TeleportFurthestAlly => 401,
            State::TransformCheck => 500,
            State::Transform => 501,
            State::Heal => 1700,
            State::LightWeaponInSky => 1000,
            State::LightWeaponInHand => 1001,
            State::LightWeaponBeingThrown => 1002,
            State::LightWeaponJustOnGround => 1003,
            State::LightWeaponOnGround => 1004,
            State::HeavyWeaponInSky => 2000,
            State::HeavyWeaponInHand => 2001,
            State::HeavyWeaponOnGround => 2004,
            State::BallFlying => 3000,
            State::BallFlyingHitting => 3001,
            State::BallFlyingHit => 3002,
            State::BallFlyingRebound => 3003,
            State::BallFlyingDisappear => 3004,
            State::BallFlyingNoShadow => 3005,
            State::BallFlyingPiercing => 3006,
            State::TransformToObject { object_id } => 8000 + object_id as int,
            State::LouisTransform => 9995,
            State::LouisTransformSpawnArmour => 9996,
            State::Message => 9997,
            State::DeleteObject => 9998,
            State::BrokenWeapon => 9999,
        }
    }

    /// Returns this state's numeric code.
    pub fn code(self) -> (r: u32)
        requires
            self != State::Uninitialized,
        ensures
            r as int == self.spec_code(),
    {
        match self {
            State::Uninitialized => 0,
            State::Standing => 0,
            State::Walking => 1,
            State::Running => 2,
            State::Attacking => 3,
            State::Jumping => 4,
            State::Dashing => 5,
            State::Rowing => 6,
            State::Defend => 7,
            State::BrokenDefence => 8,
            State::Catching => 9,
            State::Caught => 10,
            State::Injured => 11,
            State::Falling => 12,
            State::Ice => 13,
            State::Lying => 14,
            State::Other => 15,
            State::Stunned => 16,
            State::Drinking => 17,
            State::Burning => 18,
            State::FireRun => 19,
            State::HitGround => 100,
            State::ZMovement => 301,
            State::TeleportNearestEnemy => 400,
            State::TeleportFurthestAlly => 401,
            State::TransformCheck => 500,
            State::Transform => 501,
            State::Heal => 1700,
            State::LightWeaponInSky => 1000,
            State::LightWeaponInHand => 1001,
            State::LightWeaponBeingThrown => 1002,
            State::LightWeaponJustOnGround => 1003,
            State::LightWeaponOnGround => 1004,
            State::HeavyWeaponInSky => 2000,
            State::HeavyWeaponInHand => 2001,
            State::HeavyWeaponOnGround => 2004,
            State::BallFlying => 3000,
            State::BallFlyingHitting => 3001,
            State::BallFlyingHit => 3002,
            State::BallFlyingRebound => 3003,
            State::BallFlyingDisappear => 3004,
            State::BallFlyingNoShadow => 3005,
            State::BallFlyingPiercing => 3006,
            State::TransformToObject { object_id } => 8000 + object_id as u32,
            State::LouisTransform => 9995,
            State::LouisTransformSpawnArmour => 9996,
            State::Message => 9997,
            State::DeleteObject => 9998,
            State::BrokenWeapon => 9999,
        }
    }

    /// Meaning of an integer code as a state.
    pub open spec fn spec_from_code(v: u32) -> Result<State, StateParseError> {
        if v == 0 {
            Ok(State::Standing)
        } else if v == 1 {
            Ok(State::Walking)
        } else if v == 2 {
            Ok(State::Running)
        } else if v == 3 {
            Ok(State::Attacking)
        } else if v == 4 {
            Ok(State::Jumping)
        } else if v == 5 {
            Ok(State::Dashing)
        } else if v == 6 {
            Ok(State::Rowing)
        } else if v == 7 {
            Ok(State::Defend)
        } else if v == 8 {
            Ok(State::BrokenDefence)
        } else if v == 9 {
            Ok(State::Catching)
        } else if v == 10 {
            Ok(State::Caught)
        } else if v == 11 {
            Ok(State::Injured)
        } else if v == 12 {
            Ok(State::Falling)
        } else if v == 13 {
            Ok(State::Ice)
        } else if v == 14 {
            Ok(State::Lying)
        } else if v == 15 {
            Ok(State::Other)
        } else if v == 16 {
            Ok(State::Stunned)
        } else if v == 17 {
            Ok(State::Drinking)
        } else if v == 18 {
            Ok(State::Burning)
        } else if v == 19 {
            Ok(State::FireRun)
        } else if v == 100 {
            Ok(State::HitGround)
        } else if v == 301 {
            Ok(State::ZMovement)
        } else if v == 400 {
            Ok(State::TeleportNearestEnemy)
        } else if v == 401 {
            Ok(State::TeleportFurthestAlly)
        } else if v == 500 {
            Ok(State::TransformCheck)
        } else if v == 501 {
            Ok(State::Transform)
        } else if v == 1700 {
            Ok(State::Heal)
        } else if v == 1000 {
            Ok(State::LightWeaponInSky)
        } else if v == 1001 {
            Ok(State::LightWeaponInHand)
        } else if v == 1002 {
            Ok(State::LightWeaponBeingThrown)
        } else if v == 1003 {
            Ok(State::LightWeaponJustOnGround)
        } else if v == 1004 {
            Ok(State::LightWeaponOnGround)
        } else if v == 2000 {
            Ok(State::HeavyWeaponInSky)
        } else if v == 2001 {
            Ok(State::HeavyWeaponInHand)
        } else if v == 2004 {
            Ok(State::HeavyWeaponOnGround)
        } else if v == 3000 {
            Ok(State::BallFlying)
        } else if v == 3001 {
            Ok(State::BallFlyingHitting)
        } else if v == 3002 {
            Ok(State::BallFlyingHit)
        } else if v == 3003 {
            Ok(State::BallFlyingRebound)
        } else if v == 3004 {
            Ok(State::BallFlyingDisappear)
        } else if v == 3005 {
            Ok(State::BallFlyingNoShadow)
        } else if v == 3006 {
            Ok(State::BallFlyingPiercing)
        } else if 8000 <= v && v <= 8099 {
            Ok(State::TransformToObject { object_id: (v - 8000) as u8 })
        } else if v == 9995 {
            Ok(State::LouisTransform)
        } else if v == 9996 {
            Ok(State::LouisTransformSpawnArmour)
        } else if v == 9997 {
            Ok(State::Message)
        } else if v == 9998 {
            Ok(State::DeleteObject)
        } else if v == 9999 {
            Ok(State::BrokenWeapon)
        } else {
            Err(StateParseError::InvalidValue(v))
        }
    }

    /// Meaning of a source token as a state.
    pub open spec fn spec_from_str(s: Seq<char>) -> Result<State, StateParseError> {
        match spec_parse_u32(s) {
            Ok(v) => Self::spec_from_code(v),
            Err(e) => Err(StateParseError::ParseIntError(e)),
        }
    }

    /// Reads a state from its source token.
    pub fn from_str(s: &str) -> (r: Result<State, StateParseError>)
        ensures
            r == Self::spec_from_str(s@),
            r matches Ok(st) ==> st.wf() && st != State::Uninitialized,
    {
        let v = match parse_u32(s) {
            Ok(v) => v,
            Err(e) => {
                return Err(StateParseError::ParseIntError(e));
            },
        };
        match v {
            0 => Ok(State::Standing),
            1 => Ok(State::Walking),
            2 => Ok(State::Running),
            3 => Ok(State::Attacking),
            4 => Ok(State::Jumping),
            5 => Ok(State::Dashing),
            6 => Ok(State::Rowing),
            7 => Ok(State::Defend),
            8 => Ok(State::BrokenDefence),
            9 => Ok(State::Catching),
            10 => Ok(State::Caught),
            11 => Ok(State::Injured),
            12 => Ok(State::Falling),
            13 => Ok(State::Ice),
            14 => Ok(State::Lying),
            15 => Ok(State::Other),
            16 => Ok(State::Stunned),
            17 => Ok(State::Drinking),
            18 => Ok(State::Burning),
            19 => Ok(State::FireRun),
            100 => Ok(State::HitGround),
            301 => Ok(State::ZMovement),
            400 => Ok(State::TeleportNearestEnemy),
            401 => Ok(State::TeleportFurthestAlly),
            500 => Ok(State::TransformCheck),
            501 => Ok(State::Transform),
            1700 => Ok(State::Heal),
            1000 => Ok(State::LightWeaponInSky),
            1001 => Ok(State::LightWeaponInHand),
            1002 => Ok(State::LightWeaponBeingThrown),
            1003 => Ok(State::LightWeaponJustOnGround),
            1004 => Ok(State::LightWeaponOnGround),
            2000 => Ok(State::HeavyWeaponInSky),
            2001 => Ok(State::HeavyWeaponInHand),
            2004 => Ok(State::HeavyWeaponOnGround),
            3000 => Ok(State::BallFlying),
            3001 => Ok(State::BallFlyingHitting),
            3002 => Ok(State::BallFlyingHit),
            3003 => Ok(State::BallFlyingRebound),
            3004 => Ok(State::BallFlyingDisappear),
            3005 => Ok(State::BallFlyingNoShadow),
            3006 => Ok(State::BallFlyingPiercing),
            9995 => Ok(State::LouisTransform),
            9996 => Ok(State::LouisTransformSpawnArmour),
            9997 => Ok(State::Message),
            9998 => Ok(State::DeleteObject),
            9999 => Ok(State::BrokenWeapon),
            _ => {
                if 8000 <= v && v <= 8099 {
                    Ok(State::TransformToObject { object_id: (v - 8000) as u8 })
                } else {
                    Err(StateParseError::InvalidValue(v))
                }
            },
        }
    }
}

/// Law: every valid state code round-trips, and no two states share a
/// code. The uninitialized marker has no code and no code produces it.
pub proof fn lemma_state_round_trip(v: u32, s: State)
    ensures
        State::spec_from_code(v) matches Ok(s2) ==> s2.spec_code() == v && s2.wf() && s2
            != State::Uninitialized,
        s.wf() && s != State::Uninitialized ==> State::spec_from_code(s.spec_code() as u32)
            == Ok::<State, StateParseError>(s),
{
}

} // verus!

verus! {

impl StateParseError {
    /// A human-readable description of the failure. On an invalid value it
    /// quotes the value and enumerates the valid codes.
    pub fn message(&self) -> (r: String)
        ensures
            self matches StateParseError::ParseIntError(e) ==> r@ == e.spec_message(),
            self matches StateParseError::InvalidValue(v) ==> crate::text::contains_seq(
                r@,
                crate::text::spec_u64_string(v as u64),
            ) && crate::text::contains_seq(
                r@,
                "` is not recognized as a valid `State` value."@,
            ),
    {
        match self {
            StateParseError::ParseIntError(e) => e.message(),
            StateParseError::InvalidValue(v) => {
                let mut s = String::new();
                crate::text::push_str(&mut s, "`");
                let ghost a = s@;
                let digits = crate::text::u64_to_string(*v as u64);
                crate::text::push_str(&mut s, digits.as_str());
                proof {
                    crate::text::lemma_contains_suffix(a, digits@);
                }
                let ghost b = s@;
                crate::text::push_str(
                    &mut s,
                    "` is not recognized as a valid `State` value.",
                );
                proof {
                    crate::text::lemma_contains_extend(b, "` is not recognized as a valid `State` value."@, digits@);
                    crate::text::lemma_contains_suffix(b, "` is not recognized as a valid `State` value."@);
                }
                s
            },
        }
    }
}

} // verus!
