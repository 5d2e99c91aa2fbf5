//! Interaction area: a volume through which this object acts on others.

use vstd::prelude::*;

use crate::error::{spec_grammar_single, Error, ErrorV, SourceRef};
use crate::object_data_parser::{spec_child_expect, spec_tag_value, ObjectDataParser};
use crate::syntax::{lemma_node_seq_view, Node, NodeKind, NodeV};
use crate::frame_number_next::FrameNumberNext;
use crate::numeric::{parse_i32, parse_i64, parse_isize, parse_u32, spec_parse_i32, spec_parse_i64, spec_parse_isize, spec_parse_u32, IntParseError};

verus! {

/// Interaction variants.
#[derive(Clone, Copy, Debug, PartialEq, Eq, Structural)]
pub enum ItrKind {
    /// Hits another object's body.
    Normal,
    /// Catches a character that is stunned.
    CatchStunned,
    /// Picks up a light or heavy weapon.
    WeaponPick,
    /// Catches a character unconditionally.
    CatchForce,
    /// Hits a falling character only if it was thrown.
    Falling,
    /// Weapon interaction whose damage comes from the weapon strength table.
    WeaponStrength,
    /// Lets characters land a super punch.
    SuperPunch,
    /// Picks up a light weapon without switching frame.
    RollWeaponPick,
    /// Heals a character, bounded by dark-red health.
    HealBall,
    /// Reflects projectiles; hitting a character drains the attacker.
    ReflectiveShield,
    /// Lifts characters and weapons into the air.
    SonataOfDeath,
    /// Lifts characters and weapons into the air (variant).
    SonataOfDeath2,
    /// A solid volume that other objects cannot pass through.
    Wall,
    /// Sucks objects in like a vacuum.
    WhirlwindWind,
    /// Freezes characters and lifts weapons.
    WhirlwindIce,
}

/// Why an `itr: kind:` value failed to parse.
#[derive(Clone, Copy, Debug, PartialEq, Eq, Structural)]
pub enum ItrKindParseError {
    /// The token is not an integer.
    ParseIntError(IntParseError),
    /// The integer is not a valid interaction kind code.
    InvalidValue(u32),
}

impl ItrKind {
    /// The numeric code of this kind.
    pub open spec fn spec_code(self) -> u32 {
        match self {
            ItrKind::Normal => 0,
            ItrKind::CatchStunned => 1,
            ItrKind::WeaponPick => 2,
            ItrKind::CatchForce => 3,
            ItrKind::Falling => 4,
            ItrKind::WeaponStrength => 5,
            ItrKind::SuperPunch => 6,
            ItrKind::RollWeaponPick => 7,
            ItrKind::HealBall => 8,
            ItrKind::ReflectiveShield => 9,
            ItrKind::SonataOfDeath => 10,
            ItrKind::SonataOfDeath2 => 11,
            ItrKind::Wall => 14,
            ItrKind::WhirlwindWind => 15,
            ItrKind::WhirlwindIce => 16,
        }
    }

    /// Returns this kind's numeric code.
    pub fn code(self) -> (r: u32)
        ensures
            r == self.spec_code(),
    {
        match self {
            ItrKind::Normal => 0,
            ItrKind::CatchStunned => 1,
            ItrKind::WeaponPick => 2,
            ItrKind::CatchForce => 3,
            ItrKind::Falling => 4,
            ItrKind::WeaponStrength => 5,
            ItrKind::SuperPunch => 6,
            ItrKind::RollWeaponPick => 7,
            ItrKind::HealBall => 8,
            ItrKind::ReflectiveShield => 9,
            ItrKind::SonataOfDeath => 10,
            ItrKind::SonataOfDeath2 => 11,
            ItrKind::Wall => 14,
            ItrKind::WhirlwindWind => 15,
            ItrKind::WhirlwindIce => 16,
        }
    }

    /// Meaning of an integer code as an interaction kind.
    pub open spec fn spec_from_code(v: u32) -> Result<ItrKind, ItrKindParseError> {
        if v == 0 {
            Ok(ItrKind::Normal)
        } else if v == 1 {
            Ok(ItrKind::CatchStunned)
        } else if v == 2 {
            Ok(ItrKind::WeaponPick)
        } else if v == 3 {
            Ok(ItrKind::CatchForce)
        } else if v == 4 {
            Ok(ItrKind::Falling)
        } else if v == 5 {
            Ok(ItrKind::WeaponStrength)
        } else if v == 6 {
            Ok(ItrKind::SuperPunch)
        } else if v == 7 {
            Ok(ItrKind::RollWeaponPick)
        } else if v == 8 {
            Ok(ItrKind::HealBall)
        } else if v == 9 {
            Ok(ItrKind::ReflectiveShield)
        } else if v == 10 {
            Ok(ItrKind::SonataOfDeath)
        } else if v == 11 {
            Ok(ItrKind::SonataOfDeath2)
        } else if v == 14 {
            Ok(ItrKind::Wall)
        } else if v == 15 {
            Ok(ItrKind::WhirlwindWind)
        } else if v == 16 {
            Ok(ItrKind::WhirlwindIce)
        } else {
            Err(ItrKindParseError::InvalidValue(v))
        }
    }

    /// Meaning of a source token as an interaction kind.
    pub open spec fn spec_from_str(s: Seq<char>) -> Result<ItrKind, ItrKindParseError> {
        match spec_parse_u32(s) {
            Ok(v) => Self::spec_from_code(v),
            Err(e) => Err(ItrKindParseError::ParseIntError(e)),
        }
    }

    /// Reads an interaction kind from its source token.
    pub fn from_str(s: &str) -> (r: Result<ItrKind, ItrKindParseError>)
        ensures
            r == Self::spec_from_str(s@),
    {
        let v = match parse_u32(s) {
            Ok(v) => v,
            Err(e) => {
                return Err(ItrKindParseError::ParseIntError(e));
            },
        };
        match v {
            0 => Ok(ItrKind::Normal),
            1 => Ok(ItrKind::CatchStunned),
            2 => Ok(ItrKind::WeaponPick),
            3 => Ok(ItrKind::CatchForce),
            4 => Ok(ItrKind::Falling),
            5 => Ok(ItrKind::WeaponStrength),
            6 => Ok(ItrKind::SuperPunch),
            7 => Ok(ItrKind::RollWeaponPick),
            8 => Ok(ItrKind::HealBall),
            9 => Ok(ItrKind::ReflectiveShield),
            10 => Ok(ItrKind::SonataOfDeath),
            11 => Ok(ItrKind::SonataOfDeath2),
            14 => Ok(ItrKind::Wall),
            15 => Ok(ItrKind::WhirlwindWind),
            16 => Ok(ItrKind::WhirlwindIce),
            _ => Err(ItrKindParseError::InvalidValue(v)),
        }
    }
}

impl Default for ItrKind {
    /// The plain hit interaction.
    fn default() -> (r: ItrKind)
        ensures
            r == ItrKind::Normal,
    {
        ItrKind::Normal
    }
}

/// Law: every valid interaction kind code round-trips, and no two kinds
/// share a code.
pub proof fn lemma_itr_kind_round_trip(v: u32, k: ItrKind)
    ensures
        ItrKind::spec_from_code(v) matches Ok(k2) ==> k2.spec_code() == v,
        ItrKind::spec_from_code(k.spec_code()) == Ok::<ItrKind, ItrKindParseError>(k),
{
}

/// Effect an interaction has on what it hits.
#[derive(Clone, Copy, Debug, PartialEq, Eq, Structural)]
pub enum Effect {
    /// Plain hit; weapons fly away.
    Normal,
    /// Blood; weapons fly away.
    Blood,
    /// Fire; can hit burning characters.
    Fire,
    /// Ice; can hit frozen characters.
    Ice,
    /// Reflects flying attacks; does not affect characters.
    Reflect,
    /// Reflects flying attacks; hits characters without sound.
    Reflects,
    /// Ground fire; burning characters are immune.
    FireGround,
    /// Breath fire; spares teammates.
    FireBreath,
    /// Exploding fire; pushes toward the blast center.
    FireExplode,
    /// Explosion; pushes toward the blast center.
    PowerExplode,
    /// Icicle; frozen characters are immune.
    Icicle,
}

/// Why an `itr: effect:` value failed to parse.
#[derive(Clone, Copy, Debug, PartialEq, Eq, Structural)]
pub enum EffectParseError {
    /// The token is not an integer.
    ParseIntError(IntParseError),
    /// The integer is not a valid effect code.
    InvalidValue(u32),
}

impl Effect {
    /// The numeric code of this effect.
    pub open spec fn spec_code(self) -> u32 {
        match self {
            Effect::Normal => 0,
            Effect::Blood => 1,
            Effect::Fire => 2,
            Effect::Ice => 3,
            Effect::Reflect => 4,
            Effect::Reflects => 5,
            Effect::FireGround => 20,
            Effect::FireBreath => 21,
            Effect::FireExplode => 22,
            Effect::PowerExplode => 23,
            Effect::Icicle => 30,
        }
    }

    /// Returns this effect's numeric code.
    pub fn code(self) -> (r: u32)
        ensures
            r == self.spec_code(),
    {
        match self {
            Effect::Normal => 0,
            Effect::Blood => 1,
            Effect::Fire => 2,
            Effect::Ice => 3,
            Effect::Reflect => 4,
            Effect::Reflects => 5,
            Effect::FireGround => 20,
            Effect::FireBreath => 21,
            Effect::FireExplode => 22,
            Effect::PowerExplode => 23,
            Effect::Icicle => 30,
        }
    }

    /// Meaning of an integer code as an effect.
    pub open spec fn spec_from_code(v: u32) -> Result<Effect, EffectParseError> {
        if v == 0 {
            Ok(Effect::Normal)
        } else if v == 1 {
            Ok(Effect::Blood)
        } else if v == 2 {
            Ok(Effect::Fire)
        } else if v == 3 {
            Ok(Effect::Ice)
        } else if v == 4 {
            Ok(Effect::Reflect)
        } else if v == 5 {
            Ok(Effect::Reflects)
        } else if v == 20 {
            Ok(Effect::FireGround)
        } else if v == 21 {
            Ok(Effect::FireBreath)
        } else if v == 22 {
            Ok(Effect::FireExplode)
        } else if v == 23 {
            Ok(Effect::PowerExplode)
        } else if v == 30 {
            Ok(Effect::Icicle)
        } else {
            Err(EffectParseError::InvalidValue(v))
        }
    }

    /// Meaning of a source token as an effect.
    pub open spec fn spec_from_str(s: Seq<char>) -> Result<Effect, EffectParseError> {
        match spec_parse_u32(s) {
            Ok(v) => Self::spec_from_code(v),
            Err(e) => Err(EffectParseError::ParseIntError(e)),
        }
    }

    /// Reads an effect from its source token.
    pub fn from_str(s: &str) -> (r: Result<Effect, EffectParseError>)
        ensures
            r == Self::spec_from_str(s@),
    {
        let v = match parse_u32(s) {
            Ok(v) => v,
            Err(e) => {
                return Err(EffectParseError::ParseIntError(e));
            },
        };
        match v {
            0 => Ok(Effect::Normal),
            1 => Ok(Effect::Blood),
            2 => Ok(Effect::Fire),
            3 => Ok(Effect::Ice),
            4 => Ok(Effect::Reflect),
            5 => Ok(Effect::Reflects),
            20 => Ok(Effect::FireGround),
            21 => Ok(Effect::FireBreath),
            22 => Ok(Effect::FireExplode),
            23 => Ok(Effect::PowerExplode),
            30 => Ok(Effect::Icicle),
            _ => Err(EffectParseError::InvalidValue(v)),
        }
    }
}

impl Default for Effect {
    /// The plain hit effect.
    fn default() -> (r: Effect)
        ensures
            r == Effect::Normal,
    {
        Effect::Normal
    }
}

/// Law: every valid effect code round-trips, and no two effects share a
/// code.
pub proof fn lemma_effect_round_trip(v: u32, e: Effect)
    ensures
        Effect::spec_from_code(v) matches Ok(e2) ==> e2.spec_code() == v,
        Effect::spec_from_code(e.spec_code()) == Ok::<Effect, EffectParseError>(e),
{
}

/// Area that acts on other objects: position, size, and how a hit plays
/// out.
#[derive(Clone, Copy, Debug, PartialEq, Eq, Structural)]
pub struct Itr {
    /// Interaction kind.
    pub kind: ItrKind,
    /// X coordinate.
    pub x: i32,
    /// Y coordinate.
    pub y: i32,
    /// Width.
    pub w: u32,
    /// Height.
    pub h: u32,
    /// Half-depth of the volume; it extends this far both ways in Z, plus
    /// one center pixel. Defaults to `13` when the tag is absent.
    pub z_width: u32,
    /// Acceleration to place on the hit object in the X axis.
    pub d_vx: i64,
    /// Acceleration to place on the hit object in the Y axis.
    pub d_vy: i64,
    /// Delay before another hit may happen; restricts the hit to one object.
    pub a_rest: u32,
    /// Delay before another hit may happen; allows multiple objects.
    pub v_rest: u32,
    /// How much a hit character is put off balance.
    pub fall: i32,
    /// Broken-defence points placed on the hit character.
    pub b_defend: i32,
    /// Damage inflicted on the hit object.
    pub injury: i32,
    /// Effect of the hit.
    pub effect: Effect,
    /// Frame the catching object switches to, for the catching kinds.
    pub catching_act: FrameNumberNext,
    /// Frame the caught character switches to, for the catching kinds.
    pub caught_act: FrameNumberNext,
}

/// Default half-depth of an interaction volume.
pub const Z_WIDTH_DEFAULT: u32 = 13;

impl Default for Itr {
    /// A zero-sized plain interaction at the origin, with the default
    /// half-depth of `13`.
    fn default() -> (r: Itr)
        ensures
            r == (Itr {
                kind: ItrKind::Normal,
                x: 0i32,
                y: 0i32,
                w: 0u32,
                h: 0u32,
                z_width: 13u32,
                d_vx: 0i64,
                d_vy: 0i64,
                a_rest: 0u32,
                v_rest: 0u32,
                fall: 0i32,
                b_defend: 0i32,
                injury: 0i32,
                effect: Effect::Normal,
                catching_act: FrameNumberNext(0isize),
                caught_act: FrameNumberNext(0isize),
            }),
            r.z_width == Z_WIDTH_DEFAULT,
    {
        Itr {
            kind: ItrKind::Normal,
            x: 0,
            y: 0,
            w: 0,
            h: 0,
            z_width: Z_WIDTH_DEFAULT,
            d_vx: 0,
            d_vy: 0,
            a_rest: 0,
            v_rest: 0,
            fall: 0,
            b_defend: 0,
            injury: 0,
            effect: Effect::Normal,
            catching_act: FrameNumberNext(0),
            caught_act: FrameNumberNext(0),
        }
    }
}

} // verus!

// The walker: how a `Itr` node becomes a `Itr` record.

verus! {

/// Applies one tag (the inner tag node of a `ItrTag`) to `it`.
/// A tag kind this element does not know leaves `it` unchanged.
pub open spec fn spec_itr_tag_value(it: Itr, tag: NodeV) -> Result<Itr, ErrorV> {
    if tag.kind == NodeKind::TagKind {
        match spec_tag_value(tag) {
            Err(e) => Err(e),
            Ok(v) => match ItrKind::spec_from_str(v.text) {
                Ok(k) => Ok(Itr { kind: k, ..it }),
                Err(e) => Err(
                    ErrorV::ParseItrKind { value: SourceRef::spec_of_node(v), error: e },
                ),
            },
        }
    } else if tag.kind == NodeKind::TagX {
        match spec_tag_value(tag) {
            Err(e) => Err(e),
            Ok(v) => match spec_parse_i32(v.text) {
                Ok(val) => Ok(Itr { x: val, ..it }),
                Err(e) => Err(
                    ErrorV::ParseInt { field: "x"@, value: SourceRef::spec_of_node(v), error: e },
                ),
            },
        }
    } else if tag.kind == NodeKind::TagY {
        match spec_tag_value(tag) {
            Err(e) => Err(e),
            Ok(v) => match spec_parse_i32(v.text) {
                Ok(val) => Ok(Itr { y: val, ..it }),
                Err(e) => Err(
                    ErrorV::ParseInt { field: "y"@, value: SourceRef::spec_of_node(v), error: e },
                ),
            },
        }
    } else if tag.kind == NodeKind::TagW {
        match spec_tag_value(tag) {
            Err(e) => Err(e),
            Ok(v) => match spec_parse_u32(v.text) {
                Ok(val) => Ok(Itr { w: val, ..it }),
                Err(e) => Err(
                    ErrorV::ParseInt { field: "w"@, value: SourceRef::spec_of_node(v), error: e },
                ),
            },
        }
    } else if tag.kind == NodeKind::TagH {
        match spec_tag_value(tag) {
            Err(e) => Err(e),
            Ok(v) => match spec_parse_u32(v.text) {
                Ok(val) => Ok(Itr { h: val, ..it }),
                Err(e) => Err(
                    ErrorV::ParseInt { field: "h"@, value: SourceRef::spec_of_node(v), error: e },
                ),
            },
        }
    } else if tag.kind == NodeKind::TagZWidth {
        match spec_tag_value(tag) {
            Err(e) => Err(e),
            Ok(v) => match spec_parse_u32(v.text) {
                Ok(val) => Ok(Itr { z_width: val, ..it }),
                Err(e) => Err(
                    ErrorV::ParseInt { field: "zwidth"@, value: SourceRef::spec_of_node(v), error: e },
                ),
            },
        }
    } else if tag.kind == NodeKind::TagDVx {
        match spec_tag_value(tag) {
            Err(e) => Err(e),
            Ok(v) => match spec_parse_i64(v.text) {
                Ok(val) => Ok(Itr { d_vx: val, ..it }),
                Err(e) => Err(
                    ErrorV::ParseInt { field: "d_vx"@, value: SourceRef::spec_of_node(v), error: e },
                ),
            },
        }
    } else if tag.kind == NodeKind::TagDVy {
        match spec_tag_value(tag) {
            Err(e) => Err(e),
            Ok(v) => match spec_parse_i64(v.text) {
                Ok(val) => Ok(Itr { d_vy: val, ..it }),
                Err(e) => Err(
                    ErrorV::ParseInt { field: "d_vy"@, value: SourceRef::spec_of_node(v), error: e },
                ),
            },
        }
    } else if tag.kind == NodeKind::TagARest {
        match spec_tag_value(tag) {
            Err(e) => Err(e),
            Ok(v) => match spec_parse_u32(v.text) {
                Ok(val) => Ok(Itr { a_rest: val, ..it }),
                Err(e) => Err(
                    ErrorV::ParseInt { field: "arest"@, value: SourceRef::spec_of_node(v), error: e },
                ),
            },
        }
    } else if tag.kind == NodeKind::TagVRest {
        match spec_tag_value(tag) {
            Err(e) => Err(e),
            Ok(v) => match spec_parse_u32(v.text) {
                Ok(val) => Ok(Itr { v_rest: val, ..it }),
                Err(e) => Err(
                    ErrorV::ParseInt { field: "vrest"@, value: SourceRef::spec_of_node(v), error: e },
                ),
            },
        }
    } else if tag.kind == NodeKind::TagFall {
        match spec_tag_value(tag) {
            Err(e) => Err(e),
            Ok(v) => match spec_parse_i32(v.text) {
                Ok(val) => Ok(Itr { fall: val, ..it }),
                Err(e) => Err(
                    ErrorV::ParseInt { field: "fall"@, value: SourceRef::spec_of_node(v), error: e },
                ),
            },
        }
    } else if tag.kind == NodeKind::TagBDefend {
        match spec_tag_value(tag) {
            Err(e) => Err(e),
            Ok(v) => match spec_parse_i32(v.text) {
                Ok(val) => Ok(Itr { b_defend: val, ..it }),
                Err(e) => Err(
                    ErrorV::ParseInt { field: "b_defend"@, value: SourceRef::spec_of_node(v), error: e },
                ),
            },
        }
    } else if tag.kind == NodeKind::TagInjury {
        match spec_tag_value(tag) {
            Err(e) => Err(e),
            Ok(v) => match spec_parse_i32(v.text) {
                Ok(val) => Ok(Itr { injury: val, ..it }),
                Err(e) => Err(
                    ErrorV::ParseInt { field: "injury"@, value: SourceRef::spec_of_node(v), error: e },
                ),
            },
        }
    } else if tag.kind == NodeKind::TagEffect {
        match spec_tag_value(tag) {
            Err(e) => Err(e),
            Ok(v) => match Effect::spec_from_str(v.text) {
                Ok(k) => Ok(Itr { effect: k, ..it }),
                Err(e) => Err(
                    ErrorV::ParseItrEffect { value: SourceRef::spec_of_node(v), error: e },
                ),
            },
        }
    } else if tag.kind == NodeKind::TagCatchingAct {
        match spec_tag_value(tag) {
            Err(e) => Err(e),
            Ok(v) => match spec_parse_isize(v.text) {
                Ok(val) => Ok(Itr { catching_act: FrameNumberNext(val), ..it }),
                Err(e) => Err(
                    ErrorV::ParseInt { field: "catching_act"@, value: SourceRef::spec_of_node(v), error: e },
                ),
            },
        }
    } else if tag.kind == NodeKind::TagCaughtAct {
        match spec_tag_value(tag) {
            Err(e) => Err(e),
            Ok(v) => match spec_parse_isize(v.text) {
                Ok(val) => Ok(Itr { caught_act: FrameNumberNext(val), ..it }),
                Err(e) => Err(
                    ErrorV::ParseInt { field: "caught_act"@, value: SourceRef::spec_of_node(v), error: e },
                ),
            },
        }
    } else {
        Ok(it)
    }
}

/// Applies one `ItrTag` node to `it`.
pub open spec fn spec_itr_tag(it: Itr, t: NodeV) -> Result<Itr, ErrorV> {
    if t.kind != NodeKind::ItrTag {
        Err(spec_grammar_single(NodeKind::ItrTag, Some(t)))
    } else if t.children.len() < 1 {
        Err(spec_grammar_single(NodeKind::ItrTag, None))
    } else {
        spec_itr_tag_value(it, t.children[0])
    }
}

/// Folds the tag nodes `ts[i..]` onto `it`, stopping at the first error.
pub open spec fn spec_itr_fold(it: Itr, ts: Seq<NodeV>, i: int) -> Result<Itr, ErrorV>
    decreases ts.len() - i,
{
    if i < 0 || i >= ts.len() {
        Ok(it)
    } else {
        match spec_itr_tag(it, ts[i]) {
            Err(e) => Err(e),
            Ok(n2) => spec_itr_fold(n2, ts, i + 1),
        }
    }
}

/// Meaning of a `Itr` node as a record: its tags applied in order to
/// the default record.
pub open spec fn spec_itr_of(n: NodeV) -> Result<Itr, ErrorV> {
    if n.kind != NodeKind::Itr {
        Err(spec_grammar_single(NodeKind::Itr, Some(n)))
    } else {
        match spec_child_expect(n, 0, NodeKind::ItrData) {
            Err(e) => Err(e),
            Ok(data) => spec_itr_fold(Itr {
                kind: ItrKind::Normal,
                x: 0,
                y: 0,
                w: 0,
                h: 0,
                z_width: 13,
                d_vx: 0,
                d_vy: 0,
                a_rest: 0,
                v_rest: 0,
                fall: 0,
                b_defend: 0,
                injury: 0,
                effect: Effect::Normal,
                catching_act: FrameNumberNext(0),
                caught_act: FrameNumberNext(0),
            }, data.children, 0),
        }
    }
}

impl Itr {
    /// Applies one inner tag node to `it`.
    fn apply_tag_value(it: Itr, tag: &Node) -> (r: Result<Itr, Error>)
        ensures
            match r {
                Ok(n2) => spec_itr_tag_value(it, tag@) == Ok::<Itr, ErrorV>(n2),
                Err(e) => spec_itr_tag_value(it, tag@) == Err::<Itr, ErrorV>(e@),
            },
    {
        match tag.kind {
            NodeKind::TagKind => {
                let v = match ObjectDataParser::parse_value(tag) {
                    Ok(v) => v,
                    Err(e) => {
                        return Err(e);
                    },
                };
                match ItrKind::from_str(v.text.as_str()) {
                    Ok(k) => Ok(Itr { kind: k, ..it }),
                    Err(e) => Err(
                        Error::ParseItrKind { value: SourceRef::of_node(v), error: e },
                    ),
                }
            },
            NodeKind::TagX => {
                let v = match ObjectDataParser::parse_value(tag) {
                    Ok(v) => v,
                    Err(e) => {
                        return Err(e);
                    },
                };
                match parse_i32(v.text.as_str()) {
                    Ok(val) => Ok(Itr { x: val, ..it }),
                    Err(e) => Err(
                        Error::ParseInt { field: "x", value: SourceRef::of_node(v), error: e },
                    ),
                }
            },
            NodeKind::TagY => {
                let v = match ObjectDataParser::parse_value(tag) {
                    Ok(v) => v,
                    Err(e) => {
                        return Err(e);
                    },
                };
                match parse_i32(v.text.as_str()) {
                    Ok(val) => Ok(Itr { y: val, ..it }),
                    Err(e) => Err(
                        Error::ParseInt { field: "y", value: SourceRef::of_node(v), error: e },
                    ),
                }
            },
            NodeKind::TagW => {
                let v = match ObjectDataParser::parse_value(tag) {
                    Ok(v) => v,
                    Err(e) => {
                        return Err(e);
                    },
                };
                match parse_u32(v.text.as_str()) {
                    Ok(val) => Ok(Itr { w: val, ..it }),
                    Err(e) => Err(
                        Error::ParseInt { field: "w", value: SourceRef::of_node(v), error: e },
                    ),
                }
            },
            NodeKind::TagH => {
                let v = match ObjectDataParser::parse_value(tag) {
                    Ok(v) => v,
                    Err(e) => {
                        return Err(e);
                    },
                };
                match parse_u32(v.text.as_str()) {
                    Ok(val) => Ok(Itr { h: val, ..it }),
                    Err(e) => Err(
                        Error::ParseInt { field: "h", value: SourceRef::of_node(v), error: e },
                    ),
                }
            },
            NodeKind::TagZWidth => {
                let v = match ObjectDataParser::parse_value(tag) {
                    Ok(v) => v,
                    Err(e) => {
                        return Err(e);
                    },
                };
                match parse_u32(v.text.as_str()) {
                    Ok(val) => Ok(Itr { z_width: val, ..it }),
                    Err(e) => Err(
                        Error::ParseInt { field: "zwidth", value: SourceRef::of_node(v), error: e },
                    ),
                }
            },
            NodeKind::TagDVx => {
                let v = match ObjectDataParser::parse_value(tag) {
                    Ok(v) => v,
                    Err(e) => {
                        return Err(e);
                    },
                };
                match parse_i64(v.text.as_str()) {
                    Ok(val) => Ok(Itr { d_vx: val, ..it }),
                    Err(e) => Err(
                        Error::ParseInt { field: "d_vx", value: SourceRef::of_node(v), error: e },
                    ),
                }
            },
            NodeKind::TagDVy => {
                let v = match ObjectDataParser::parse_value(tag) {
                    Ok(v) => v,
                    Err(e) => {
                        return Err(e);
                    },
                };
                match parse_i64(v.text.as_str()) {
                    Ok(val) => Ok(Itr { d_vy: val, ..it }),
                    Err(e) => Err(
                        Error::ParseInt { field: "d_vy", value: SourceRef::of_node(v), error: e },
                    ),
                }
            },
            NodeKind::TagARest => {
                let v = match ObjectDataParser::parse_value(tag) {
                    Ok(v) => v,
                    Err(e) => {
                        return Err(e);
                    },
                };
                match parse_u32(v.text.as_str()) {
                    Ok(val) => Ok(Itr { a_rest: val, ..it }),
                    Err(e) => Err(
                        Error::ParseInt { field: "arest", value: SourceRef::of_node(v), error: e },
                    ),
                }
            },
            NodeKind::TagVRest => {
                let v = match ObjectDataParser::parse_value(tag) {
                    Ok(v) => v,
                    Err(e) => {
                        return Err(e);
                    },
                };
                match parse_u32(v.text.as_str()) {
                    Ok(val) => Ok(Itr { v_rest: val, ..it }),
                    Err(e) => Err(
                        Error::ParseInt { field: "vrest", value: SourceRef::of_node(v), error: e },
                    ),
                }
            },
            NodeKind::TagFall => {
                let v = match ObjectDataParser::parse_value(tag) {
                    Ok(v) => v,
                    Err(e) => {
                        return Err(e);
                    },
                };
                match parse_i32(v.text.as_str()) {
                    Ok(val) => Ok(Itr { fall: val, ..it }),
                    Err(e) => Err(
                        Error::ParseInt { field: "fall", value: SourceRef::of_node(v), error: e },
                    ),
                }
            },
            NodeKind::TagBDefend => {
                let v = match ObjectDataParser::parse_value(tag) {
                    Ok(v) => v,
                    Err(e) => {
                        return Err(e);
                    },
                };
                match parse_i32(v.text.as_str()) {
                    Ok(val) => Ok(Itr { b_defend: val, ..it }),
                    Err(e) => Err(
                        Error::ParseInt { field: "b_defend", value: SourceRef::of_node(v), error: e },
                    ),
                }
            },
            NodeKind::TagInjury => {
                let v = match ObjectDataParser::parse_value(tag) {
                    Ok(v) => v,
                    Err(e) => {
                        return Err(e);
                    },
                };
                match parse_i32(v.text.as_str()) {
                    Ok(val) => Ok(Itr { injury: val, ..it }),
                    Err(e) => Err(
                        Error::ParseInt { field: "injury", value: SourceRef::of_node(v), error: e },
                    ),
                }
            },
            NodeKind::TagEffect => {
                let v = match ObjectDataParser::parse_value(tag) {
                    Ok(v) => v,
                    Err(e) => {
                        return Err(e);
                    },
                };
                match Effect::from_str(v.text.as_str()) {
                    Ok(k) => Ok(Itr { effect: k, ..it }),
                    Err(e) => Err(
                        Error::ParseItrEffect { value: SourceRef::of_node(v), error: e },
                    ),
                }
            },
            NodeKind::TagCatchingAct => {
                let v = match ObjectDataParser::parse_value(tag) {
                    Ok(v) => v,
                    Err(e) => {
                        return Err(e);
                    },
                };
                match parse_isize(v.text.as_str()) {
                    Ok(val) => Ok(Itr { catching_act: FrameNumberNext(val), ..it }),
                    Err(e) => Err(
                        Error::ParseInt { field: "catching_act", value: SourceRef::of_node(v), error: e },
                    ),
                }
            },
            NodeKind::TagCaughtAct => {
                let v = match ObjectDataParser::parse_value(tag) {
                    Ok(v) => v,
                    Err(e) => {
                        return Err(e);
                    },
                };
                match parse_isize(v.text.as_str()) {
                    Ok(val) => Ok(Itr { caught_act: FrameNumberNext(val), ..it }),
                    Err(e) => Err(
                        Error::ParseInt { field: "caught_act", value: SourceRef::of_node(v), error: e },
                    ),
                }
            },
            _ => Ok(it),
        }
    }

    /// Applies one `ItrTag` node to `it`.
    fn apply_tag(it: Itr, t: &Node) -> (r: Result<Itr, Error>)
        ensures
            match r {
                Ok(n2) => spec_itr_tag(it, t@) == Ok::<Itr, ErrorV>(n2),
                Err(e) => spec_itr_tag(it, t@) == Err::<Itr, ErrorV>(e@),
            },
    {
        match ObjectDataParser::expect_kind(t, NodeKind::ItrTag) {
            Ok(_) => {},
            Err(e) => {
                return Err(e);
            },
        }
        proof {
            lemma_node_seq_view(t.children@);
        }
        if t.children.len() < 1 {
            return Err(Error::GrammarSingle { rule_expected: NodeKind::ItrTag, found: None });
        }
        Self::apply_tag_value(it, &t.children[0])
    }

    /// Reads a record from a `Itr` node.
    pub fn from_node(n: &Node) -> (r: Result<Itr, Error>)
        ensures
            match r {
                Ok(v) => spec_itr_of(n@) == Ok::<Itr, ErrorV>(v),
                Err(e) => spec_itr_of(n@) == Err::<Itr, ErrorV>(e@),
            },
    {
        match ObjectDataParser::expect_kind(n, NodeKind::Itr) {
            Ok(_) => {},
            Err(e) => {
                return Err(e);
            },
        }
        let data = match ObjectDataParser::child_expect(n, 0, NodeKind::ItrData) {
            Ok(d) => d,
            Err(e) => {
                return Err(e);
            },
        };
        let mut acc = Itr::default();
        let len = data.children.len();
        proof {
            lemma_node_seq_view(data.children@);
        }
        let mut i: usize = 0;
        while i < len
            invariant
                0 <= i <= len,
                len == data@.children.len(),
                data@.children == crate::syntax::children_view(data.children),
                len == data.children@.len(),
                forall|j: int|
                    0 <= j < len ==> crate::syntax::children_view(data.children)[j]
                        == #[trigger] data.children@[j]@,
                spec_itr_of(n@) == spec_itr_fold(acc, data@.children, i as int),
            decreases len - i,
        {
            let t = &data.children[i];
            acc = match Self::apply_tag(acc, t) {
                Ok(n2) => n2,
                Err(e) => {
                    return Err(e);
                },
            };
            i = i + 1;
        }
        Ok(acc)
    }
}

} // verus!

verus! {

/// A tag node that does not carry a half-depth tag leaves `z_width` alone.
proof fn lemma_itr_fold_z_width(acc: Itr, ts: Seq<NodeV>, i: int, it: Itr)
    requires
        spec_itr_fold(acc, ts, i) == Ok::<Itr, ErrorV>(it),
        forall|j: int|
            i <= j < ts.len() ==> !((#[trigger] ts[j]).children.len() >= 1 && ts[j].children[0].kind
                == NodeKind::TagZWidth),
    ensures
        it.z_width == acc.z_width,
    decreases ts.len() - i,
{
    if 0 <= i < ts.len() {
        match spec_itr_tag(acc, ts[i]) {
            Err(e) => {},
            Ok(acc2) => {
                assert(acc2.z_width == acc.z_width);
                lemma_itr_fold_z_width(acc2, ts, i + 1, it);
            },
        }
    }
}

/// Law: defaulting of the interaction half-depth. An `Itr` node carrying
/// no `zwidth` tag yields a record whose `z_width` is the default `13`.
pub proof fn lemma_itr_z_width_default(n: NodeV, it: Itr)
    requires
        spec_itr_of(n) == Ok::<Itr, ErrorV>(it),
        forall|j: int|
            0 <= j < n.children[0].children.len() ==> !((#[trigger] n.children[0].children[j]).children.len()
                >= 1 && n.children[0].children[j].children[0].kind == NodeKind::TagZWidth),
    ensures
        it.z_width == Z_WIDTH_DEFAULT,
{
    let data = n.children[0];
    lemma_itr_fold_z_width(
        Itr {
            kind: ItrKind::Normal,
            x: 0,
            y: 0,
            w: 0,
            h: 0,
            z_width: 13,
            d_vx: 0,
            d_vy: 0,
            a_rest: 0,
            v_rest: 0,
            fall: 0,
            b_defend: 0,
            injury: 0,
            effect: Effect::Normal,
            catching_act: FrameNumberNext(0),
            caught_act: FrameNumberNext(0),
        },
        data.children,
        0,
        it,
    );
}

} // verus!

verus! {

impl ItrKindParseError {
    /// A human-readable description of the failure. On an invalid value it
    /// quotes the value and enumerates the valid codes.
    pub fn message(&self) -> (r: String)
        ensures
            self matches ItrKindParseError::ParseIntError(e) ==> r@ == e.spec_message(),
            self matches ItrKindParseError::InvalidValue(v) ==> crate::text::contains_seq(
                r@,
                crate::text::spec_u64_string(v as u64),
            ) && crate::text::contains_seq(
                r@,
                "` is not recognized as a valid `ItrKind` value.\nValid values are:\n\n- 0 (Normal),\n- 1 (CatchStunned),\n- 2 (WeaponPick),\n- 3 (CatchForce),\n- 4 (Falling),\n- 5 (WeaponStrength),\n- 6 (SuperPunch),\n- 7 (RollWeaponPick),\n- 8 (HealBall),\n- 9 (ReflectiveShield),\n- 10 (SonataOfDeath),\n- 11 (SonataOfDeath2),\n- 14 (Wall),\n- 15 (WhirlwindWind),\n- 16 (WhirlwindIce)\n"@,
            ),
    {
        match self {
            ItrKindParseError::ParseIntError(e) => e.message(),
            ItrKindParseError::InvalidValue(v) => {
                let mut s = String::new();
                crate::text::push_str(&mut s, "`");
                let ghost a = s@;
                let digits = crate::text::u64_to_string(*v as u64);
                crate::text::push_str(&mut s, digits.as_str());
                proof {
                    crate::text::lemma_contains_suffix(a, digits@);
                }
                let ghost b = s@;
                crate::text::push_str(
                    &mut s,
                    "` is not recognized as a valid `ItrKind` value.\nValid values are:\n\n- 0 (Normal),\n- 1 (CatchStunned),\n- 2 (WeaponPick),\n- 3 (CatchForce),\n- 4 (Falling),\n- 5 (WeaponStrength),\n- 6 (SuperPunch),\n- 7 (RollWeaponPick),\n- 8 (HealBall),\n- 9 (ReflectiveShield),\n- 10 (SonataOfDeath),\n- 11 (SonataOfDeath2),\n- 14 (Wall),\n- 15 (WhirlwindWind),\n- 16 (WhirlwindIce)\n",
                );
                proof {
                    crate::text::lemma_contains_extend(b, "` is not recognized as a valid `ItrKind` value.\nValid values are:\n\n- 0 (Normal),\n- 1 (CatchStunned),\n- 2 (WeaponPick),\n- 3 (CatchForce),\n- 4 (Falling),\n- 5 (WeaponStrength),\n- 6 (SuperPunch),\n- 7 (RollWeaponPick),\n- 8 (HealBall),\n- 9 (ReflectiveShield),\n- 10 (SonataOfDeath),\n- 11 (SonataOfDeath2),\n- 14 (Wall),\n- 15 (WhirlwindWind),\n- 16 (WhirlwindIce)\n"@, digits@);
                    crate::text::lemma_contains_suffix(b, "` is not recognized as a valid `ItrKind` value.\nValid values are:\n\n- 0 (Normal),\n- 1 (CatchStunned),\n- 2 (WeaponPick),\n- 3 (CatchForce),\n- 4 (Falling),\n- 5 (WeaponStrength),\n- 6 (SuperPunch),\n- 7 (RollWeaponPick),\n- 8 (HealBall),\n- 9 (ReflectiveShield),\n- 10 (SonataOfDeath),\n- 11 (SonataOfDeath2),\n- 14 (Wall),\n- 15 (WhirlwindWind),\n- 16 (WhirlwindIce)\n"@);
                }
                s
            },
        }
    }
}

impl EffectParseError {
    /// A human-readable description of the failure. On an invalid value it
    /// quotes the value and enumerates the valid codes.
    pub fn message(&self) -> (r: String)
        ensures
            self matches EffectParseError::ParseIntError(e) ==> r@ == e.spec_message(),
            self matches EffectParseError::InvalidValue(v) ==> crate::text::contains_seq(
                r@,
                crate::text::spec_u64_string(v as u64),
            ) && crate::text::contains_seq(
                r@,
                "` is not recognized as a valid `Effect` value.\n\nValid values are:\n\n- 0 (Normal)\n- 1 (Blood)\n- 2 (Fire)\n- 3 (Ice)\n- 4 (Reflect)\n- 5 (Reflects)\n- 20 (FireGround)\n- 21 (FireBreath)\n- 22 (FireExplode)\n- 23 (PowerExplode)\n- 30 (Icicle)\n"@,
            ),
    {
        match self {
            EffectParseError::ParseIntError(e) => e.message(),
            EffectParseError::InvalidValue(v) => {
                let mut s = String::new();
                crate::text::push_str(&mut s, "`");
                let ghost a = s@;
                let digits = crate::text::u64_to_string(*v as u64);
                crate::text::push_str(&mut s, digits.as_str());
                proof {
                    crate::text::lemma_contains_suffix(a, digits@);
                }
                let ghost b = s@;
                crate::text::push_str(
                    &mut s,
                    "` is not recognized as a valid `Effect` value.\n\nValid values are:\n\n- 0 (Normal)\n- 1 (Blood)\n- 2 (Fire)\n- 3 (Ice)\n- 4 (Reflect)\n- 5 (Reflects)\n- 20 (FireGround)\n- 21 (FireBreath)\n- 22 (FireExplode)\n- 23 (PowerExplode)\n- 30 (Icicle)\n",
                );
                proof {
                    crate::text::lemma_contains_extend(b, "` is not recognized as a valid `Effect` value.\n\nValid values are:\n\n- 0 (Normal)\n- 1 (Blood)\n- 2 (Fire)\n- 3 (Ice)\n- 4 (Reflect)\n- 5 (Reflects)\n- 20 (FireGround)\n- 21 (FireBreath)\n- 22 (FireExplode)\n- 23 (PowerExplode)\n- 30 (Icicle)\n"@, digits@);
                    crate::text::lemma_contains_suffix(b, "` is not recognized as a valid `Effect` value.\n\nValid values are:\n\n- 0 (Normal)\n- 1 (Blood)\n- 2 (Fire)\n- 3 (Ice)\n- 4 (Reflect)\n- 5 (Reflects)\n- 20 (FireGround)\n- 21 (FireBreath)\n- 22 (FireExplode)\n- 23 (PowerExplode)\n- 30 (Icicle)\n"@);
                }
                s
            },
        }
    }
}

} // verus!
