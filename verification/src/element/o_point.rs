//! Object spawn point.

use vstd::prelude::*;

use crate::error::{spec_grammar_single, Error, ErrorV, SourceRef};
use crate::object_data_parser::{spec_child_expect, spec_tag_value, ObjectDataParser};
use crate::syntax::{lemma_node_seq_view, Node, NodeKind, NodeV};
use crate::frame_number_next::FrameNumberNext;
use crate::numeric::{parse_i32, parse_i64, parse_isize, parse_u32, parse_usize, spec_parse_i32, spec_parse_i64, spec_parse_isize, spec_parse_u32, spec_parse_usize, IntParseError};
use crate::object_id::ObjectId;

verus! {

/// Object spawning variants.
#[derive(Clone, Copy, Debug, PartialEq, Eq, Structural)]
pub enum OPointKind {
    /// Spawns an object on the same team.
    Spawn,
    /// Spawns an object held as a light weapon.
    HoldLightWeapon,
}

/// Why an `opoint: kind:` value failed to parse.
#[derive(Clone, Copy, Debug, PartialEq, Eq, Structural)]
pub enum OPointKindParseError {
    /// The token is not an integer.
    ParseIntError(IntParseError),
    /// The integer is not a valid spawn point kind code.
    InvalidValue(u32),
}

impl OPointKind {
    /// The numeric code of this kind.
    pub open spec fn spec_code(self) -> u32 {
        match self {
            OPointKind::Spawn => 1,
            OPointKind::HoldLightWeapon => 2,
        }
    }

    /// Returns this kind's numeric code.
    pub fn code(self) -> (r: u32)
        ensures
            r == self.spec_code(),
    {
        match self {
            OPointKind::Spawn => 1,
            OPointKind::HoldLightWeapon => 2,
        }
    }

    /// Meaning of an integer code as a spawn point kind.
    pub open spec fn spec_from_code(v: u32) -> Result<OPointKind, OPointKindParseError> {
        if v == 1 {
            Ok(OPointKind::Spawn)
        } else if v == 2 {
            Ok(OPointKind::HoldLightWeapon)
        } else {
            Err(OPointKindParseError::InvalidValue(v))
        }
    }

    /// Meaning of a source token as a spawn point kind.
    pub open spec fn spec_from_str(s: Seq<char>) -> Result<OPointKind, OPointKindParseError> {
        match spec_parse_u32(s) {
            Ok(v) => Self::spec_from_code(v),
            Err(e) => Err(OPointKindParseError::ParseIntError(e)),
        }
    }

    /// Reads a spawn point kind from its source token.
    pub fn from_str(s: &str) -> (r: Result<OPointKind, OPointKindParseError>)
        ensures
            r == Self::spec_from_str(s@),
    {
        match parse_u32(s) {
            Ok(v) => if v == 1 {
                Ok(OPointKind::Spawn)
            } else if v == 2 {
                Ok(OPointKind::HoldLightWeapon)
            } else {
                Err(OPointKindParseError::InvalidValue(v))
            },
            Err(e) => Err(OPointKindParseError::ParseIntError(e)),
        }
    }
}

impl Default for OPointKind {
    /// A plain same-team spawn.
    fn default() -> (r: OPointKind)
        ensures
            r == OPointKind::Spawn,
    {
        OPointKind::Spawn
    }
}

/// Law: every valid spawn point kind code round-trips, and no two kinds
/// share a code.
pub proof fn lemma_o_point_kind_round_trip(v: u32, k: OPointKind)
    ensures
        OPointKind::spec_from_code(v) matches Ok(k2) ==> k2.spec_code() == v,
        OPointKind::spec_from_code(k.spec_code()) == Ok::<OPointKind, OPointKindParseError>(k),
{
}

/// Facing direction of a spawned object.
#[derive(Clone, Copy, Debug, PartialEq, Eq, Structural)]
pub enum OPointFacingDir {
    /// Face the same direction as the parent.
    ParentSame,
    /// Face the opposite direction to the parent.
    ParentOpposite,
    /// Always face to the right.
    Right,
}

/// How many objects to spawn, and which way they face.
///
/// Packed in the source as one integer: the low decimal digit's lowest bit
/// gives the direction, the remaining digits the count. `0`, `1` and `10`
/// are special-cased single spawns.
#[derive(Clone, Copy, Debug, PartialEq, Eq, Structural)]
pub struct OPointFacing {
    /// Number of objects to spawn.
    pub count: u32,
    /// Which way the spawned objects face.
    pub direction: OPointFacingDir,
}

impl OPointFacing {
    /// Meaning of the packed integer `v`.
    pub open spec fn spec_from_code(v: u32) -> OPointFacing {
        if v == 0 {
            OPointFacing { count: 1, direction: OPointFacingDir::ParentSame }
        } else if v == 1 {
            OPointFacing { count: 1, direction: OPointFacingDir::ParentOpposite }
        } else if v == 10 {
            OPointFacing { count: 1, direction: OPointFacingDir::Right }
        } else {
            OPointFacing {
                count: (v / 10) as u32,
                direction: if v % 2 == 0 {
                    OPointFacingDir::ParentSame
                } else {
                    OPointFacingDir::ParentOpposite
                },
            }
        }
    }

    /// Unpacks the facing integer `v`.
    pub fn from_code(v: u32) -> (r: OPointFacing)
        ensures
            r == Self::spec_from_code(v),
    {
        if v == 0 {
            OPointFacing { count: 1, direction: OPointFacingDir::ParentSame }
        } else if v == 1 {
            OPointFacing { count: 1, direction: OPointFacingDir::ParentOpposite }
        } else if v == 10 {
            OPointFacing { count: 1, direction: OPointFacingDir::Right }
        } else {
            OPointFacing {
                count: v / 10,
                direction: if v % 2 == 0 {
                    OPointFacingDir::ParentSame
                } else {
                    OPointFacingDir::ParentOpposite
                },
            }
        }
    }

    /// Meaning of a source token as a packed facing value.
    pub open spec fn spec_from_str(s: Seq<char>) -> Result<OPointFacing, IntParseError> {
        match spec_parse_u32(s) {
            Ok(v) => Ok(Self::spec_from_code(v)),
            Err(e) => Err(e),
        }
    }

    /// Reads a packed facing value from its source token.
    pub fn from_str(s: &str) -> (r: Result<OPointFacing, IntParseError>)
        ensures
            r == Self::spec_from_str(s@),
    {
        match parse_u32(s) {
            Ok(v) => {
                if v == 0 {
                    Ok(OPointFacing { count: 1, direction: OPointFacingDir::ParentSame })
                } else if v == 1 {
                    Ok(OPointFacing { count: 1, direction: OPointFacingDir::ParentOpposite })
                } else if v == 10 {
                    Ok(OPointFacing { count: 1, direction: OPointFacingDir::Right })
                } else {
                    Ok(
                        OPointFacing {
                            count: v / 10,
                            direction: if v % 2 == 0 {
                                OPointFacingDir::ParentSame
                            } else {
                                OPointFacingDir::ParentOpposite
                            },
                        },
                    )
                }
            },
            Err(e) => Err(e),
        }
    }
}

impl Default for OPointFacing {
    /// One object, facing as the parent does.
    fn default() -> (r: OPointFacing)
        ensures
            r == (OPointFacing { count: 1u32, direction: OPointFacingDir::ParentSame }),
    {
        OPointFacing { count: 1, direction: OPointFacingDir::ParentSame }
    }
}

/// Spawns an object during the game.
#[derive(Clone, Copy, Debug, PartialEq, Eq, Structural)]
pub struct OPoint {
    /// Object spawning kind.
    pub kind: OPointKind,
    /// X coordinate.
    pub x: i32,
    /// Y coordinate.
    pub y: i32,
    /// Frame number the spawned object starts with.
    pub action: FrameNumberNext,
    /// Initial acceleration on the X axis.
    pub d_vx: i64,
    /// Initial acceleration on the Y axis.
    pub d_vy: i64,
    /// Which object to spawn.
    pub object_id: ObjectId,
    /// How many objects to spawn, and their facing.
    pub facing: OPointFacing,
}

impl Default for OPoint {
    /// A single same-team spawn of object `0` at the origin.
    fn default() -> (r: OPoint)
        ensures
            r == (OPoint {
                kind: OPointKind::Spawn,
                x: 0i32,
                y: 0i32,
                action: FrameNumberNext(0isize),
                d_vx: 0i64,
                d_vy: 0i64,
                object_id: ObjectId(0usize),
                facing: OPointFacing { count: 1u32, direction: OPointFacingDir::ParentSame },
            }),
    {
        OPoint {
            kind: OPointKind::Spawn,
            x: 0,
            y: 0,
            action: FrameNumberNext(0),
            d_vx: 0,
            d_vy: 0,
            object_id: ObjectId(0),
            facing: OPointFacing { count: 1, direction: OPointFacingDir::ParentSame },
        }
    }
}

} // verus!

// The walker: how a `OPoint` node becomes a `OPoint` record.

verus! {

/// Applies one tag (the inner tag node of a `OPointTag`) to `o`.
/// A tag kind this element does not know leaves `o` unchanged.
pub open spec fn spec_o_point_tag_value(o: OPoint, tag: NodeV) -> Result<OPoint, ErrorV> {
    if tag.kind == NodeKind::TagKind {
        match spec_tag_value(tag) {
            Err(e) => Err(e),
            Ok(v) => match OPointKind::spec_from_str(v.text) {
                Ok(k) => Ok(OPoint { kind: k, ..o }),
                Err(e) => Err(
                    ErrorV::ParseOPointKind { value: SourceRef::spec_of_node(v), error: e },
                ),
            },
        }
    } else if tag.kind == NodeKind::TagX {
        match spec_tag_value(tag) {
            Err(e) => Err(e),
            Ok(v) => match spec_parse_i32(v.text) {
                Ok(val) => Ok(OPoint { x: val, ..o }),
                Err(e) => Err(
                    ErrorV::ParseInt { field: "x"@, value: SourceRef::spec_of_node(v), error: e },
                ),
            },
        }
    } else if tag.kind == NodeKind::TagY {
        match spec_tag_value(tag) {
            Err(e) => Err(e),
            Ok(v) => match spec_parse_i32(v.text) {
                Ok(val) => Ok(OPoint { y: val, ..o }),
                Err(e) => Err(
                    ErrorV::ParseInt { field: "y"@, value: SourceRef::spec_of_node(v), error: e },
                ),
            },
        }
    } else if tag.kind == NodeKind::TagAction {
        match spec_tag_value(tag) {
            Err(e) => Err(e),
            Ok(v) => match spec_parse_isize(v.text) {
                Ok(val) => Ok(OPoint { action: FrameNumberNext(val), ..o }),
                Err(e) => Err(
                    ErrorV::ParseOPointAction { value: SourceRef::spec_of_node(v), error: e },
                ),
            },
        }
    } else if tag.kind == NodeKind::TagDVx {
        match spec_tag_value(tag) {
            Err(e) => Err(e),
            Ok(v) => match spec_parse_i64(v.text) {
                Ok(val) => Ok(OPoint { d_vx: val, ..o }),
                Err(e) => Err(
                    ErrorV::ParseInt { field: "dvx"@, value: SourceRef::spec_of_node(v), error: e },
                ),
            },
        }
    } else if tag.kind == NodeKind::TagDVy {
        match spec_tag_value(tag) {
            Err(e) => Err(e),
            Ok(v) => match spec_parse_i64(v.text) {
                Ok(val) => Ok(OPoint { d_vy: val, ..o }),
                Err(e) => Err(
                    ErrorV::ParseInt { field: "dvy"@, value: SourceRef::spec_of_node(v), error: e },
                ),
            },
        }
    } else if tag.kind == NodeKind::TagOid {
        match spec_tag_value(tag) {
            Err(e) => Err(e),
            Ok(v) => match spec_parse_usize(v.text) {
                Ok(val) => Ok(OPoint { object_id: ObjectId(val), ..o }),
                Err(e) => Err(
                    ErrorV::ParseInt { field: "oid"@, value: SourceRef::spec_of_node(v), error: e },
                ),
            },
        }
    } else if tag.kind == NodeKind::TagFacing {
        match spec_tag_value(tag) {
            Err(e) => Err(e),
            Ok(v) => match spec_parse_u32(v.text) {
                Ok(val) => Ok(OPoint { facing: OPointFacing::spec_from_code(val), ..o }),
                Err(e) => Err(
                    ErrorV::ParseInt { field: "facing"@, value: SourceRef::spec_of_node(v), error: e },
                ),
            },
        }
    } else {
        Ok(o)
    }
}

/// Applies one `OPointTag` node to `o`.
pub open spec fn spec_o_point_tag(o: OPoint, t: NodeV) -> Result<OPoint, ErrorV> {
    if t.kind != NodeKind::OPointTag {
        Err(spec_grammar_single(NodeKind::OPointTag, Some(t)))
    } else if t.children.len() < 1 {
        Err(spec_grammar_single(NodeKind::OPointTag, None))
    } else {
        spec_o_point_tag_value(o, t.children[0])
    }
}

/// Folds the tag nodes `ts[i..]` onto `o`, stopping at the first error.
pub open spec fn spec_o_point_fold(o: OPoint, ts: Seq<NodeV>, i: int) -> Result<OPoint, ErrorV>
    decreases ts.len() - i,
{
    if i < 0 || i >= ts.len() {
        Ok(o)
    } else {
        match spec_o_point_tag(o, ts[i]) {
            Err(e) => Err(e),
            Ok(n2) => spec_o_point_fold(n2, ts, i + 1),
        }
    }
}

/// Meaning of a `OPoint` node as a record: its tags applied in order to
/// the default record.
pub open spec fn spec_o_point_of(n: NodeV) -> Result<OPoint, ErrorV> {
    if n.kind != NodeKind::OPoint {
        Err(spec_grammar_single(NodeKind::OPoint, Some(n)))
    } else {
        match spec_child_expect(n, 0, NodeKind::OPointData) {
            Err(e) => Err(e),
            Ok(data) => spec_o_point_fold(OPoint {
                kind: OPointKind::Spawn,
                x: 0,
                y: 0,
                action: FrameNumberNext(0),
                d_vx: 0,
                d_vy: 0,
                object_id: ObjectId(0),
                facing: OPointFacing { count: 1, direction: OPointFacingDir::ParentSame },
            }, data.children, 0),
        }
    }
}

impl OPoint {
    /// Applies one inner tag node to `o`.
    fn apply_tag_value(o: OPoint, tag: &Node) -> (r: Result<OPoint, Error>)
        ensures
            match r {
                Ok(n2) => spec_o_point_tag_value(o, tag@) == Ok::<OPoint, ErrorV>(n2),
                Err(e) => spec_o_point_tag_value(o, tag@) == Err::<OPoint, ErrorV>(e@),
            },
    {
        match tag.kind {
            NodeKind::TagKind => {
                let v = match ObjectDataParser::parse_value(tag) {
                    Ok(v) => v,
                    Err(e) => {
                        return Err(e);
                    },
                };
                match OPointKind::from_str(v.text.as_str()) {
                    Ok(k) => Ok(OPoint { kind: k, ..o }),
                    Err(e) => Err(
                        Error::ParseOPointKind { value: SourceRef::of_node(v), error: e },
                    ),
                }
            },
            NodeKind::TagX => {
                let v = match ObjectDataParser::parse_value(tag) {
                    Ok(v) => v,
                    Err(e) => {
                        return Err(e);
                    },
                };
                match parse_i32(v.text.as_str()) {
                    Ok(val) => Ok(OPoint { x: val, ..o }),
                    Err(e) => Err(
                        Error::ParseInt { field: "x", value: SourceRef::of_node(v), error: e },
                    ),
                }
            },
            NodeKind::TagY => {
                let v = match ObjectDataParser::parse_value(tag) {
                    Ok(v) => v,
                    Err(e) => {
                        return Err(e);
                    },
                };
                match parse_i32(v.text.as_str()) {
                    Ok(val) => Ok(OPoint { y: val, ..o }),
                    Err(e) => Err(
                        Error::ParseInt { field: "y", value: SourceRef::of_node(v), error: e },
                    ),
                }
            },
            NodeKind::TagAction => {
                let v = match ObjectDataParser::parse_value(tag) {
                    Ok(v) => v,
                    Err(e) => {
                        return Err(e);
                    },
                };
                match parse_isize(v.text.as_str()) {
                    Ok(val) => Ok(OPoint { action: FrameNumberNext(val), ..o }),
                    Err(e) => Err(
                        Error::ParseOPointAction { value: SourceRef::of_node(v), error: e },
                    ),
                }
            },
            NodeKind::TagDVx => {
                let v = match ObjectDataParser::parse_value(tag) {
                    Ok(v) => v,
                    Err(e) => {
                        return Err(e);
                    },
                };
                match parse_i64(v.text.as_str()) {
                    Ok(val) => Ok(OPoint { d_vx: val, ..o }),
                    Err(e) => Err(
                        Error::ParseInt { field: "dvx", value: SourceRef::of_node(v), error: e },
                    ),
                }
            },
            NodeKind::TagDVy => {
                let v = match ObjectDataParser::parse_value(tag) {
                    Ok(v) => v,
                    Err(e) => {
                        return Err(e);
                    },
                };
                match parse_i64(v.text.as_str()) {
                    Ok(val) => Ok(OPoint { d_vy: val, ..o }),
                    Err(e) => Err(
                        Error::ParseInt { field: "dvy", value: SourceRef::of_node(v), error: e },
                    ),
                }
            },
            NodeKind::TagOid => {
                let v = match ObjectDataParser::parse_value(tag) {
                    Ok(v) => v,
                    Err(e) => {
                        return Err(e);
                    },
                };
                match parse_usize(v.text.as_str()) {
                    Ok(val) => Ok(OPoint { object_id: ObjectId(val), ..o }),
                    Err(e) => Err(
                        Error::ParseInt { field: "oid", value: SourceRef::of_node(v), error: e },
                    ),
                }
            },
            NodeKind::TagFacing => {
                let v = match ObjectDataParser::parse_value(tag) {
                    Ok(v) => v,
                    Err(e) => {
                        return Err(e);
                    },
                };
                match parse_u32(v.text.as_str()) {
                    Ok(val) => Ok(OPoint { facing: OPointFacing::from_code(val), ..o }),
                    Err(e) => Err(
                        Error::ParseInt { field: "facing", value: SourceRef::of_node(v), error: e },
                    ),
                }
            },
            _ => Ok(o),
        }
    }

    /// Applies one `OPointTag` node to `o`.
    fn apply_tag(o: OPoint, t: &Node) -> (r: Result<OPoint, Error>)
        ensures
            match r {
                Ok(n2) => spec_o_point_tag(o, t@) == Ok::<OPoint, ErrorV>(n2),
                Err(e) => spec_o_point_tag(o, t@) == Err::<OPoint, ErrorV>(e@),
            },
    {
        match ObjectDataParser::expect_kind(t, NodeKind::OPointTag) {
            Ok(_) => {},
            Err(e) => {
                return Err(e);
            },
        }
        proof {
            lemma_node_seq_view(t.children@);
        }
        if t.children.len() < 1 {
            return Err(Error::GrammarSingle { rule_expected: NodeKind::OPointTag, found: None });
        }
        Self::apply_tag_value(o, &t.children[0])
    }

    /// Reads a record from a `OPoint` node.
    pub fn from_node(n: &Node) -> (r: Result<OPoint, Error>)
        ensures
            match r {
                Ok(v) => spec_o_point_of(n@) == Ok::<OPoint, ErrorV>(v),
                Err(e) => spec_o_point_of(n@) == Err::<OPoint, ErrorV>(e@),
            },
    {
        match ObjectDataParser::expect_kind(n, NodeKind::OPoint) {
            Ok(_) => {},
            Err(e) => {
                return Err(e);
            },
        }
        let data = match ObjectDataParser::child_expect(n, 0, NodeKind::OPointData) {
            Ok(d) => d,
            Err(e) => {
                return Err(e);
            },
        };
        let mut acc = OPoint::default();
        let len = data.children.len();
        proof {
            lemma_node_seq_view(data.children@);
        }
        let mut i: usize = 0;
        while i < len
            invariant
                0 <= i <= len,
                len == data@.children.len(),
                data@.children == crate::syntax::children_view(data.children),
                len == data.children@.len(),
                forall|j: int|
                    0 <= j < len ==> crate::syntax::children_view(data.children)[j]
                        == #[trigger] data.children@[j]@,
                spec_o_point_of(n@) == spec_o_point_fold(acc, data@.children, i as int),
            decreases len - i,
        {
            let t = &data.children[i];
            acc = match Self::apply_tag(acc, t) {
                Ok(n2) => n2,
                Err(e) => {
                    return Err(e);
                },
            };
            i = i + 1;
        }
        Ok(acc)
    }
}

} // verus!

verus! {

impl OPointKindParseError {
    /// A human-readable description of the failure. On an invalid value it
    /// quotes the value and enumerates the valid codes.
    pub fn message(&self) -> (r: String)
        ensures
            self matches OPointKindParseError::ParseIntError(e) ==> r@ == e.spec_message(),
            self matches OPointKindParseError::InvalidValue(v) ==> crate::text::contains_seq(
                r@,
                crate::text::spec_u64_string(v as u64),
            ) && crate::text::contains_seq(
                r@,
                "` is not recognized as a valid `OPointKind` value.\nValid values are [1 (Spawn), 2 (HoldLightWeapon)]."@,
            ),
    {
        match self {
            OPointKindParseError::ParseIntError(e) => e.message(),
            OPointKindParseError::InvalidValue(v) => {
                let mut s = String::new();
                crate::text::push_str(&mut s, "`");
                let ghost a = s@;
                let digits = crate::text::u64_to_string(*v as u64);
                crate::text::push_str(&mut s, digits.as_str());
                proof {
                    crate::text::lemma_contains_suffix(a, digits@);
                }
                let ghost b = s@;
                crate::text::push_str(
                    &mut s,
                    "` is not recognized as a valid `OPointKind` value.\nValid values are [1 (Spawn), 2 (HoldLightWeapon)].",
                );
                proof {
                    crate::text::lemma_contains_extend(b, "` is not recognized as a valid `OPointKind` value.\nValid values are [1 (Spawn), 2 (HoldLightWeapon)]."@, digits@);
                    crate::text::lemma_contains_suffix(b, "` is not recognized as a valid `OPointKind` value.\nValid values are [1 (Spawn), 2 (HoldLightWeapon)]."@);
                }
                s
            },
        }
    }
}

} // verus!
