//! Weapon point: holding a weapon, being held as one, or dropping one.

use vstd::prelude::*;

use crate::error::{spec_grammar_single, Error, ErrorV, SourceRef};
use crate::object_data_parser::{spec_child_expect, spec_tag_value, ObjectDataParser};
use crate::syntax::{lemma_node_seq_view, Node, NodeKind, NodeV};
use crate::frame_number_next::FrameNumberNext;
use crate::numeric::{parse_i32, parse_i64, parse_isize, parse_u32, parse_usize, spec_parse_i32, spec_parse_i64, spec_parse_isize, spec_parse_u32, spec_parse_usize, IntParseError};
use crate::weapon_strength_index::WeaponStrengthIndex;

verus! {

/// Which role the weapon point plays.
#[derive(Clone, Copy, Debug, PartialEq, Eq, Structural)]
pub enum WPointKind {
    /// The object is holding a weapon here.
    Holding,
    /// The object is held as a weapon by this point.
    Held,
    /// A held weapon is dropped.
    Dropping,
}

/// Why a `wpoint: kind:` value failed to parse.
#[derive(Clone, Copy, Debug, PartialEq, Eq, Structural)]
pub enum WPointKindParseError {
    /// The token is not an integer.
    ParseIntError(IntParseError),
    /// The integer is not a valid weapon point kind code.
    InvalidValue(u32),
}

impl WPointKind {
    /// The numeric code of this kind.
    pub open spec fn spec_code(self) -> u32 {
        match self {
            WPointKind::Holding => 1,
            WPointKind::Held => 2,
            WPointKind::Dropping => 3,
        }
    }

    /// Returns this kind's numeric code.
    pub fn code(self) -> (r: u32)
        ensures
            r == self.spec_code(),
    {
        match self {
            WPointKind::Holding => 1,
            WPointKind::Held => 2,
            WPointKind::Dropping => 3,
        }
    }

    /// Meaning of an integer code as a weapon point kind.
    pub open spec fn spec_from_code(v: u32) -> Result<WPointKind, WPointKindParseError> {
        if v == 1 {
            Ok(WPointKind::Holding)
        } else if v == 2 {
            Ok(WPointKind::Held)
        } else if v == 3 {
            Ok(WPointKind::Dropping)
        } else {
            Err(WPointKindParseError::InvalidValue(v))
        }
    }

    /// Meaning of a source token as a weapon point kind.
    pub open spec fn spec_from_str(s: Seq<char>) -> Result<WPointKind, WPointKindParseError> {
        match spec_parse_u32(s) {
            Ok(v) => Self::spec_from_code(v),
            Err(e) => Err(WPointKindParseError::ParseIntError(e)),
        }
    }

    /// Reads a weapon point kind from its source token.
    pub fn from_str(s: &str) -> (r: Result<WPointKind, WPointKindParseError>)
        ensures
            r == Self::spec_from_str(s@),
    {
        match parse_u32(s) {
            Ok(v) => if v == 1 {
                Ok(WPointKind::Holding)
            } else if v == 2 {
                Ok(WPointKind::Held)
            } else if v == 3 {
                Ok(WPointKind::Dropping)
            } else {
                Err(WPointKindParseError::InvalidValue(v))
            },
            Err(e) => Err(WPointKindParseError::ParseIntError(e)),
        }
    }
}

impl Default for WPointKind {
    /// Holding a weapon.
    fn default() -> (r: WPointKind)
        ensures
            r == WPointKind::Holding,
    {
        WPointKind::Holding
    }
}

/// Law: every valid weapon point kind code round-trips, and no two kinds
/// share a code.
pub proof fn lemma_w_point_kind_round_trip(v: u32, k: WPointKind)
    ensures
        WPointKind::spec_from_code(v) matches Ok(k2) ==> k2.spec_code() == v,
        WPointKind::spec_from_code(k.spec_code()) == Ok::<WPointKind, WPointKindParseError>(k),
{
}

/// Controls a held light or heavy weapon.
#[derive(Clone, Copy, Debug, PartialEq, Eq, Structural)]
pub struct WPoint {
    /// Holding, held, or dropping.
    pub kind: WPointKind,
    /// X coordinate.
    pub x: i32,
    /// Y coordinate.
    pub y: i32,
    /// Frame number the held weapon uses; only for the holding kind.
    pub weapon_act: FrameNumberNext,
    /// Which weapon strength entry to use when attacking.
    pub attacking: WeaponStrengthIndex,
    /// Acceleration on the X axis to throw the weapon with.
    pub d_vx: i64,
    /// Acceleration on the Y axis to throw the weapon with.
    pub d_vy: i64,
}

impl Default for WPoint {
    /// A holding point at the origin with no throw and no strength entry.
    fn default() -> (r: WPoint)
        ensures
            r == (WPoint {
                kind: WPointKind::Holding,
                x: 0i32,
                y: 0i32,
                weapon_act: FrameNumberNext(0isize),
                attacking: WeaponStrengthIndex(0usize),
                d_vx: 0i64,
                d_vy: 0i64,
            }),
    {
        WPoint {
            kind: WPointKind::Holding,
            x: 0,
            y: 0,
            weapon_act: FrameNumberNext(0),
            attacking: WeaponStrengthIndex(0),
            d_vx: 0,
            d_vy: 0,
        }
    }
}

} // verus!

// The walker: how a `WPoint` node becomes a `WPoint` record.

verus! {

/// Applies one tag (the inner tag node of a `WPointTag`) to `w`.
/// A tag kind this element does not know leaves `w` unchanged.
pub open spec fn spec_w_point_tag_value(w: WPoint, tag: NodeV) -> Result<WPoint, ErrorV> {
    if tag.kind == NodeKind::TagKind {
        match spec_tag_value(tag) {
            Err(e) => Err(e),
            Ok(v) => match WPointKind::spec_from_str(v.text) {
                Ok(k) => Ok(WPoint { kind: k, ..w }),
                Err(e) => Err(
                    ErrorV::ParseWPointKind { value: SourceRef::spec_of_node(v), error: e },
                ),
            },
        }
    } else if tag.kind == NodeKind::TagX {
        match spec_tag_value(tag) {
            Err(e) => Err(e),
            Ok(v) => match spec_parse_i32(v.text) {
                Ok(val) => Ok(WPoint { x: val, ..w }),
                Err(e) => Err(
                    ErrorV::ParseInt { field: "x"@, value: SourceRef::spec_of_node(v), error: e },
                ),
            },
        }
    } else if tag.kind == NodeKind::TagY {
        match spec_tag_value(tag) {
            Err(e) => Err(e),
            Ok(v) => match spec_parse_i32(v.text) {
                Ok(val) => Ok(WPoint { y: val, ..w }),
                Err(e) => Err(
                    ErrorV::ParseInt { field: "y"@, value: SourceRef::spec_of_node(v), error: e },
                ),
            },
        }
    } else if tag.kind == NodeKind::TagWeaponAct {
        match spec_tag_value(tag) {
            Err(e) => Err(e),
            Ok(v) => match spec_parse_isize(v.text) {
                Ok(val) => Ok(WPoint { weapon_act: FrameNumberNext(val), ..w }),
                Err(e) => Err(
                    ErrorV::ParseWeaponAct { value: SourceRef::spec_of_node(v), error: e },
                ),
            },
        }
    } else if tag.kind == NodeKind::TagAttacking {
        match spec_tag_value(tag) {
            Err(e) => Err(e),
            Ok(v) => match spec_parse_usize(v.text) {
                Ok(val) => Ok(WPoint { attacking: WeaponStrengthIndex(val), ..w }),
                Err(e) => Err(
                    ErrorV::ParseWeaponStrengthIndex { value: SourceRef::spec_of_node(v), error: e },
                ),
            },
        }
    } else if tag.kind == NodeKind::TagDVx {
        match spec_tag_value(tag) {
            Err(e) => Err(e),
            Ok(v) => match spec_parse_i64(v.text) {
                Ok(val) => Ok(WPoint { d_vx: val, ..w }),
                Err(e) => Err(
                    ErrorV::ParseInt { field: "dvx"@, value: SourceRef::spec_of_node(v), error: e },
                ),
            },
        }
    } else if tag.kind == NodeKind::TagDVy {
        match spec_tag_value(tag) {
            Err(e) => Err(e),
            Ok(v) => match spec_parse_i64(v.text) {
                Ok(val) => Ok(WPoint { d_vy: val, ..w }),
                Err(e) => Err(
                    ErrorV::ParseInt { field: "dvy"@, value: SourceRef::spec_of_node(v), error: e },
                ),
            },
        }
    } else {
        Ok(w)
    }
}

/// Applies one `WPointTag` node to `w`.
pub open spec fn spec_w_point_tag(w: WPoint, t: NodeV) -> Result<WPoint, ErrorV> {
    if t.kind != NodeKind::WPointTag {
        Err(spec_grammar_single(NodeKind::WPointTag, Some(t)))
    } else if t.children.len() < 1 {
        Err(spec_grammar_single(NodeKind::WPointTag, None))
    } else {
        spec_w_point_tag_value(w, t.children[0])
    }
}

/// Folds the tag nodes `ts[i..]` onto `w`, stopping at the first error.
pub open spec fn spec_w_point_fold(w: WPoint, ts: Seq<NodeV>, i: int) -> Result<WPoint, ErrorV>
    decreases ts.len() - i,
{
    if i < 0 || i >= ts.len() {
        Ok(w)
    } else {
        match spec_w_point_tag(w, ts[i]) {
            Err(e) => Err(e),
            Ok(n2) => spec_w_point_fold(n2, ts, i + 1),
        }
    }
}

/// Meaning of a `WPoint` node as a record: its tags applied in order to
/// the default record.
pub open spec fn spec_w_point_of(n: NodeV) -> Result<WPoint, ErrorV> {
    if n.kind != NodeKind::WPoint {
        Err(spec_grammar_single(NodeKind::WPoint, Some(n)))
    } else {
        match spec_child_expect(n, 0, NodeKind::WPointData) {
            Err(e) => Err(e),
            Ok(data) => spec_w_point_fold(WPoint {
                kind: WPointKind::Holding,
                x: 0,
                y: 0,
                weapon_act: FrameNumberNext(0),
                attacking: WeaponStrengthIndex(0),
                d_vx: 0,
                d_vy: 0,
            }, data.children, 0),
        }
    }
}

impl WPoint {
    /// Applies one inner tag node to `w`.
    fn apply_tag_value(w: WPoint, tag: &Node) -> (r: Result<WPoint, Error>)
        ensures
            match r {
                Ok(n2) => spec_w_point_tag_value(w, tag@) == Ok::<WPoint, ErrorV>(n2),
                Err(e) => spec_w_point_tag_value(w, tag@) == Err::<WPoint, ErrorV>(e@),
            },
    {
        match tag.kind {
            NodeKind::TagKind => {
                let v = match ObjectDataParser::parse_value(tag) {
                    Ok(v) => v,
                    Err(e) => {
                        return Err(e);
                    },
                };
                match WPointKind::from_str(v.text.as_str()) {
                    Ok(k) => Ok(WPoint { kind: k, ..w }),
                    Err(e) => Err(
                        Error::ParseWPointKind { value: SourceRef::of_node(v), error: e },
                    ),
                }
            },
            NodeKind::TagX => {
                let v = match ObjectDataParser::parse_value(tag) {
                    Ok(v) => v,
                    Err(e) => {
                        return Err(e);
                    },
                };
                match parse_i32(v.text.as_str()) {
                    Ok(val) => Ok(WPoint { x: val, ..w }),
                    Err(e) => Err(
                        Error::ParseInt { field: "x", value: SourceRef::of_node(v), error: e },
                    ),
                }
            },
            NodeKind::TagY => {
                let v = match ObjectDataParser::parse_value(tag) {
                    Ok(v) => v,
                    Err(e) => {
                        return Err(e);
                    },
                };
                match parse_i32(v.text.as_str()) {
                    Ok(val) => Ok(WPoint { y: val, ..w }),
                    Err(e) => Err(
                        Error::ParseInt { field: "y", value: SourceRef::of_node(v), error: e },
                    ),
                }
            },
            NodeKind::TagWeaponAct => {
                let v = match ObjectDataParser::parse_value(tag) {
                    Ok(v) => v,
                    Err(e) => {
                        return Err(e);
                    },
                };
                match parse_isize(v.text.as_str()) {
                    Ok(val) => Ok(WPoint { weapon_act: FrameNumberNext(val), ..w }),
                    Err(e) => Err(
                        Error::ParseWeaponAct { value: SourceRef::of_node(v), error: e },
                    ),
                }
            },
            NodeKind::TagAttacking => {
                let v = match ObjectDataParser::parse_value(tag) {
                    Ok(v) => v,
                    Err(e) => {
                        return Err(e);
                    },
                };
                match parse_usize(v.text.as_str()) {
                    Ok(val) => Ok(WPoint { attacking: WeaponStrengthIndex(val), ..w }),
                    Err(e) => Err(
                        Error::ParseWeaponStrengthIndex { value: SourceRef::of_node(v), error: e },
                    ),
                }
            },
            NodeKind::TagDVx => {
                let v = match ObjectDataParser::parse_value(tag) {
                    Ok(v) => v,
                    Err(e) => {
                        return Err(e);
                    },
                };
                match parse_i64(v.text.as_str()) {
                    Ok(val) => Ok(WPoint { d_vx: val, ..w }),
                    Err(e) => Err(
                        Error::ParseInt { field: "dvx", value: SourceRef::of_node(v), error: e },
                    ),
                }
            },
            NodeKind::TagDVy => {
                let v = match ObjectDataParser::parse_value(tag) {
                    Ok(v) => v,
                    Err(e) => {
                        return Err(e);
                    },
                };
                match parse_i64(v.text.as_str()) {
                    Ok(val) => Ok(WPoint { d_vy: val, ..w }),
                    Err(e) => Err(
                        Error::ParseInt { field: "dvy", value: SourceRef::of_node(v), error: e },
                    ),
                }
            },
            _ => Ok(w),
        }
    }

    /// Applies one `WPointTag` node to `w`.
    fn apply_tag(w: WPoint, t: &Node) -> (r: Result<WPoint, Error>)
        ensures
            match r {
                Ok(n2) => spec_w_point_tag(w, t@) == Ok::<WPoint, ErrorV>(n2),
                Err(e) => spec_w_point_tag(w, t@) == Err::<WPoint, ErrorV>(e@),
            },
    {
        match ObjectDataParser::expect_kind(t, NodeKind::WPointTag) {
            Ok(_) => {},
            Err(e) => {
                return Err(e);
            },
        }
        proof {
            lemma_node_seq_view(t.children@);
        }
        if t.children.len() < 1 {
            return Err(Error::GrammarSingle { rule_expected: NodeKind::WPointTag, found: None });
        }
        Self::apply_tag_value(w, &t.children[0])
    }

    /// Reads a record from a `WPoint` node.
    pub fn from_node(n: &Node) -> (r: Result<WPoint, Error>)
        ensures
            match r {
                Ok(v) => spec_w_point_of(n@) == Ok::<WPoint, ErrorV>(v),
                Err(e) => spec_w_point_of(n@) == Err::<WPoint, ErrorV>(e@),
            },
    {
        match ObjectDataParser::expect_kind(n, NodeKind::WPoint) {
            Ok(_) => {},
            Err(e) => {
                return Err(e);
            },
        }
        let data = match ObjectDataParser::child_expect(n, 0, NodeKind::WPointData) {
            Ok(d) => d,
            Err(e) => {
                return Err(e);
            },
        };
        let mut acc = WPoint::default();
        let len = data.children.len();
        proof {
            lemma_node_seq_view(data.children@);
        }
        let mut i: usize = 0;
        while i < len
            invariant
                0 <= i <= len,
                len == data@.children.len(),
                data@.children == crate::syntax::children_view(data.children),
                len == data.children@.len(),
                forall|j: int|
                    0 <= j < len ==> crate::syntax::children_view(data.children)[j]
                        == #[trigger] data.children@[j]@,
                spec_w_point_of(n@) == spec_w_point_fold(acc, data@.children, i as int),
            decreases len - i,
        {
            let t = &data.children[i];
            acc = match Self::apply_tag(acc, t) {
                Ok(n2) => n2,
                Err(e) => {
                    return Err(e);
                },
            };
            i = i + 1;
        }
        Ok(acc)
    }
}

} // verus!

verus! {

impl WPointKindParseError {
    /// A human-readable description of the failure. On an invalid value it
    /// quotes the value and enumerates the valid codes.
    pub fn message(&self) -> (r: String)
        ensures
            self matches WPointKindParseError::ParseIntError(e) ==> r@ == e.spec_message(),
            self matches WPointKindParseError::InvalidValue(v) ==> crate::text::contains_seq(
                r@,
                crate::text::spec_u64_string(v as u64),
            ) && crate::text::contains_seq(
                r@,
                "` is not recognized as a valid `WPointKind` value.\nValid values are [1 (Holding), 2 (Held), 3 (Dropping)]."@,
            ),
    {
        match self {
            WPointKindParseError::ParseIntError(e) => e.message(),
            WPointKindParseError::InvalidValue(v) => {
                let mut s = String::new();
                crate::text::push_str(&mut s, "`");
                let ghost a = s@;
                let digits = crate::text::u64_to_string(*v as u64);
                crate::text::push_str(&mut s, digits.as_str());
                proof {
                    crate::text::lemma_contains_suffix(a, digits@);
                }
                let ghost b = s@;
                crate::text::push_str(
                    &mut s,
                    "` is not recognized as a valid `WPointKind` value.\nValid values are [1 (Holding), 2 (Held), 3 (Dropping)].",
                );
                proof {
                    crate::text::lemma_contains_extend(b, "` is not recognized as a valid `WPointKind` value.\nValid values are [1 (Holding), 2 (Held), 3 (Dropping)]."@, digits@);
                    crate::text::lemma_contains_suffix(b, "` is not recognized as a valid `WPointKind` value.\nValid values are [1 (Holding), 2 (Held), 3 (Dropping)]."@);
                }
                s
            },
        }
    }
}

} // verus!
