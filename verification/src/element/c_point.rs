//! Catch point: aligns a catching object and a caught character.

use vstd::prelude::*;

use crate::error::{spec_grammar_single, Error, ErrorV, SourceRef};
use crate::object_data_parser::{spec_child_expect, spec_tag_value, ObjectDataParser};
use crate::syntax::{lemma_node_seq_view, Node, NodeKind, NodeV};
use crate::frame_number::FrameNumber;
use crate::frame_number_next::FrameNumberNext;
use crate::numeric::{parse_i32, parse_isize, parse_u32, parse_usize, spec_parse_i32, spec_parse_isize, spec_parse_u32, spec_parse_usize, IntParseError};

verus! {

/// Which side of a catch this point describes.
#[derive(Clone, Copy, Debug, PartialEq, Eq, Structural)]
pub enum CPointKind {
    /// The object that is holding the character.
    Catcher,
    /// The held character.
    Caught,
}

/// Why a `cpoint: kind:` value failed to parse.
#[derive(Clone, Copy, Debug, PartialEq, Eq, Structural)]
pub enum CPointKindParseError {
    /// The token is not an integer.
    ParseIntError(IntParseError),
    /// The integer is not a valid catch point kind code.
    InvalidValue(u32),
}

impl CPointKind {
    /// The numeric code of this kind.
    pub open spec fn spec_code(self) -> u32 {
        match self {
            CPointKind::Catcher => 1,
            CPointKind::Caught => 2,
        }
    }

    /// Returns this kind's numeric code.
    pub fn code(self) -> (r: u32)
        ensures
            r == self.spec_code(),
    {
        match self {
            CPointKind::Catcher => 1,
            CPointKind::Caught => 2,
        }
    }

    /// Meaning of an integer code as a catch point kind.
    pub open spec fn spec_from_code(v: u32) -> Result<CPointKind, CPointKindParseError> {
        if v == 1 {
            Ok(CPointKind::Catcher)
        } else if v == 2 {
            Ok(CPointKind::Caught)
        } else {
            Err(CPointKindParseError::InvalidValue(v))
        }
    }

    /// Meaning of a source token as a catch point kind.
    pub open spec fn spec_from_str(s: Seq<char>) -> Result<CPointKind, CPointKindParseError> {
        match spec_parse_u32(s) {
            Ok(v) => Self::spec_from_code(v),
            Err(e) => Err(CPointKindParseError::ParseIntError(e)),
        }
    }

    /// Reads a catch point kind from its source token.
    pub fn from_str(s: &str) -> (r: Result<CPointKind, CPointKindParseError>)
        ensures
            r == Self::spec_from_str(s@),
    {
        match parse_u32(s) {
            Ok(v) => if v == 1 {
                Ok(CPointKind::Catcher)
            } else if v == 2 {
                Ok(CPointKind::Caught)
            } else {
                Err(CPointKindParseError::InvalidValue(v))
            },
            Err(e) => Err(CPointKindParseError::ParseIntError(e)),
        }
    }
}

impl Default for CPointKind {
    /// The catching side.
    fn default() -> (r: CPointKind)
        ensures
            r == CPointKind::Catcher,
    {
        CPointKind::Catcher
    }
}

/// Law: every valid catch point kind code round-trips, and no two kinds
/// share a code.
pub proof fn lemma_c_point_kind_round_trip(v: u32, k: CPointKind)
    ensures
        CPointKind::spec_from_code(v) matches Ok(k2) ==> k2.spec_code() == v,
        CPointKind::spec_from_code(k.spec_code()) == Ok::<CPointKind, CPointKindParseError>(k),
{
}

/// Catch point: aligns the character that is holding and the one being
/// held, and says how the hold plays out.
#[derive(Clone, Copy, Debug, PartialEq, Eq, Structural)]
pub struct CPoint {
    /// Catching object or caught character.
    pub kind: CPointKind,
    /// X coordinate; both sides' catch points align.
    pub x: i32,
    /// Y coordinate; both sides' catch points align.
    pub y: i32,
    /// Whether the caught character is drawn in front of the catcher.
    pub cover: bool,
    /// Catching timer decrease value.
    pub decrease: i32,
    /// Whether the catcher may switch direction while holding.
    pub dir_control: bool,
    /// Whether other characters can hurt the caught character.
    pub hurtable: bool,
    /// Damage dealt to the caught character per hit.
    pub injury: i32,
    /// Frame to switch to when the attack button is pressed.
    pub a_action: FrameNumberNext,
    /// Frame to switch to when the jump button is pressed.
    pub j_action: FrameNumberNext,
    /// Frame the caught character is held on.
    pub v_action: FrameNumber,
    /// Frame upon holding a direction and pressing attack.
    pub t_action: FrameNumberNext,
    /// Health the caught character loses when thrown onto the ground.
    pub throw_injury: i32,
    /// Throw velocity in the X axis.
    pub throw_vx: i32,
    /// Throw velocity in the Y axis.
    pub throw_vy: i32,
    /// Throw velocity in the Z axis.
    pub throw_vz: i32,
    /// Frame the caught character switches to when hit from the front.
    pub front_hurt_act: FrameNumberNext,
    /// Frame the caught character switches to when hit from the back.
    pub back_hurt_act: FrameNumberNext,
}

impl Default for CPoint {
    /// A catcher-side point at the origin with every optional field zero.
    fn default() -> (r: CPoint)
        ensures
            r == (CPoint {
                kind: CPointKind::Catcher,
                x: 0i32,
                y: 0i32,
                cover: false,
                decrease: 0i32,
                dir_control: false,
                hurtable: false,
                injury: 0i32,
                a_action: FrameNumberNext(0isize),
                j_action: FrameNumberNext(0isize),
                v_action: FrameNumber(0usize),
                t_action: FrameNumberNext(0isize),
                throw_injury: 0i32,
                throw_vx: 0i32,
                throw_vy: 0i32,
                throw_vz: 0i32,
                front_hurt_act: FrameNumberNext(0isize),
                back_hurt_act: FrameNumberNext(0isize),
            }),
    {
        CPoint {
            kind: CPointKind::Catcher,
            x: 0,
            y: 0,
            cover: false,
            decrease: 0,
            dir_control: false,
            hurtable: false,
            injury: 0,
            a_action: FrameNumberNext(0),
            j_action: FrameNumberNext(0),
            v_action: FrameNumber(0),
            t_action: FrameNumberNext(0),
            throw_injury: 0,
            throw_vx: 0,
            throw_vy: 0,
            throw_vz: 0,
            front_hurt_act: FrameNumberNext(0),
            back_hurt_act: FrameNumberNext(0),
        }
    }
}

} // verus!

// The walker: how a `CPoint` node becomes a `CPoint` record.

verus! {

/// Applies one tag (the inner tag node of a `CPointTag`) to `c`.
/// A tag kind this element does not know leaves `c` unchanged.
pub open spec fn spec_c_point_tag_value(c: CPoint, tag: NodeV) -> Result<CPoint, ErrorV> {
    if tag.kind == NodeKind::TagKind {
        match spec_tag_value(tag) {
            Err(e) => Err(e),
            Ok(v) => match CPointKind::spec_from_str(v.text) {
                Ok(k) => Ok(CPoint { kind: k, ..c }),
                Err(e) => Err(
                    ErrorV::ParseCPointKind { value: SourceRef::spec_of_node(v), error: e },
                ),
            },
        }
    } else if tag.kind == NodeKind::TagX {
        match spec_tag_value(tag) {
            Err(e) => Err(e),
            Ok(v) => match spec_parse_i32(v.text) {
                Ok(val) => Ok(CPoint { x: val, ..c }),
                Err(e) => Err(
                    ErrorV::ParseInt { field: "x"@, value: SourceRef::spec_of_node(v), error: e },
                ),
            },
        }
    } else if tag.kind == NodeKind::TagY {
        match spec_tag_value(tag) {
            Err(e) => Err(e),
            Ok(v) => match spec_parse_i32(v.text) {
                Ok(val) => Ok(CPoint { y: val, ..c }),
                Err(e) => Err(
                    ErrorV::ParseInt { field: "y"@, value: SourceRef::spec_of_node(v), error: e },
                ),
            },
        }
    } else if tag.kind == NodeKind::TagCover {
        match spec_tag_value(tag) {
            Err(e) => Err(e),
            Ok(v) => match spec_parse_u32(v.text) {
                Ok(val) => Ok(CPoint { cover: val != 0, ..c }),
                Err(e) => Err(
                    ErrorV::ParseInt { field: "cover"@, value: SourceRef::spec_of_node(v), error: e },
                ),
            },
        }
    } else if tag.kind == NodeKind::TagDecrease {
        match spec_tag_value(tag) {
            Err(e) => Err(e),
            Ok(v) => match spec_parse_i32(v.text) {
                Ok(val) => Ok(CPoint { decrease: val, ..c }),
                Err(e) => Err(
                    ErrorV::ParseInt { field: "decrease"@, value: SourceRef::spec_of_node(v), error: e },
                ),
            },
        }
    } else if tag.kind == NodeKind::TagDirControl {
        match spec_tag_value(tag) {
            Err(e) => Err(e),
            Ok(v) => match spec_parse_u32(v.text) {
                Ok(val) => Ok(CPoint { dir_control: val != 0, ..c }),
                Err(e) => Err(
                    ErrorV::ParseInt { field: "dir_control"@, value: SourceRef::spec_of_node(v), error: e },
                ),
            },
        }
    } else if tag.kind == NodeKind::TagHurtable {
        match spec_tag_value(tag) {
            Err(e) => Err(e),
            Ok(v) => match spec_parse_u32(v.text) {
                Ok(val) => Ok(CPoint { hurtable: val != 0, ..c }),
                Err(e) => Err(
                    ErrorV::ParseInt { field: "hurtable"@, value: SourceRef::spec_of_node(v), error: e },
                ),
            },
        }
    } else if tag.kind == NodeKind::TagInjury {
        match spec_tag_value(tag) {
            Err(e) => Err(e),
            Ok(v) => match spec_parse_i32(v.text) {
                Ok(val) => Ok(CPoint { injury: val, ..c }),
                Err(e) => Err(
                    ErrorV::ParseInt { field: "injury"@, value: SourceRef::spec_of_node(v), error: e },
                ),
            },
        }
    } else if tag.kind == NodeKind::TagAAction {
        match spec_tag_value(tag) {
            Err(e) => Err(e),
            Ok(v) => match spec_parse_isize(v.text) {
                Ok(val) => Ok(CPoint { a_action: FrameNumberNext(val), ..c }),
                Err(e) => Err(
                    ErrorV::ParseInt { field: "a_action"@, value: SourceRef::spec_of_node(v), error: e },
                ),
            },
        }
    } else if tag.kind == NodeKind::TagJAction {
        match spec_tag_value(tag) {
            Err(e) => Err(e),
            Ok(v) => match spec_parse_isize(v.text) {
                Ok(val) => Ok(CPoint { j_action: FrameNumberNext(val), ..c }),
                Err(e) => Err(
                    ErrorV::ParseInt { field: "j_action"@, value: SourceRef::spec_of_node(v), error: e },
                ),
            },
        }
    } else if tag.kind == NodeKind::TagVAction {
        match spec_tag_value(tag) {
            Err(e) => Err(e),
            Ok(v) => match spec_parse_usize(v.text) {
                Ok(val) => Ok(CPoint { v_action: FrameNumber(val), ..c }),
                Err(e) => Err(
                    ErrorV::ParseInt { field: "v_action"@, value: SourceRef::spec_of_node(v), error: e },
                ),
            },
        }
    } else if tag.kind == NodeKind::TagTAction {
        match spec_tag_value(tag) {
            Err(e) => Err(e),
            Ok(v) => match spec_parse_isize(v.text) {
                Ok(val) => Ok(CPoint { t_action: FrameNumberNext(val), ..c }),
                Err(e) => Err(
                    ErrorV::ParseInt { field: "t_action"@, value: SourceRef::spec_of_node(v), error: e },
                ),
            },
        }
    } else if tag.kind == NodeKind::TagThrowInjury {
        match spec_tag_value(tag) {
            Err(e) => Err(e),
            Ok(v) => match spec_parse_i32(v.text) {
                Ok(val) => Ok(CPoint { throw_injury: val, ..c }),
                Err(e) => Err(
                    ErrorV::ParseInt { field: "throw_injury"@, value: SourceRef::spec_of_node(v), error: e },
                ),
            },
        }
    } else if tag.kind == NodeKind::TagThrowVx {
        match spec_tag_value(tag) {
            Err(e) => Err(e),
            Ok(v) => match spec_parse_i32(v.text) {
                Ok(val) => Ok(CPoint { throw_vx: val, ..c }),
                Err(e) => Err(
                    ErrorV::ParseInt { field: "throw_vx"@, value: SourceRef::spec_of_node(v), error: e },
                ),
            },
        }
    } else if tag.kind == NodeKind::TagThrowVy {
        match spec_tag_value(tag) {
            Err(e) => Err(e),
            Ok(v) => match spec_parse_i32(v.text) {
                Ok(val) => Ok(CPoint { throw_vy: val, ..c }),
                Err(e) => Err(
                    ErrorV::ParseInt { field: "throw_vy"@, value: SourceRef::spec_of_node(v), error: e },
                ),
            },
        }
    } else if tag.kind == NodeKind::TagThrowVz {
        match spec_tag_value(tag) {
            Err(e) => Err(e),
            Ok(v) => match spec_parse_i32(v.text) {
                Ok(val) => Ok(CPoint { throw_vz: val, ..c }),
                Err(e) => Err(
                    ErrorV::ParseInt { field: "throw_vz"@, value: SourceRef::spec_of_node(v), error: e },
                ),
            },
        }
    } else if tag.kind == NodeKind::TagFrontHurtAct {
        match spec_tag_value(tag) {
            Err(e) => Err(e),
            Ok(v) => match spec_parse_isize(v.text) {
                Ok(val) => Ok(CPoint { front_hurt_act: FrameNumberNext(val), ..c }),
                Err(e) => Err(
                    ErrorV::ParseInt { field: "front_hurt_act"@, value: SourceRef::spec_of_node(v), error: e },
                ),
            },
        }
    } else if tag.kind == NodeKind::TagBackHurtAct {
        match spec_tag_value(tag) {
            Err(e) => Err(e),
            Ok(v) => match spec_parse_isize(v.text) {
                Ok(val) => Ok(CPoint { back_hurt_act: FrameNumberNext(val), ..c }),
                Err(e) => Err(
                    ErrorV::ParseInt { field: "back_hurt_act"@, value: SourceRef::spec_of_node(v), error: e },
                ),
            },
        }
    } else {
        Ok(c)
    }
}

/// Applies one `CPointTag` node to `c`.
pub open spec fn spec_c_point_tag(c: CPoint, t: NodeV) -> Result<CPoint, ErrorV> {
    if t.kind != NodeKind::CPointTag {
        Err(spec_grammar_single(NodeKind::CPointTag, Some(t)))
    } else if t.children.len() < 1 {
        Err(spec_grammar_single(NodeKind::CPointTag, None))
    } else {
        spec_c_point_tag_value(c, t.children[0])
    }
}

/// Folds the tag nodes `ts[i..]` onto `c`, stopping at the first error.
pub open spec fn spec_c_point_fold(c: CPoint, ts: Seq<NodeV>, i: int) -> Result<CPoint, ErrorV>
    decreases ts.len() - i,
{
    if i < 0 || i >= ts.len() {
        Ok(c)
    } else {
        match spec_c_point_tag(c, ts[i]) {
            Err(e) => Err(e),
            Ok(n2) => spec_c_point_fold(n2, ts, i + 1),
        }
    }
}

/// Meaning of a `CPoint` node as a record: its tags applied in order to
/// the default record.
pub open spec fn spec_c_point_of(n: NodeV) -> Result<CPoint, ErrorV> {
    if n.kind != NodeKind::CPoint {
        Err(spec_grammar_single(NodeKind::CPoint, Some(n)))
    } else {
        match spec_child_expect(n, 0, NodeKind::CPointData) {
            Err(e) => Err(e),
            Ok(data) => spec_c_point_fold(CPoint {
                kind: CPointKind::Catcher,
                x: 0,
                y: 0,
                cover: false,
                decrease: 0,
                dir_control: false,
                hurtable: false,
                injury: 0,
                a_action: FrameNumberNext(0),
                j_action: FrameNumberNext(0),
                v_action: FrameNumber(0),
                t_action: FrameNumberNext(0),
                throw_injury: 0,
                throw_vx: 0,
                throw_vy: 0,
                throw_vz: 0,
                front_hurt_act: FrameNumberNext(0),
                back_hurt_act: FrameNumberNext(0),
            }, data.children, 0),
        }
    }
}

impl CPoint {
    /// Applies one inner tag node to `c`.
    #[verifier::rlimit(60)]
    fn apply_tag_value(c: CPoint, tag: &Node) -> (r: Result<CPoint, Error>)
        ensures
            match r {
                Ok(n2) => spec_c_point_tag_value(c, tag@) == Ok::<CPoint, ErrorV>(n2),
                Err(e) => spec_c_point_tag_value(c, tag@) == Err::<CPoint, ErrorV>(e@),
            },
    {
        match tag.kind {
            NodeKind::TagKind => {
                let v = match ObjectDataParser::parse_value(tag) {
                    Ok(v) => v,
                    Err(e) => {
                        return Err(e);
                    },
                };
                match CPointKind::from_str(v.text.as_str()) {
                    Ok(k) => Ok(CPoint { kind: k, ..c }),
                    Err(e) => Err(
                        Error::ParseCPointKind { value: SourceRef::of_node(v), error: e },
                    ),
                }
            },
            NodeKind::TagX => {
                let v = match ObjectDataParser::parse_value(tag) {
                    Ok(v) => v,
                    Err(e) => {
                        return Err(e);
                    },
                };
                match parse_i32(v.text.as_str()) {
                    Ok(val) => Ok(CPoint { x: val, ..c }),
                    Err(e) => Err(
                        Error::ParseInt { field: "x", value: SourceRef::of_node(v), error: e },
                    ),
                }
            },
            NodeKind::TagY => {
                let v = match ObjectDataParser::parse_value(tag) {
                    Ok(v) => v,
                    Err(e) => {
                        return Err(e);
                    },
                };
                match parse_i32(v.text.as_str()) {
                    Ok(val) => Ok(CPoint { y: val, ..c }),
                    Err(e) => Err(
                        Error::ParseInt { field: "y", value: SourceRef::of_node(v), error: e },
                    ),
                }
            },
            NodeKind::TagCover => {
                let v = match ObjectDataParser::parse_value(tag) {
                    Ok(v) => v,
                    Err(e) => {
                        return Err(e);
                    },
                };
                match parse_u32(v.text.as_str()) {
                    Ok(val) => Ok(CPoint { cover: val != 0, ..c }),
                    Err(e) => Err(
                        Error::ParseInt { field: "cover", value: SourceRef::of_node(v), error: e },
                    ),
                }
            },
            NodeKind::TagDecrease => {
                let v = match ObjectDataParser::parse_value(tag) {
                    Ok(v) => v,
                    Err(e) => {
                        return Err(e);
                    },
                };
                match parse_i32(v.text.as_str()) {
                    Ok(val) => Ok(CPoint { decrease: val, ..c }),
                    Err(e) => Err(
                        Error::ParseInt { field: "decrease", value: SourceRef::of_node(v), error: e },
                    ),
                }
            },
            NodeKind::TagDirControl => {
                let v = match ObjectDataParser::parse_value(tag) {
                    Ok(v) => v,
                    Err(e) => {
                        return Err(e);
                    },
                };
                match parse_u32(v.text.as_str()) {
                    Ok(val) => Ok(CPoint { dir_control: val != 0, ..c }),
                    Err(e) => Err(
                        Error::ParseInt { field: "dir_control", value: SourceRef::of_node(v), error: e },
                    ),
                }
            },
            NodeKind::TagHurtable => {
                let v = match ObjectDataParser::parse_value(tag) {
                    Ok(v) => v,
                    Err(e) => {
                        return Err(e);
                    },
                };
                match parse_u32(v.text.as_str()) {
                    Ok(val) => Ok(CPoint { hurtable: val != 0, ..c }),
                    Err(e) => Err(
                        Error::ParseInt { field: "hurtable", value: SourceRef::of_node(v), error: e },
                    ),
                }
            },
            NodeKind::TagInjury => {
                let v = match ObjectDataParser::parse_value(tag) {
                    Ok(v) => v,
                    Err(e) => {
                        return Err(e);
                    },
                };
                match parse_i32(v.text.as_str()) {
                    Ok(val) => Ok(CPoint { injury: val, ..c }),
                    Err(e) => Err(
                        Error::ParseInt { field: "injury", value: SourceRef::of_node(v), error: e },
                    ),
                }
            },
            NodeKind::TagAAction => {
                let v = match ObjectDataParser::parse_value(tag) {
                    Ok(v) => v,
                    Err(e) => {
                        return Err(e);
                    },
                };
                match parse_isize(v.text.as_str()) {
                    Ok(val) => Ok(CPoint { a_action: FrameNumberNext(val), ..c }),
                    Err(e) => Err(
                        Error::ParseInt { field: "a_action", value: SourceRef::of_node(v), error: e },
                    ),
                }
            },
            NodeKind::TagJAction => {
                let v = match ObjectDataParser::parse_value(tag) {
                    Ok(v) => v,
                    Err(e) => {
                        return Err(e);
                    },
                };
                match parse_isize(v.text.as_str()) {
                    Ok(val) => Ok(CPoint { j_action: FrameNumberNext(val), ..c }),
                    Err(e) => Err(
                        Error::ParseInt { field: "j_action", value: SourceRef::of_node(v), error: e },
                    ),
                }
            },
            NodeKind::TagVAction => {
                let v = match ObjectDataParser::parse_value(tag) {
                    Ok(v) => v,
                    Err(e) => {
                        return Err(e);
                    },
                };
                match parse_usize(v.text.as_str()) {
                    Ok(val) => Ok(CPoint { v_action: FrameNumber(val), ..c }),
                    Err(e) => Err(
                        Error::ParseInt { field: "v_action", value: SourceRef::of_node(v), error: e },
                    ),
                }
            },
            NodeKind::TagTAction => {
                let v = match ObjectDataParser::parse_value(tag) {
                    Ok(v) => v,
                    Err(e) => {
                        return Err(e);
                    },
                };
                match parse_isize(v.text.as_str()) {
                    Ok(val) => Ok(CPoint { t_action: FrameNumberNext(val), ..c }),
                    Err(e) => Err(
                        Error::ParseInt { field: "t_action", value: SourceRef::of_node(v), error: e },
                    ),
                }
            },
            NodeKind::TagThrowInjury => {
                let v = match ObjectDataParser::parse_value(tag) {
                    Ok(v) => v,
                    Err(e) => {
                        return Err(e);
                    },
                };
                match parse_i32(v.text.as_str()) {
                    Ok(val) => Ok(CPoint { throw_injury: val, ..c }),
                    Err(e) => Err(
                        Error::ParseInt { field: "throw_injury", value: SourceRef::of_node(v), error: e },
                    ),
                }
            },
            NodeKind::TagThrowVx => {
                let v = match ObjectDataParser::parse_value(tag) {
                    Ok(v) => v,
                    Err(e) => {
                        return Err(e);
                    },
                };
                match parse_i32(v.text.as_str()) {
                    Ok(val) => Ok(CPoint { throw_vx: val, ..c }),
                    Err(e) => Err(
                        Error::ParseInt { field: "throw_vx", value: SourceRef::of_node(v), error: e },
                    ),
                }
            },
            NodeKind::TagThrowVy => {
                let v = match ObjectDataParser::parse_value(tag) {
                    Ok(v) => v,
                    Err(e) => {
                        return Err(e);
                    },
                };
                match parse_i32(v.text.as_str()) {
                    Ok(val) => Ok(CPoint { throw_vy: val, ..c }),
                    Err(e) => Err(
                        Error::ParseInt { field: "throw_vy", value: SourceRef::of_node(v), error: e },
                    ),
                }
            },
            NodeKind::TagThrowVz => {
                let v = match ObjectDataParser::parse_value(tag) {
                    Ok(v) => v,
                    Err(e) => {
                        return Err(e);
                    },
                };
                match parse_i32(v.text.as_str()) {
                    Ok(val) => Ok(CPoint { throw_vz: val, ..c }),
                    Err(e) => Err(
                        Error::ParseInt { field: "throw_vz", value: SourceRef::of_node(v), error: e },
                    ),
                }
            },
            NodeKind::TagFrontHurtAct => {
                let v = match ObjectDataParser::parse_value(tag) {
                    Ok(v) => v,
                    Err(e) => {
                        return Err(e);
                    },
                };
                match parse_isize(v.text.as_str()) {
                    Ok(val) => Ok(CPoint { front_hurt_act: FrameNumberNext(val), ..c }),
                    Err(e) => Err(
                        Error::ParseInt { field: "front_hurt_act", value: SourceRef::of_node(v), error: e },
                    ),
                }
            },
            NodeKind::TagBackHurtAct => {
                let v = match ObjectDataParser::parse_value(tag) {
                    Ok(v) => v,
                    Err(e) => {
                        return Err(e);
                    },
                };
                match parse_isize(v.text.as_str()) {
                    Ok(val) => Ok(CPoint { back_hurt_act: FrameNumberNext(val), ..c }),
                    Err(e) => Err(
                        Error::ParseInt { field: "back_hurt_act", value: SourceRef::of_node(v), error: e },
                    ),
                }
            },
            _ => Ok(c),
        }
    }

    /// Applies one `CPointTag` node to `c`.
    fn apply_tag(c: CPoint, t: &Node) -> (r: Result<CPoint, Error>)
        ensures
            match r {
                Ok(n2) => spec_c_point_tag(c, t@) == Ok::<CPoint, ErrorV>(n2),
                Err(e) => spec_c_point_tag(c, t@) == Err::<CPoint, ErrorV>(e@),
            },
    {
        match ObjectDataParser::expect_kind(t, NodeKind::CPointTag) {
            Ok(_) => {},
            Err(e) => {
                return Err(e);
            },
        }
        proof {
            lemma_node_seq_view(t.children@);
        }
        if t.children.len() < 1 {
            return Err(Error::GrammarSingle { rule_expected: NodeKind::CPointTag, found: None });
        }
        Self::apply_tag_value(c, &t.children[0])
    }

    /// Reads a record from a `CPoint` node.
    pub fn from_node(n: &Node) -> (r: Result<CPoint, Error>)
        ensures
            match r {
                Ok(v) => spec_c_point_of(n@) == Ok::<CPoint, ErrorV>(v),
                Err(e) => spec_c_point_of(n@) == Err::<CPoint, ErrorV>(e@),
            },
    {
        match ObjectDataParser::expect_kind(n, NodeKind::CPoint) {
            Ok(_) => {},
            Err(e) => {
                return Err(e);
            },
        }
        let data = match ObjectDataParser::child_expect(n, 0, NodeKind::CPointData) {
            Ok(d) => d,
            Err(e) => {
                return Err(e);
            },
        };
        let mut acc = CPoint::default();
        let len = data.children.len();
        proof {
            lemma_node_seq_view(data.children@);
        }
        let mut i: usize = 0;
        while i < len
            invariant
                0 <= i <= len,
                len == data@.children.len(),
                data@.children == crate::syntax::children_view(data.children),
                len == data.children@.len(),
                forall|j: int|
                    0 <= j < len ==> crate::syntax::children_view(data.children)[j]
                        == #[trigger] data.children@[j]@,
                spec_c_point_of(n@) == spec_c_point_fold(acc, data@.children, i as int),
            decreases len - i,
        {
            let t = &data.children[i];
            acc = match Self::apply_tag(acc, t) {
                Ok(n2) => n2,
                Err(e) => {
                    return Err(e);
                },
            };
            i = i + 1;
        }
        Ok(acc)
    }
}

} // verus!

verus! {

/// A tag node that carries none of the boolean-coded tags leaves them
/// alone.
proof fn lemma_c_point_fold_bools(acc: CPoint, ts: Seq<NodeV>, i: int, c: CPoint)
    requires
        spec_c_point_fold(acc, ts, i) == Ok::<CPoint, ErrorV>(c),
        forall|j: int|
            i <= j < ts.len() ==> !((#[trigger] ts[j]).children.len() >= 1 && (ts[j].children[0].kind
                == NodeKind::TagCover || ts[j].children[0].kind == NodeKind::TagDirControl
                || ts[j].children[0].kind == NodeKind::TagHurtable)),
    ensures
        c.cover == acc.cover,
        c.dir_control == acc.dir_control,
        c.hurtable == acc.hurtable,
    decreases ts.len() - i,
{
    if 0 <= i < ts.len() {
        match spec_c_point_tag(acc, ts[i]) {
            Err(e) => {},
            Ok(acc2) => {
                lemma_c_point_fold_bools(acc2, ts, i + 1, c);
            },
        }
    }
}

/// Law: defaulting of the boolean-coded catch point tags. A `CPoint` node
/// carrying no `cover`, `dircontrol` or `hurtable` tag yields a record in
/// which each of those fields is `false`.
pub proof fn lemma_c_point_bool_defaults(n: NodeV, c: CPoint)
    requires
        spec_c_point_of(n) == Ok::<CPoint, ErrorV>(c),
        forall|j: int|
            0 <= j < n.children[0].children.len() ==> !((#[trigger] n.children[0].children[j]).children.len()
                >= 1 && (n.children[0].children[j].children[0].kind == NodeKind::TagCover
                || n.children[0].children[j].children[0].kind == NodeKind::TagDirControl
                || n.children[0].children[j].children[0].kind == NodeKind::TagHurtable)),
    ensures
        !c.cover,
        !c.dir_control,
        !c.hurtable,
{
    let data = n.children[0];
    lemma_c_point_fold_bools(
        CPoint {
            kind: CPointKind::Catcher,
            x: 0,
            y: 0,
            cover: false,
            decrease: 0,
            dir_control: false,
            hurtable: false,
            injury: 0,
            a_action: FrameNumberNext(0),
            j_action: FrameNumberNext(0),
            v_action: FrameNumber(0),
            t_action: FrameNumberNext(0),
            throw_injury: 0,
            throw_vx: 0,
            throw_vy: 0,
            throw_vz: 0,
            front_hurt_act: FrameNumberNext(0),
            back_hurt_act: FrameNumberNext(0),
        },
        data.children,
        0,
        c,
    );
}

} // verus!

verus! {

impl CPointKindParseError {
    /// A human-readable description of the failure. On an invalid value it
    /// quotes the value and enumerates the valid codes.
    pub fn message(&self) -> (r: String)
        ensures
            self matches CPointKindParseError::ParseIntError(e) ==> r@ == e.spec_message(),
            self matches CPointKindParseError::InvalidValue(v) ==> crate::text::contains_seq(
                r@,
                crate::text::spec_u64_string(v as u64),
            ) && crate::text::contains_seq(
                r@,
                "` is not recognized as a valid `CPointKind` value.\nValid values are [1 (Catcher), 2 (Caught)]."@,
            ),
    {
        match self {
            CPointKindParseError::ParseIntError(e) => e.message(),
            CPointKindParseError::InvalidValue(v) => {
                let mut s = String::new();
                crate::text::push_str(&mut s, "`");
                let ghost a = s@;
                let digits = crate::text::u64_to_string(*v as u64);
                crate::text::push_str(&mut s, digits.as_str());
                proof {
                    crate::text::lemma_contains_suffix(a, digits@);
                }
                let ghost b = s@;
                crate::text::push_str(
                    &mut s,
                    "` is not recognized as a valid `CPointKind` value.\nValid values are [1 (Catcher), 2 (Caught)].",
                );
                proof {
                    crate::text::lemma_contains_extend(b, "` is not recognized as a valid `CPointKind` value.\nValid values are [1 (Catcher), 2 (Caught)]."@, digits@);
                    crate::text::lemma_contains_suffix(b, "` is not recognized as a valid `CPointKind` value.\nValid values are [1 (Catcher), 2 (Caught)]."@);
                }
                s
            },
        }
    }
}

} // verus!
