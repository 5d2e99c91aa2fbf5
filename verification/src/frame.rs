//! One animation frame.

use vstd::prelude::*;

use crate::element::Element;
use crate::frame_number::FrameNumber;
use crate::frame_number_next::FrameNumberNext;
use crate::pic::Pic;
use crate::state::State;
use crate::wait::Wait;

verus! {

/// One animation cell: identity, sprite, duration, reaction targets, and
/// the spatial elements active while it shows.
#[derive(Debug, PartialEq)]
pub struct Frame {
    /// Identifies the frame; unique within its collection.
    pub number: FrameNumber,
    /// Display name of the frame.
    pub name: String,
    /// Display offset in the X axis.
    pub center_x: i64,
    /// Display offset in the Y axis.
    pub center_y: i64,
    /// Velocity delta in the X axis.
    pub d_vx: i64,
    /// Velocity delta in the Y axis.
    pub d_vy: i64,
    /// Velocity delta in the Z axis.
    pub d_vz: i64,
    /// The frame's spatial elements, in source order.
    pub elements: Vec<Element>,
    /// Frame to jump to when attack is pressed.
    pub hit_a: FrameNumberNext,
    /// Frame to jump to when defend is pressed.
    pub hit_d: FrameNumberNext,
    /// Frame to jump to on defend then attack.
    pub hit_da: FrameNumberNext,
    /// Frame to jump to on defend then jump.
    pub hit_dj: FrameNumberNext,
    /// Frame to jump to on forward then attack.
    pub hit_fa: FrameNumberNext,
    /// Frame to jump to on forward then jump.
    pub hit_fj: FrameNumberNext,
    /// Frame to jump to when jump is pressed.
    pub hit_j: FrameNumberNext,
    /// Frame to jump to on jump then attack.
    pub hit_ja: FrameNumberNext,
    /// Frame to jump to on up then attack.
    pub hit_ua: FrameNumberNext,
    /// Frame to jump to on up then jump.
    pub hit_uj: FrameNumberNext,
    /// Resource cost of staying on this frame.
    pub mp: i64,
    /// Frame to go to after `wait` expires.
    pub next_frame: FrameNumberNext,
    /// Sprite to display.
    pub pic: Pic,
    /// Path of a sound to play, when present.
    pub sound: Option<String>,
    /// Behaviour mode code.
    pub state: State,
    /// How long the frame shows.
    pub wait: Wait,
}

/// Mathematical image of a [`Frame`].
pub ghost struct FrameV {
    pub number: FrameNumber,
    pub name: Seq<char>,
    pub center_x: i64,
    pub center_y: i64,
    pub d_vx: i64,
    pub d_vy: i64,
    pub d_vz: i64,
    pub elements: Seq<Element>,
    pub hit_a: FrameNumberNext,
    pub hit_d: FrameNumberNext,
    pub hit_da: FrameNumberNext,
    pub hit_dj: FrameNumberNext,
    pub hit_fa: FrameNumberNext,
    pub hit_fj: FrameNumberNext,
    pub hit_j: FrameNumberNext,
    pub hit_ja: FrameNumberNext,
    pub hit_ua: FrameNumberNext,
    pub hit_uj: FrameNumberNext,
    pub mp: i64,
    pub next_frame: FrameNumberNext,
    pub pic: Pic,
    pub sound: Option<Seq<char>>,
    pub state: State,
    pub wait: Wait,
}

impl View for Frame {
    type V = FrameV;

    open spec fn view(&self) -> FrameV {
        FrameV {
            number: self.number,
            name: self.name@,
            center_x: self.center_x,
            center_y: self.center_y,
            d_vx: self.d_vx,
            d_vy: self.d_vy,
            d_vz: self.d_vz,
            elements: self.elements@,
            hit_a: self.hit_a,
            hit_d: self.hit_d,
            hit_da: self.hit_da,
            hit_dj: self.hit_dj,
            hit_fa: self.hit_fa,
            hit_fj: self.hit_fj,
            hit_j: self.hit_j,
            hit_ja: self.hit_ja,
            hit_ua: self.hit_ua,
            hit_uj: self.hit_uj,
            mp: self.mp,
            next_frame: self.next_frame,
            pic: self.pic,
            sound: match &self.sound {
                Some(s) => Some(s@),
                None => None,
            },
            state: self.state,
            wait: self.wait,
        }
    }
}

/// The view of the frame every walk starts from: no elements, no sound,
/// zero offsets and targets, the uninitialized state, and a wait of one.
pub open spec fn spec_frame_empty() -> FrameV {
    FrameV {
        number: FrameNumber(0usize),
        name: Seq::<char>::empty(),
        center_x: 0i64,
        center_y: 0i64,
        d_vx: 0i64,
        d_vy: 0i64,
        d_vz: 0i64,
        elements: Seq::<Element>::empty(),
        hit_a: FrameNumberNext(0isize),
        hit_d: FrameNumberNext(0isize),
        hit_da: FrameNumberNext(0isize),
        hit_dj: FrameNumberNext(0isize),
        hit_fa: FrameNumberNext(0isize),
        hit_fj: FrameNumberNext(0isize),
        hit_j: FrameNumberNext(0isize),
        hit_ja: FrameNumberNext(0isize),
        hit_ua: FrameNumberNext(0isize),
        hit_uj: FrameNumberNext(0isize),
        mp: 0i64,
        next_frame: FrameNumberNext(0isize),
        pic: Pic(0isize),
        sound: None,
        state: State::Uninitialized,
        wait: Wait(1u32),
    }
}

impl Frame {
    /// An empty frame, before its tags are read.
    pub fn new() -> (r: Frame)
        ensures
            r@ == spec_frame_empty(),
    {
        Frame {
            number: FrameNumber(0),
            name: String::new(),
            center_x: 0,
            center_y: 0,
            d_vx: 0,
            d_vy: 0,
            d_vz: 0,
            elements: Vec::new(),
            hit_a: FrameNumberNext(0),
            hit_d: FrameNumberNext(0),
            hit_da: FrameNumberNext(0),
            hit_dj: FrameNumberNext(0),
            hit_fa: FrameNumberNext(0),
            hit_fj: FrameNumberNext(0),
            hit_j: FrameNumberNext(0),
            hit_ja: FrameNumberNext(0),
            hit_ua: FrameNumberNext(0),
            hit_uj: FrameNumberNext(0),
            mp: 0,
            next_frame: FrameNumberNext(0),
            pic: Pic(0),
            sound: None,
            state: State::Uninitialized,
            wait: Wait(1),
        }
    }
}

} // verus!

// The walker: how a `Frame` node becomes a `Frame` record.

use crate::element::spec_element_of;
use crate::error::{spec_grammar_single, Error, ErrorV, SourceRef};
use crate::numeric::{
    parse_i64, parse_isize, parse_usize, spec_parse_i64, spec_parse_isize, spec_parse_u32,
    spec_parse_usize,
};
use crate::object_data_parser::{spec_child_expect, spec_tag_value, ObjectDataParser};
use crate::syntax::{lemma_node_seq_view, Node, NodeKind, NodeV};

verus! {

/// Applies one frame tag (the inner tag node of a `FrameTag`) to `f`.
/// A tag kind the frame does not know leaves `f` unchanged.
pub open spec fn spec_frame_tag_value(f: FrameV, tag: NodeV) -> Result<FrameV, ErrorV> {
    if tag.kind == NodeKind::TagCenterX {
        match spec_tag_value(tag) {
            Err(e) => Err(e),
            Ok(v) => match spec_parse_i64(v.text) {
                Ok(val) => Ok(FrameV { center_x: val, ..f }),
                Err(e) => Err(
                    ErrorV::ParseInt { field: "centerx"@, value: SourceRef::spec_of_node(v), error: e },
                ),
            },
        }
    } else if tag.kind == NodeKind::TagCenterY {
        match spec_tag_value(tag) {
            Err(e) => Err(e),
            Ok(v) => match spec_parse_i64(v.text) {
                Ok(val) => Ok(FrameV { center_y: val, ..f }),
                Err(e) => Err(
                    ErrorV::ParseInt { field: "centery"@, value: SourceRef::spec_of_node(v), error: e },
                ),
            },
        }
    } else if tag.kind == NodeKind::TagDVx {
        match spec_tag_value(tag) {
            Err(e) => Err(e),
            Ok(v) => match spec_parse_i64(v.text) {
                Ok(val) => Ok(FrameV { d_vx: val, ..f }),
                Err(e) => Err(
                    ErrorV::ParseInt { field: "dvx"@, value: SourceRef::spec_of_node(v), error: e },
                ),
            },
        }
    } else if tag.kind == NodeKind::TagDVy {
        match spec_tag_value(tag) {
            Err(e) => Err(e),
            Ok(v) => match spec_parse_i64(v.text) {
                Ok(val) => Ok(FrameV { d_vy: val, ..f }),
                Err(e) => Err(
                    ErrorV::ParseInt { field: "dvy"@, value: SourceRef::spec_of_node(v), error: e },
                ),
            },
        }
    } else if tag.kind == NodeKind::TagDVz {
        match spec_tag_value(tag) {
            Err(e) => Err(e),
            Ok(v) => match spec_parse_i64(v.text) {
                Ok(val) => Ok(FrameV { d_vz: val, ..f }),
                Err(e) => Err(
                    ErrorV::ParseInt { field: "dvz"@, value: SourceRef::spec_of_node(v), error: e },
                ),
            },
        }
    } else if tag.kind == NodeKind::TagHitA {
        match spec_tag_value(tag) {
            Err(e) => Err(e),
            Ok(v) => match spec_parse_isize(v.text) {
                Ok(val) => Ok(FrameV { hit_a: FrameNumberNext(val), ..f }),
                Err(e) => Err(
                    ErrorV::ParseInt { field: "hit_a"@, value: SourceRef::spec_of_node(v), error: e },
                ),
            },
        }
    } else if tag.kind == NodeKind::TagHitD {
        match spec_tag_value(tag) {
            Err(e) => Err(e),
            Ok(v) => match spec_parse_isize(v.text) {
                Ok(val) => Ok(FrameV { hit_d: FrameNumberNext(val), ..f }),
                Err(e) => Err(
                    ErrorV::ParseInt { field: "hit_d"@, value: SourceRef::spec_of_node(v), error: e },
                ),
            },
        }
    } else if tag.kind == NodeKind::TagHitDa {
        match spec_tag_value(tag) {
            Err(e) => Err(e),
            Ok(v) => match spec_parse_isize(v.text) {
                Ok(val) => Ok(FrameV { hit_da: FrameNumberNext(val), ..f }),
                Err(e) => Err(
                    ErrorV::ParseInt { field: "hit_Da"@, value: SourceRef::spec_of_node(v), error: e },
                ),
            },
        }
    } else if tag.kind == NodeKind::TagHitDj {
        match spec_tag_value(tag) {
            Err(e) => Err(e),
            Ok(v) => match spec_parse_isize(v.text) {
                Ok(val) => Ok(FrameV { hit_dj: FrameNumberNext(val), ..f }),
                Err(e) => Err(
                    ErrorV::ParseInt { field: "hit_Dj"@, value: SourceRef::spec_of_node(v), error: e },
                ),
            },
        }
    } else if tag.kind == NodeKind::TagHitFa {
        match spec_tag_value(tag) {
            Err(e) => Err(e),
            Ok(v) => match spec_parse_isize(v.text) {
                Ok(val) => Ok(FrameV { hit_fa: FrameNumberNext(val), ..f }),
                Err(e) => Err(
                    ErrorV::ParseInt { field: "hit_Fa"@, value: SourceRef::spec_of_node(v), error: e },
                ),
            },
        }
    } else if tag.kind == NodeKind::TagHitFj {
        match spec_tag_value(tag) {
            Err(e) => Err(e),
            Ok(v) => match spec_parse_isize(v.text) {
                Ok(val) => Ok(FrameV { hit_fj: FrameNumberNext(val), ..f }),
                Err(e) => Err(
                    ErrorV::ParseInt { field: "hit_Fj"@, value: SourceRef::spec_of_node(v), error: e },
                ),
            },
        }
    } else if tag.kind == NodeKind::TagHitJ {
        match spec_tag_value(tag) {
            Err(e) => Err(e),
            Ok(v) => match spec_parse_isize(v.text) {
                Ok(val) => Ok(FrameV { hit_j: FrameNumberNext(val), ..f }),
                Err(e) => Err(
                    ErrorV::ParseInt { field: "hit_j"@, value: SourceRef::spec_of_node(v), error: e },
                ),
            },
        }
    } else if tag.kind == NodeKind::TagHitJa {
        match spec_tag_value(tag) {
            Err(e) => Err(e),
            Ok(v) => match spec_parse_isize(v.text) {
                Ok(val) => Ok(FrameV { hit_ja: FrameNumberNext(val), ..f }),
                Err(e) => Err(
                    ErrorV::ParseInt { field: "hit_ja"@, value: SourceRef::spec_of_node(v), error: e },
                ),
            },
        }
    } else if tag.kind == NodeKind::TagHitUa {
        match spec_tag_value(tag) {
            Err(e) => Err(e),
            Ok(v) => match spec_parse_isize(v.text) {
                Ok(val) => Ok(FrameV { hit_ua: FrameNumberNext(val), ..f }),
                Err(e) => Err(
                    ErrorV::ParseInt { field: "hit_ua"@, value: SourceRef::spec_of_node(v), error: e },
                ),
            },
        }
    } else if tag.kind == NodeKind::TagHitUj {
        match spec_tag_value(tag) {
            Err(e) => Err(e),
            Ok(v) => match spec_parse_isize(v.text) {
                Ok(val) => Ok(FrameV { hit_uj: FrameNumberNext(val), ..f }),
                Err(e) => Err(
                    ErrorV::ParseInt { field: "hit_uj"@, value: SourceRef::spec_of_node(v), error: e },
                ),
            },
        }
    } else if tag.kind == NodeKind::TagMp {
        match spec_tag_value(tag) {
            Err(e) => Err(e),
            Ok(v) => match spec_parse_i64(v.text) {
                Ok(val) => Ok(FrameV { mp: val, ..f }),
                Err(e) => Err(
                    ErrorV::ParseInt { field: "mp"@, value: SourceRef::spec_of_node(v), error: e },
                ),
            },
        }
    } else if tag.kind == NodeKind::TagNext {
        match spec_tag_value(tag) {
            Err(e) => Err(e),
            Ok(v) => match spec_parse_isize(v.text) {
                Ok(val) => Ok(FrameV { next_frame: FrameNumberNext(val), ..f }),
                Err(e) => Err(
                    ErrorV::ParseInt { field: "next"@, value: SourceRef::spec_of_node(v), error: e },
                ),
            },
        }
    } else if tag.kind == NodeKind::TagPic {
        match spec_tag_value(tag) {
            Err(e) => Err(e),
            Ok(v) => match spec_parse_isize(v.text) {
                Ok(val) => Ok(FrameV { pic: Pic(val), ..f }),
                Err(e) => Err(
                    ErrorV::ParseInt { field: "pic"@, value: SourceRef::spec_of_node(v), error: e },
                ),
            },
        }
    } else if tag.kind == NodeKind::TagSound {
        match spec_tag_value(tag) {
            Err(e) => Err(e),
            Ok(v) => if v.text.len() == 0 {
                Err(ErrorV::ParsePath { field: "sound"@, value: SourceRef::spec_of_node(v) })
            } else {
                Ok(FrameV { sound: Some(v.text), ..f })
            },
        }
    } else if tag.kind == NodeKind::TagState {
        match spec_tag_value(tag) {
            Err(e) => Err(e),
            Ok(v) => match State::spec_from_str(v.text) {
                Ok(st) => Ok(FrameV { state: st, ..f }),
                Err(e) => Err(ErrorV::StateParse { value: SourceRef::spec_of_node(v), error: e }),
            },
        }
    } else if tag.kind == NodeKind::TagWait {
        match spec_tag_value(tag) {
            Err(e) => Err(e),
            Ok(v) => match spec_parse_u32(v.text) {
                Ok(val) => Ok(
                    FrameV {
                        wait: Wait(
                            if val == 0 {
                                1u32
                            } else {
                                val
                            },
                        ),
                        ..f
                    },
                ),
                Err(e) => Err(
                    ErrorV::ParseInt { field: "wait"@, value: SourceRef::spec_of_node(v), error: e },
                ),
            },
        }
    } else {
        Ok(f)
    }
}

/// Applies one item of a frame body to `f`: a `FrameTag` updates a scalar
/// field, an `Element` is read and appended to the element list, and any
/// other kind is a hard grammar error carrying both accepted kinds.
pub open spec fn spec_frame_item(f: FrameV, t: NodeV) -> Result<FrameV, ErrorV> {
    if t.kind == NodeKind::FrameTag {
        if t.children.len() < 1 {
            Err(spec_grammar_single(NodeKind::FrameTag, None))
        } else {
            spec_frame_tag_value(f, t.children[0])
        }
    } else if t.kind == NodeKind::Element {
        match spec_element_of(t) {
            Ok(el) => Ok(FrameV { elements: f.elements.push(el), ..f }),
            Err(e) => Err(e),
        }
    } else {
        Err(
            ErrorV::Grammar {
                rules_expected: seq![NodeKind::Element, NodeKind::FrameTag],
                found: Some(SourceRef::spec_of_node(t)),
            },
        )
    }
}

/// Folds the body items `ts[i..]` onto `f`, stopping at the first error.
pub open spec fn spec_frame_fold(f: FrameV, ts: Seq<NodeV>, i: int) -> Result<FrameV, ErrorV>
    decreases ts.len() - i,
{
    if i < 0 || i >= ts.len() {
        Ok(f)
    } else {
        match spec_frame_item(f, ts[i]) {
            Err(e) => Err(e),
            Ok(f2) => spec_frame_fold(f2, ts, i + 1),
        }
    }
}

/// Meaning of a `Frame` node: its number, its name, then its body items
/// applied in order to the empty frame.
pub open spec fn spec_frame_of(n: NodeV) -> Result<FrameV, ErrorV> {
    if n.kind != NodeKind::Frame {
        Err(spec_grammar_single(NodeKind::Frame, Some(n)))
    } else {
        match spec_child_expect(n, 0, NodeKind::FrameNumber) {
            Err(e) => Err(e),
            Ok(num_node) => match spec_tag_value(num_node) {
                Err(e) => Err(e),
                Ok(num_v) => match spec_parse_usize(num_v.text) {
                    Err(e) => Err(
                        ErrorV::ParseInt {
                            field: "frame number"@,
                            value: SourceRef::spec_of_node(num_v),
                            error: e,
                        },
                    ),
                    Ok(num) => match spec_child_expect(n, 1, NodeKind::FrameName) {
                        Err(e) => Err(e),
                        Ok(name_node) => match spec_tag_value(name_node) {
                            Err(e) => Err(e),
                            Ok(name_v) => match spec_child_expect(n, 2, NodeKind::FrameData) {
                                Err(e) => Err(e),
                                Ok(data) => spec_frame_fold(
                                    FrameV {
                                        number: FrameNumber(num),
                                        name: name_v.text,
                                        ..spec_frame_empty()
                                    },
                                    data.children,
                                    0,
                                ),
                            },
                        },
                    },
                },
            },
        }
    }
}

impl Frame {
    /// Applies one inner frame tag node to `f`.
    #[verifier::rlimit(60)]
    fn apply_tag_value(f: Frame, tag: &Node) -> (r: Result<Frame, Error>)
        ensures
            match r {
                Ok(f2) => spec_frame_tag_value(f@, tag@) == Ok::<FrameV, ErrorV>(f2@),
                Err(e) => spec_frame_tag_value(f@, tag@) == Err::<FrameV, ErrorV>(e@),
            },
    {
        match tag.kind {
            NodeKind::TagCenterX => {
                let v = match ObjectDataParser::parse_value(tag) {
                    Ok(v) => v,
                    Err(e) => {
                        return Err(e);
                    },
                };
                match parse_i64(v.text.as_str()) {
                    Ok(val) => Ok(Frame { center_x: val, ..f }),
                    Err(e) => Err(
                        Error::ParseInt { field: "centerx", value: SourceRef::of_node(v), error: e },
                    ),
                }
            },
            NodeKind::TagCenterY => {
                let v = match ObjectDataParser::parse_value(tag) {
                    Ok(v) => v,
                    Err(e) => {
                        return Err(e);
                    },
                };
                match parse_i64(v.text.as_str()) {
                    Ok(val) => Ok(Frame { center_y: val, ..f }),
                    Err(e) => Err(
                        Error::ParseInt { field: "centery", value: SourceRef::of_node(v), error: e },
                    ),
                }
            },
            NodeKind::TagDVx => {
                let v = match ObjectDataParser::parse_value(tag) {
                    Ok(v) => v,
                    Err(e) => {
                        return Err(e);
                    },
                };
                match parse_i64(v.text.as_str()) {
                    Ok(val) => Ok(Frame { d_vx: val, ..f }),
                    Err(e) => Err(
                        Error::ParseInt { field: "dvx", value: SourceRef::of_node(v), error: e },
                    ),
                }
            },
            NodeKind::TagDVy => {
                let v = match ObjectDataParser::parse_value(tag) {
                    Ok(v) => v,
                    Err(e) => {
                        return Err(e);
                    },
                };
                match parse_i64(v.text.as_str()) {
                    Ok(val) => Ok(Frame { d_vy: val, ..f }),
                    Err(e) => Err(
                        Error::ParseInt { field: "dvy", value: SourceRef::of_node(v), error: e },
                    ),
                }
            },
            NodeKind::TagDVz => {
                let v = match ObjectDataParser::parse_value(tag) {
                    Ok(v) => v,
                    Err(e) => {
                        return Err(e);
                    },
                };
                match parse_i64(v.text.as_str()) {
                    Ok(val) => Ok(Frame { d_vz: val, ..f }),
                    Err(e) => Err(
                        Error::ParseInt { field: "dvz", value: SourceRef::of_node(v), error: e },
                    ),
                }
            },
            NodeKind::TagHitA => {
                let v = match ObjectDataParser::parse_value(tag) {
                    Ok(v) => v,
                    Err(e) => {
                        return Err(e);
                    },
                };
                match parse_isize(v.text.as_str()) {
                    Ok(val) => Ok(Frame { hit_a: FrameNumberNext(val), ..f }),
                    Err(e) => Err(
                        Error::ParseInt { field: "hit_a", value: SourceRef::of_node(v), error: e },
                    ),
                }
            },
            NodeKind::TagHitD => {
                let v = match ObjectDataParser::parse_value(tag) {
                    Ok(v) => v,
                    Err(e) => {
                        return Err(e);
                    },
                };
                match parse_isize(v.text.as_str()) {
                    Ok(val) => Ok(Frame { hit_d: FrameNumberNext(val), ..f }),
                    Err(e) => Err(
                        Error::ParseInt { field: "hit_d", value: SourceRef::of_node(v), error: e },
                    ),
                }
            },
            NodeKind::TagHitDa => {
                let v = match ObjectDataParser::parse_value(tag) {
                    Ok(v) => v,
                    Err(e) => {
                        return Err(e);
                    },
                };
                match parse_isize(v.text.as_str()) {
                    Ok(val) => Ok(Frame { hit_da: FrameNumberNext(val), ..f }),
                    Err(e) => Err(
                        Error::ParseInt { field: "hit_Da", value: SourceRef::of_node(v), error: e },
                    ),
                }
            },
            NodeKind::TagHitDj => {
                let v = match ObjectDataParser::parse_value(tag) {
                    Ok(v) => v,
                    Err(e) => {
                        return Err(e);
                    },
                };
                match parse_isize(v.text.as_str()) {
                    Ok(val) => Ok(Frame { hit_dj: FrameNumberNext(val), ..f }),
                    Err(e) => Err(
                        Error::ParseInt { field: "hit_Dj", value: SourceRef::of_node(v), error: e },
                    ),
                }
            },
            NodeKind::TagHitFa => {
                let v = match ObjectDataParser::parse_value(tag) {
                    Ok(v) => v,
                    Err(e) => {
                        return Err(e);
                    },
                };
                match parse_isize(v.text.as_str()) {
                    Ok(val) => Ok(Frame { hit_fa: FrameNumberNext(val), ..f }),
                    Err(e) => Err(
                        Error::ParseInt { field: "hit_Fa", value: SourceRef::of_node(v), error: e },
                    ),
                }
            },
            NodeKind::TagHitFj => {
                let v = match ObjectDataParser::parse_value(tag) {
                    Ok(v) => v,
                    Err(e) => {
                        return Err(e);
                    },
                };
                match parse_isize(v.text.as_str()) {
                    Ok(val) => Ok(Frame { hit_fj: FrameNumberNext(val), ..f }),
                    Err(e) => Err(
                        Error::ParseInt { field: "hit_Fj", value: SourceRef::of_node(v), error: e },
                    ),
                }
            },
            NodeKind::TagHitJ => {
                let v = match ObjectDataParser::parse_value(tag) {
                    Ok(v) => v,
                    Err(e) => {
                        return Err(e);
                    },
                };
                match parse_isize(v.text.as_str()) {
                    Ok(val) => Ok(Frame { hit_j: FrameNumberNext(val), ..f }),
                    Err(e) => Err(
                        Error::ParseInt { field: "hit_j", value: SourceRef::of_node(v), error: e },
                    ),
                }
            },
            NodeKind::TagHitJa => {
                let v = match ObjectDataParser::parse_value(tag) {
                    Ok(v) => v,
                    Err(e) => {
                        return Err(e);
                    },
                };
                match parse_isize(v.text.as_str()) {
                    Ok(val) => Ok(Frame { hit_ja: FrameNumberNext(val), ..f }),
                    Err(e) => Err(
                        Error::ParseInt { field: "hit_ja", value: SourceRef::of_node(v), error: e },
                    ),
                }
            },
            NodeKind::TagHitUa => {
                let v = match ObjectDataParser::parse_value(tag) {
                    Ok(v) => v,
                    Err(e) => {
                        return Err(e);
                    },
                };
                match parse_isize(v.text.as_str()) {
                    Ok(val) => Ok(Frame { hit_ua: FrameNumberNext(val), ..f }),
                    Err(e) => Err(
                        Error::ParseInt { field: "hit_ua", value: SourceRef::of_node(v), error: e },
                    ),
                }
            },
            NodeKind::TagHitUj => {
                let v = match ObjectDataParser::parse_value(tag) {
                    Ok(v) => v,
                    Err(e) => {
                        return Err(e);
                    },
                };
                match parse_isize(v.text.as_str()) {
                    Ok(val) => Ok(Frame { hit_uj: FrameNumberNext(val), ..f }),
                    Err(e) => Err(
                        Error::ParseInt { field: "hit_uj", value: SourceRef::of_node(v), error: e },
                    ),
                }
            },
            NodeKind::TagMp => {
                let v = match ObjectDataParser::parse_value(tag) {
                    Ok(v) => v,
                    Err(e) => {
                        return Err(e);
                    },
                };
                match parse_i64(v.text.as_str()) {
                    Ok(val) => Ok(Frame { mp: val, ..f }),
                    Err(e) => Err(
                        Error::ParseInt { field: "mp", value: SourceRef::of_node(v), error: e },
                    ),
                }
            },
            NodeKind::TagNext => {
                let v = match ObjectDataParser::parse_value(tag) {
                    Ok(v) => v,
                    Err(e) => {
                        return Err(e);
                    },
                };
                match parse_isize(v.text.as_str()) {
                    Ok(val) => Ok(Frame { next_frame: FrameNumberNext(val), ..f }),
                    Err(e) => Err(
                        Error::ParseInt { field: "next", value: SourceRef::of_node(v), error: e },
                    ),
                }
            },
            NodeKind::TagPic => {
                let v = match ObjectDataParser::parse_value(tag) {
                    Ok(v) => v,
                    Err(e) => {
                        return Err(e);
                    },
                };
                match parse_isize(v.text.as_str()) {
                    Ok(val) => Ok(Frame { pic: Pic(val), ..f }),
                    Err(e) => Err(
                        Error::ParseInt { field: "pic", value: SourceRef::of_node(v), error: e },
                    ),
                }
            },
            NodeKind::TagSound => {
                let v = match ObjectDataParser::parse_value(tag) {
                    Ok(v) => v,
                    Err(e) => {
                        return Err(e);
                    },
                };
                if v.text.as_str().is_empty() {
                    Err(Error::ParsePath { field: "sound", value: SourceRef::of_node(v) })
                } else {
                    Ok(Frame { sound: Some(v.text.clone()), ..f })
                }
            },
            NodeKind::TagState => {
                let v = match ObjectDataParser::parse_value(tag) {
                    Ok(v) => v,
                    Err(e) => {
                        return Err(e);
                    },
                };
                match State::from_str(v.text.as_str()) {
                    Ok(st) => Ok(Frame { state: st, ..f }),
                    Err(e) => Err(
                        Error::StateParse { value: SourceRef::of_node(v), error: e },
                    ),
                }
            },
            NodeKind::TagWait => {
                let v = match ObjectDataParser::parse_value(tag) {
                    Ok(v) => v,
                    Err(e) => {
                        return Err(e);
                    },
                };
                match Wait::from_str(v.text.as_str()) {
                    Ok(wt) => Ok(Frame { wait: wt, ..f }),
                    Err(e) => Err(
                        Error::ParseInt { field: "wait", value: SourceRef::of_node(v), error: e },
                    ),
                }
            },
            _ => Ok(f),
        }
    }

    /// Applies one body item node to `f`.
    fn apply_item(f: Frame, t: &Node) -> (r: Result<Frame, Error>)
        ensures
            match r {
                Ok(f2) => spec_frame_item(f@, t@) == Ok::<FrameV, ErrorV>(f2@),
                Err(e) => spec_frame_item(f@, t@) == Err::<FrameV, ErrorV>(e@),
            },
    {
        match t.kind {
            NodeKind::FrameTag => {
                proof {
                    lemma_node_seq_view(t.children@);
                }
                if t.children.len() < 1 {
                    Err(Error::GrammarSingle { rule_expected: NodeKind::FrameTag, found: None })
                } else {
                    Self::apply_tag_value(f, &t.children[0])
                }
            },
            NodeKind::Element => {
                match Element::from_node(t) {
                    Ok(el) => {
                        let mut f2 = f;
                        f2.elements.push(el);
                        Ok(f2)
                    },
                    Err(e) => Err(e),
                }
            },
            _ => {
                let mut kinds: Vec<NodeKind> = Vec::new();
                kinds.push(NodeKind::Element);
                kinds.push(NodeKind::FrameTag);
                proof {
                    assert(kinds@ =~= seq![NodeKind::Element, NodeKind::FrameTag]);
                }
                Err(Error::Grammar { rules_expected: kinds, found: Some(SourceRef::of_node(t)) })
            },
        }
    }

    /// Reads a frame from a `Frame` node.
    pub fn from_node(n: &Node) -> (r: Result<Frame, Error>)
        ensures
            match r {
                Ok(f) => spec_frame_of(n@) == Ok::<FrameV, ErrorV>(f@),
                Err(e) => spec_frame_of(n@) == Err::<FrameV, ErrorV>(e@),
            },
    {
        match ObjectDataParser::expect_kind(n, NodeKind::Frame) {
            Ok(_) => {},
            Err(e) => {
                return Err(e);
            },
        }
        let num_node = match ObjectDataParser::child_expect(n, 0, NodeKind::FrameNumber) {
            Ok(c) => c,
            Err(e) => {
                return Err(e);
            },
        };
        let num_v = match ObjectDataParser::parse_value(num_node) {
            Ok(v) => v,
            Err(e) => {
                return Err(e);
            },
        };
        let num = match parse_usize(num_v.text.as_str()) {
            Ok(v) => v,
            Err(e) => {
                return Err(
                    Error::ParseInt {
                        field: "frame number",
                        value: SourceRef::of_node(num_v),
                        error: e,
                    },
                );
            },
        };
        let name_node = match ObjectDataParser::child_expect(n, 1, NodeKind::FrameName) {
            Ok(c) => c,
            Err(e) => {
                return Err(e);
            },
        };
        let name_v = match ObjectDataParser::parse_value(name_node) {
            Ok(v) => v,
            Err(e) => {
                return Err(e);
            },
        };
        let data = match ObjectDataParser::child_expect(n, 2, NodeKind::FrameData) {
            Ok(c) => c,
            Err(e) => {
                return Err(e);
            },
        };
        let mut f = Frame::new();
        f.number = FrameNumber(num);
        f.name = name_v.text.clone();
        let len = data.children.len();
        proof {
            lemma_node_seq_view(data.children@);
        }
        let mut i: usize = 0;
        while i < len
            invariant
                0 <= i <= len,
                len == data@.children.len(),
                data@.children == crate::syntax::children_view(data.children),
                len == data.children@.len(),
                forall|j: int|
                    0 <= j < len ==> crate::syntax::children_view(data.children)[j]
                        == #[trigger] data.children@[j]@,
                spec_frame_of(n@) == spec_frame_fold(f@, data@.children, i as int),
            decreases len - i,
        {
            let t = &data.children[i];
            f = match Self::apply_item(f, t) {
                Ok(f2) => f2,
                Err(e) => {
                    return Err(e);
                },
            };
            i = i + 1;
        }
        Ok(f)
    }
}

} // verus!

verus! {

/// A body item that does not carry a `wait` tag leaves `wait` alone.
proof fn lemma_frame_fold_wait(acc: FrameV, ts: Seq<NodeV>, i: int, f: FrameV)
    requires
        spec_frame_fold(acc, ts, i) == Ok::<FrameV, ErrorV>(f),
        forall|j: int|
            i <= j < ts.len() ==> !((#[trigger] ts[j]).kind == NodeKind::FrameTag
                && ts[j].children.len() >= 1 && ts[j].children[0].kind == NodeKind::TagWait),
    ensures
        f.wait == acc.wait,
    decreases ts.len() - i,
{
    if 0 <= i < ts.len() {
        match spec_frame_item(acc, ts[i]) {
            Err(e) => {},
            Ok(acc2) => {
                assert(acc2.wait == acc.wait);
                lemma_frame_fold_wait(acc2, ts, i + 1, f);
            },
        }
    }
}

/// Law: defaulting of the frame duration. A `Frame` node carrying no
/// `wait` tag yields a frame whose `wait` is the default `1`.
pub proof fn lemma_frame_wait_default(n: NodeV, f: FrameV)
    requires
        spec_frame_of(n) == Ok::<FrameV, ErrorV>(f),
        forall|j: int|
            0 <= j < n.children[2].children.len() ==> !((#[trigger] n.children[2].children[j]).kind
                == NodeKind::FrameTag && n.children[2].children[j].children.len() >= 1
                && n.children[2].children[j].children[0].kind == NodeKind::TagWait),
    ensures
        f.wait == (Wait(1u32)),
{
    let data = n.children[2];
    let num_v = spec_tag_value(n.children[0])->Ok_0;
    let name_v = spec_tag_value(n.children[1])->Ok_0;
    let num = spec_parse_usize(num_v.text)->Ok_0;
    lemma_frame_fold_wait(
        FrameV { number: FrameNumber(num), name: name_v.text, ..spec_frame_empty() },
        data.children,
        0,
        f,
    );
}

} // verus!
