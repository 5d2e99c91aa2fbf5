//! Object header: display name, sprite sheets, and movement constants.

use vstd::prelude::*;

use crate::numeric::Decimal;
use crate::sprite_file::{SpriteFile, SpriteFileV};

verus! {

/// Object-level constants. Every numeric field is read from its own tag;
/// a tag that is absent leaves the zero default in place.
#[derive(Debug, PartialEq)]
pub struct Header {
    /// Display name of the object.
    pub name: String,
    /// Path of the face icon picture.
    pub head: String,
    /// Path of the small icon picture.
    pub small: String,
    /// The object's sprite sheets, in source order.
    pub sprite_files: Vec<SpriteFile>,
    /// Frames between walking animation steps.
    pub walking_frame_rate: u32,
    /// Walking speed in the X axis.
    pub walking_speed: Decimal,
    /// Walking speed in the Z axis.
    pub walking_speed_z: Decimal,
    /// Frames between running animation steps.
    pub running_frame_rate: u32,
    /// Running speed in the X axis.
    pub running_speed: Decimal,
    /// Running speed in the Z axis.
    pub running_speed_z: Decimal,
    /// Walking speed while carrying a heavy weapon, X axis.
    pub heavy_walking_speed: Decimal,
    /// Walking speed while carrying a heavy weapon, Z axis.
    pub heavy_walking_speed_z: Decimal,
    /// Running speed while carrying a heavy weapon, X axis.
    pub heavy_running_speed: Decimal,
    /// Running speed while carrying a heavy weapon, Z axis.
    pub heavy_running_speed_z: Decimal,
    /// Initial upward speed of a jump.
    pub jump_height: Decimal,
    /// Jump distance in the X axis.
    pub jump_distance: Decimal,
    /// Jump distance in the Z axis.
    pub jump_distance_z: Decimal,
    /// Initial upward speed of a dash.
    pub dash_height: Decimal,
    /// Dash distance in the X axis.
    pub dash_distance: Decimal,
    /// Dash distance in the Z axis.
    pub dash_distance_z: Decimal,
    /// Upward speed when rowing.
    pub rowing_height: Decimal,
    /// Rowing distance in the X axis.
    pub rowing_distance: Decimal,
}

/// Mathematical image of a [`Header`].
pub ghost struct HeaderV {
    pub name: Seq<char>,
    pub head: Seq<char>,
    pub small: Seq<char>,
    pub sprite_files: Seq<SpriteFileV>,
    pub walking_frame_rate: u32,
    pub walking_speed: Decimal,
    pub walking_speed_z: Decimal,
    pub running_frame_rate: u32,
    pub running_speed: Decimal,
    pub running_speed_z: Decimal,
    pub heavy_walking_speed: Decimal,
    pub heavy_walking_speed_z: Decimal,
    pub heavy_running_speed: Decimal,
    pub heavy_running_speed_z: Decimal,
    pub jump_height: Decimal,
    pub jump_distance: Decimal,
    pub jump_distance_z: Decimal,
    pub dash_height: Decimal,
    pub dash_distance: Decimal,
    pub dash_distance_z: Decimal,
    pub rowing_height: Decimal,
    pub rowing_distance: Decimal,
}

impl View for Header {
    type V = HeaderV;

    open spec fn view(&self) -> HeaderV {
        HeaderV {
            name: self.name@,
            head: self.head@,
            small: self.small@,
            sprite_files: Seq::new(self.sprite_files@.len(), |i: int| self.sprite_files@[i]@),
            walking_frame_rate: self.walking_frame_rate,
            walking_speed: self.walking_speed,
            walking_speed_z: self.walking_speed_z,
            running_frame_rate: self.running_frame_rate,
            running_speed: self.running_speed,
            running_speed_z: self.running_speed_z,
            heavy_walking_speed: self.heavy_walking_speed,
            heavy_walking_speed_z: self.heavy_walking_speed_z,
            heavy_running_speed: self.heavy_running_speed,
            heavy_running_speed_z: self.heavy_running_speed_z,
            jump_height: self.jump_height,
            jump_distance: self.jump_distance,
            jump_distance_z: self.jump_distance_z,
            dash_height: self.dash_height,
            dash_distance: self.dash_distance,
            dash_distance_z: self.dash_distance_z,
            rowing_height: self.rowing_height,
            rowing_distance: self.rowing_distance,
        }
    }
}

impl Header {
    /// An empty header, before its tags are read.
    pub fn new() -> (r: Header)
        ensures
            r@ == (HeaderV {
                name: Seq::<char>::empty(),
                head: Seq::<char>::empty(),
                small: Seq::<char>::empty(),
                sprite_files: Seq::<SpriteFileV>::empty(),
                walking_frame_rate: 0u32,
                walking_speed: Decimal { neg: false, units: 0, frac: 0, frac_len: 0 },
                walking_speed_z: Decimal { neg: false, units: 0, frac: 0, frac_len: 0 },
                running_frame_rate: 0u32,
                running_speed: Decimal { neg: false, units: 0, frac: 0, frac_len: 0 },
                running_speed_z: Decimal { neg: false, units: 0, frac: 0, frac_len: 0 },
                heavy_walking_speed: Decimal { neg: false, units: 0, frac: 0, frac_len: 0 },
                heavy_walking_speed_z: Decimal { neg: false, units: 0, frac: 0, frac_len: 0 },
                heavy_running_speed: Decimal { neg: false, units: 0, frac: 0, frac_len: 0 },
                heavy_running_speed_z: Decimal { neg: false, units: 0, frac: 0, frac_len: 0 },
                jump_height: Decimal { neg: false, units: 0, frac: 0, frac_len: 0 },
                jump_distance: Decimal { neg: false, units: 0, frac: 0, frac_len: 0 },
                jump_distance_z: Decimal { neg: false, units: 0, frac: 0, frac_len: 0 },
                dash_height: Decimal { neg: false, units: 0, frac: 0, frac_len: 0 },
                dash_distance: Decimal { neg: false, units: 0, frac: 0, frac_len: 0 },
                dash_distance_z: Decimal { neg: false, units: 0, frac: 0, frac_len: 0 },
                rowing_height: Decimal { neg: false, units: 0, frac: 0, frac_len: 0 },
                rowing_distance: Decimal { neg: false, units: 0, frac: 0, frac_len: 0 },
            }),
    {
        let r = Header {
            name: String::new(),
            head: String::new(),
            small: String::new(),
            sprite_files: Vec::new(),
            walking_frame_rate: 0,
            walking_speed: Decimal::zero(),
            walking_speed_z: Decimal::zero(),
            running_frame_rate: 0,
            running_speed: Decimal::zero(),
            running_speed_z: Decimal::zero(),
            heavy_walking_speed: Decimal::zero(),
            heavy_walking_speed_z: Decimal::zero(),
            heavy_running_speed: Decimal::zero(),
            heavy_running_speed_z: Decimal::zero(),
            jump_height: Decimal::zero(),
            jump_distance: Decimal::zero(),
            jump_distance_z: Decimal::zero(),
            dash_height: Decimal::zero(),
            dash_distance: Decimal::zero(),
            dash_distance_z: Decimal::zero(),
            rowing_height: Decimal::zero(),
            rowing_distance: Decimal::zero(),
        };
        proof {
            assert(r@.sprite_files =~= Seq::<SpriteFileV>::empty());
        }
        r
    }
}

} // verus!

// The walker: how a `Header` node becomes a header record.

use crate::error::{spec_grammar_single, Error, ErrorV, SourceRef};
use crate::numeric::{parse_decimal, parse_u32, spec_parse_decimal, spec_parse_u32};
use crate::object_data_parser::{spec_child_expect, spec_tag_value, ObjectDataParser};
use crate::sprite_file::spec_sprite_file_of;
use crate::syntax::{lemma_node_seq_view, Node, NodeKind, NodeV};

verus! {

/// Applies one header tag (the inner tag node of a `HeaderTag`) to `h`.
/// A tag kind the header does not know leaves `h` unchanged.
pub open spec fn spec_header_tag_value(h: HeaderV, tag: NodeV) -> Result<HeaderV, ErrorV> {
    if tag.kind == NodeKind::TagName {
        match spec_tag_value(tag) {
            Err(e) => Err(e),
            Ok(v) => Ok(HeaderV { name: v.text, ..h }),
        }
    } else if tag.kind == NodeKind::TagHead {
        match spec_tag_value(tag) {
            Err(e) => Err(e),
            Ok(v) => if v.text.len() == 0 {
                Err(ErrorV::ParsePath { field: "head"@, value: SourceRef::spec_of_node(v) })
            } else {
                Ok(HeaderV { head: v.text, ..h })
            },
        }
    } else if tag.kind == NodeKind::TagSmall {
        match spec_tag_value(tag) {
            Err(e) => Err(e),
            Ok(v) => if v.text.len() == 0 {
                Err(ErrorV::ParsePath { field: "small"@, value: SourceRef::spec_of_node(v) })
            } else {
                Ok(HeaderV { small: v.text, ..h })
            },
        }
    } else if tag.kind == NodeKind::TagWalkingFrameRate {
        match spec_tag_value(tag) {
            Err(e) => Err(e),
            Ok(v) => match spec_parse_u32(v.text) {
                Ok(val) => Ok(HeaderV { walking_frame_rate: val, ..h }),
                Err(e) => Err(
                    ErrorV::ParseInt { field: "walking_frame_rate"@, value: SourceRef::spec_of_node(v), error: e },
                ),
            },
        }
    } else if tag.kind == NodeKind::TagRunningFrameRate {
        match spec_tag_value(tag) {
            Err(e) => Err(e),
            Ok(v) => match spec_parse_u32(v.text) {
                Ok(val) => Ok(HeaderV { running_frame_rate: val, ..h }),
                Err(e) => Err(
                    ErrorV::ParseInt { field: "running_frame_rate"@, value: SourceRef::spec_of_node(v), error: e },
                ),
            },
        }
    } else if tag.kind == NodeKind::TagWalkingSpeed {
        match spec_tag_value(tag) {
            Err(e) => Err(e),
            Ok(v) => match spec_parse_decimal(v.text) {
                Ok(val) => Ok(HeaderV { walking_speed: val, ..h }),
                Err(e) => Err(
                    ErrorV::ParseFloat { field: "walking_speed"@, value: SourceRef::spec_of_node(v), error: e },
                ),
            },
        }
    } else if tag.kind == NodeKind::TagWalkingSpeedZ {
        match spec_tag_value(tag) {
            Err(e) => Err(e),
            Ok(v) => match spec_parse_decimal(v.text) {
                Ok(val) => Ok(HeaderV { walking_speed_z: val, ..h }),
                Err(e) => Err(
                    ErrorV::ParseFloat { field: "walking_speed_z"@, value: SourceRef::spec_of_node(v), error: e },
                ),
            },
        }
    } else if tag.kind == NodeKind::TagRunningSpeed {
        match spec_tag_value(tag) {
            Err(e) => Err(e),
            Ok(v) => match spec_parse_decimal(v.text) {
                Ok(val) => Ok(HeaderV { running_speed: val, ..h }),
                Err(e) => Err(
                    ErrorV::ParseFloat { field: "running_speed"@, value: SourceRef::spec_of_node(v), error: e },
                ),
            },
        }
    } else if tag.kind == NodeKind::TagRunningSpeedZ {
        match spec_tag_value(tag) {
            Err(e) => Err(e),
            Ok(v) => match spec_parse_decimal(v.text) {
                Ok(val) => Ok(HeaderV { running_speed_z: val, ..h }),
                Err(e) => Err(
                    ErrorV::ParseFloat { field: "running_speed_z"@, value: SourceRef::spec_of_node(v), error: e },
                ),
            },
        }
    } else if tag.kind == NodeKind::TagHeavyWalkingSpeed {
        match spec_tag_value(tag) {
            Err(e) => Err(e),
            Ok(v) => match spec_parse_decimal(v.text) {
                Ok(val) => Ok(HeaderV { heavy_walking_speed: val, ..h }),
                Err(e) => Err(
                    ErrorV::ParseFloat { field: "heavy_walking_speed"@, value: SourceRef::spec_of_node(v), error: e },
                ),
            },
        }
    } else if tag.kind == NodeKind::TagHeavyWalkingSpeedZ {
        match spec_tag_value(tag) {
            Err(e) => Err(e),
            Ok(v) => match spec_parse_decimal(v.text) {
                Ok(val) => Ok(HeaderV { heavy_walking_speed_z: val, ..h }),
                Err(e) => Err(
                    ErrorV::ParseFloat { field: "heavy_walking_speed_z"@, value: SourceRef::spec_of_node(v), error: e },
                ),
            },
        }
    } else if tag.kind == NodeKind::TagHeavyRunningSpeed {
        match spec_tag_value(tag) {
            Err(e) => Err(e),
            Ok(v) => match spec_parse_decimal(v.text) {
                Ok(val) => Ok(HeaderV { heavy_running_speed: val, ..h }),
                Err(e) => Err(
                    ErrorV::ParseFloat { field: "heavy_running_speed"@, value: SourceRef::spec_of_node(v), error: e },
                ),
            },
        }
    } else if tag.kind == NodeKind::TagHeavyRunningSpeedZ {
        match spec_tag_value(tag) {
            Err(e) => Err(e),
            Ok(v) => match spec_parse_decimal(v.text) {
                Ok(val) => Ok(HeaderV { heavy_running_speed_z: val, ..h }),
                Err(e) => Err(
                    ErrorV::ParseFloat { field: "heavy_running_speed_z"@, value: SourceRef::spec_of_node(v), error: e },
                ),
            },
        }
    } else if tag.kind == NodeKind::TagJumpHeight {
        match spec_tag_value(tag) {
            Err(e) => Err(e),
            Ok(v) => match spec_parse_decimal(v.text) {
                Ok(val) => Ok(HeaderV { jump_height: val, ..h }),
                Err(e) => Err(
                    ErrorV::ParseFloat { field: "jump_height"@, value: SourceRef::spec_of_node(v), error: e },
                ),
            },
        }
    } else if tag.kind == NodeKind::TagJumpDistance {
        match spec_tag_value(tag) {
            Err(e) => Err(e),
            Ok(v) => match spec_parse_decimal(v.text) {
                Ok(val) => Ok(HeaderV { jump_distance: val, ..h }),
                Err(e) => Err(
                    ErrorV::ParseFloat { field: "jump_distance"@, value: SourceRef::spec_of_node(v), error: e },
                ),
            },
        }
    } else if tag.kind == NodeKind::TagJumpDistanceZ {
        match spec_tag_value(tag) {
            Err(e) => Err(e),
            Ok(v) => match spec_parse_decimal(v.text) {
                Ok(val) => Ok(HeaderV { jump_distance_z: val, ..h }),
                Err(e) => Err(
                    ErrorV::ParseFloat { field: "jump_distance_z"@, value: SourceRef::spec_of_node(v), error: e },
                ),
            },
        }
    } else if tag.kind == NodeKind::TagDashHeight {
        match spec_tag_value(tag) {
            Err(e) => Err(e),
            Ok(v) => match spec_parse_decimal(v.text) {
                Ok(val) => Ok(HeaderV { dash_height: val, ..h }),
                Err(e) => Err(
                    ErrorV::ParseFloat { field: "dash_height"@, value: SourceRef::spec_of_node(v), error: e },
                ),
            },
        }
    } else if tag.kind == NodeKind::TagDashDistance {
        match spec_tag_value(tag) {
            Err(e) => Err(e),
            Ok(v) => match spec_parse_decimal(v.text) {
                Ok(val) => Ok(HeaderV { dash_distance: val, ..h }),
                Err(e) => Err(
                    ErrorV::ParseFloat { field: "dash_distance"@, value: SourceRef::spec_of_node(v), error: e },
                ),
            },
        }
    } else if tag.kind == NodeKind::TagDashDistanceZ {
        match spec_tag_value(tag) {
            Err(e) => Err(e),
            Ok(v) => match spec_parse_decimal(v.text) {
                Ok(val) => Ok(HeaderV { dash_distance_z: val, ..h }),
                Err(e) => Err(
                    ErrorV::ParseFloat { field: "dash_distance_z"@, value: SourceRef::spec_of_node(v), error: e },
                ),
            },
        }
    } else if tag.kind == NodeKind::TagRowingHeight {
        match spec_tag_value(tag) {
            Err(e) => Err(e),
            Ok(v) => match spec_parse_decimal(v.text) {
                Ok(val) => Ok(HeaderV { rowing_height: val, ..h }),
                Err(e) => Err(
                    ErrorV::ParseFloat { field: "rowing_height"@, value: SourceRef::spec_of_node(v), error: e },
                ),
            },
        }
    } else if tag.kind == NodeKind::TagRowingDistance {
        match spec_tag_value(tag) {
            Err(e) => Err(e),
            Ok(v) => match spec_parse_decimal(v.text) {
                Ok(val) => Ok(HeaderV { rowing_distance: val, ..h }),
                Err(e) => Err(
                    ErrorV::ParseFloat { field: "rowing_distance"@, value: SourceRef::spec_of_node(v), error: e },
                ),
            },
        }
    } else if tag.kind == NodeKind::SpriteFile {
        match spec_sprite_file_of(tag) {
            Ok(sf) => Ok(HeaderV { sprite_files: h.sprite_files.push(sf), ..h }),
            Err(e) => Err(e),
        }
    } else {
        Ok(h)
    }
}

/// Applies one `HeaderTag` node to `h`.
pub open spec fn spec_header_tag(h: HeaderV, t: NodeV) -> Result<HeaderV, ErrorV> {
    if t.kind != NodeKind::HeaderTag {
        Err(spec_grammar_single(NodeKind::HeaderTag, Some(t)))
    } else if t.children.len() < 1 {
        Err(spec_grammar_single(NodeKind::HeaderTag, None))
    } else {
        spec_header_tag_value(h, t.children[0])
    }
}

/// Folds the header tags `ts[i..]` onto `h`, stopping at the first error.
pub open spec fn spec_header_fold(h: HeaderV, ts: Seq<NodeV>, i: int) -> Result<HeaderV, ErrorV>
    decreases ts.len() - i,
{
    if i < 0 || i >= ts.len() {
        Ok(h)
    } else {
        match spec_header_tag(h, ts[i]) {
            Err(e) => Err(e),
            Ok(h2) => spec_header_fold(h2, ts, i + 1),
        }
    }
}

/// The empty header every walk starts from.
pub open spec fn spec_header_empty() -> HeaderV {
    HeaderV {
        name: Seq::<char>::empty(),
        head: Seq::<char>::empty(),
        small: Seq::<char>::empty(),
        sprite_files: Seq::<SpriteFileV>::empty(),
        walking_frame_rate: 0u32,
        walking_speed: Decimal { neg: false, units: 0, frac: 0, frac_len: 0 },
        walking_speed_z: Decimal { neg: false, units: 0, frac: 0, frac_len: 0 },
        running_frame_rate: 0u32,
        running_speed: Decimal { neg: false, units: 0, frac: 0, frac_len: 0 },
        running_speed_z: Decimal { neg: false, units: 0, frac: 0, frac_len: 0 },
        heavy_walking_speed: Decimal { neg: false, units: 0, frac: 0, frac_len: 0 },
        heavy_walking_speed_z: Decimal { neg: false, units: 0, frac: 0, frac_len: 0 },
        heavy_running_speed: Decimal { neg: false, units: 0, frac: 0, frac_len: 0 },
        heavy_running_speed_z: Decimal { neg: false, units: 0, frac: 0, frac_len: 0 },
        jump_height: Decimal { neg: false, units: 0, frac: 0, frac_len: 0 },
        jump_distance: Decimal { neg: false, units: 0, frac: 0, frac_len: 0 },
        jump_distance_z: Decimal { neg: false, units: 0, frac: 0, frac_len: 0 },
        dash_height: Decimal { neg: false, units: 0, frac: 0, frac_len: 0 },
        dash_distance: Decimal { neg: false, units: 0, frac: 0, frac_len: 0 },
        dash_distance_z: Decimal { neg: false, units: 0, frac: 0, frac_len: 0 },
        rowing_height: Decimal { neg: false, units: 0, frac: 0, frac_len: 0 },
        rowing_distance: Decimal { neg: false, units: 0, frac: 0, frac_len: 0 },
    }
}

/// The finalization check: the fields with no sane default must have been
/// set. The first missing one is named.
pub open spec fn spec_header_finalize(h: HeaderV) -> Result<HeaderV, ErrorV> {
    if h.name.len() == 0 {
        Err(ErrorV::BuilderFieldMissing { field: "name"@ })
    } else if h.head.len() == 0 {
        Err(ErrorV::BuilderFieldMissing { field: "head"@ })
    } else if h.small.len() == 0 {
        Err(ErrorV::BuilderFieldMissing { field: "small"@ })
    } else {
        Ok(h)
    }
}

/// Meaning of a `Header` node: its tags applied in order to the empty
/// header, then finalized.
pub open spec fn spec_header_of(n: NodeV) -> Result<HeaderV, ErrorV> {
    if n.kind != NodeKind::Header {
        Err(spec_grammar_single(NodeKind::Header, Some(n)))
    } else {
        match spec_child_expect(n, 0, NodeKind::HeaderData) {
            Err(e) => Err(e),
            Ok(data) => match spec_header_fold(spec_header_empty(), data.children, 0) {
                Err(e) => Err(e),
                Ok(h) => spec_header_finalize(h),
            },
        }
    }
}

impl Header {
    /// Applies one inner header tag node to `h`.
    #[verifier::rlimit(60)]
    fn apply_tag_value(h: Header, tag: &Node) -> (r: Result<Header, Error>)
        ensures
            match r {
                Ok(h2) => spec_header_tag_value(h@, tag@) == Ok::<HeaderV, ErrorV>(h2@),
                Err(e) => spec_header_tag_value(h@, tag@) == Err::<HeaderV, ErrorV>(e@),
            },
    {
        let ghost old_h = h@;
        match tag.kind {
            NodeKind::TagName => {
                let v = match ObjectDataParser::parse_value(tag) {
                    Ok(v) => v,
                    Err(e) => {
                        return Err(e);
                    },
                };
                Ok(Header { name: v.text.clone(), ..h })
            },
            NodeKind::TagHead => {
                let v = match ObjectDataParser::parse_value(tag) {
                    Ok(v) => v,
                    Err(e) => {
                        return Err(e);
                    },
                };
                if v.text.as_str().is_empty() {
                    Err(Error::ParsePath { field: "head", value: SourceRef::of_node(v) })
                } else {
                    Ok(Header { head: v.text.clone(), ..h })
                }
            },
            NodeKind::TagSmall => {
                let v = match ObjectDataParser::parse_value(tag) {
                    Ok(v) => v,
                    Err(e) => {
                        return Err(e);
                    },
                };
                if v.text.as_str().is_empty() {
                    Err(Error::ParsePath { field: "small", value: SourceRef::of_node(v) })
                } else {
                    Ok(Header { small: v.text.clone(), ..h })
                }
            },
            NodeKind::TagWalkingFrameRate => {
                let v = match ObjectDataParser::parse_value(tag) {
                    Ok(v) => v,
                    Err(e) => {
                        return Err(e);
                    },
                };
                match parse_u32(v.text.as_str()) {
                    Ok(val) => Ok(Header { walking_frame_rate: val, ..h }),
                    Err(e) => Err(
                        Error::ParseInt { field: "walking_frame_rate", value: SourceRef::of_node(v), error: e },
                    ),
                }
            },
            NodeKind::TagRunningFrameRate => {
                let v = match ObjectDataParser::parse_value(tag) {
                    Ok(v) => v,
                    Err(e) => {
                        return Err(e);
                    },
                };
                match parse_u32(v.text.as_str()) {
                    Ok(val) => Ok(Header { running_frame_rate: val, ..h }),
                    Err(e) => Err(
                        Error::ParseInt { field: "running_frame_rate", value: SourceRef::of_node(v), error: e },
                    ),
                }
            },
            NodeKind::TagWalkingSpeed => {
                let v = match ObjectDataParser::parse_value(tag) {
                    Ok(v) => v,
                    Err(e) => {
                        return Err(e);
                    },
                };
                match parse_decimal(v.text.as_str()) {
                    Ok(val) => Ok(Header { walking_speed: val, ..h }),
                    Err(e) => Err(
                        Error::ParseFloat { field: "walking_speed", value: SourceRef::of_node(v), error: e },
                    ),
                }
            },
            NodeKind::TagWalkingSpeedZ => {
                let v = match ObjectDataParser::parse_value(tag) {
                    Ok(v) => v,
                    Err(e) => {
                        return Err(e);
                    },
                };
                match parse_decimal(v.text.as_str()) {
                    Ok(val) => Ok(Header { walking_speed_z: val, ..h }),
                    Err(e) => Err(
                        Error::ParseFloat { field: "walking_speed_z", value: SourceRef::of_node(v), error: e },
                    ),
                }
            },
            NodeKind::TagRunningSpeed => {
                let v = match ObjectDataParser::parse_value(tag) {
                    Ok(v) => v,
                    Err(e) => {
                        return Err(e);
                    },
                };
                match parse_decimal(v.text.as_str()) {
                    Ok(val) => Ok(Header { running_speed: val, ..h }),
                    Err(e) => Err(
                        Error::ParseFloat { field: "running_speed", value: SourceRef::of_node(v), error: e },
                    ),
                }
            },
            NodeKind::TagRunningSpeedZ => {
                let v = match ObjectDataParser::parse_value(tag) {
                    Ok(v) => v,
                    Err(e) => {
                        return Err(e);
                    },
                };
                match parse_decimal(v.text.as_str()) {
                    Ok(val) => Ok(Header { running_speed_z: val, ..h }),
                    Err(e) => Err(
                        Error::ParseFloat { field: "running_speed_z", value: SourceRef::of_node(v), error: e },
                    ),
                }
            },
            NodeKind::TagHeavyWalkingSpeed => {
                let v = match ObjectDataParser::parse_value(tag) {
                    Ok(v) => v,
                    Err(e) => {
                        return Err(e);
                    },
                };
                match parse_decimal(v.text.as_str()) {
                    Ok(val) => Ok(Header { heavy_walking_speed: val, ..h }),
                    Err(e) => Err(
                        Error::ParseFloat { field: "heavy_walking_speed", value: SourceRef::of_node(v), error: e },
                    ),
                }
            },
            NodeKind::TagHeavyWalkingSpeedZ => {
                let v = match ObjectDataParser::parse_value(tag) {
                    Ok(v) => v,
                    Err(e) => {
                        return Err(e);
                    },
                };
                match parse_decimal(v.text.as_str()) {
                    Ok(val) => Ok(Header { heavy_walking_speed_z: val, ..h }),
                    Err(e) => Err(
                        Error::ParseFloat { field: "heavy_walking_speed_z", value: SourceRef::of_node(v), error: e },
                    ),
                }
            },
            NodeKind::TagHeavyRunningSpeed => {
                let v = match ObjectDataParser::parse_value(tag) {
                    Ok(v) => v,
                    Err(e) => {
                        return Err(e);
                    },
                };
                match parse_decimal(v.text.as_str()) {
                    Ok(val) => Ok(Header { heavy_running_speed: val, ..h }),
                    Err(e) => Err(
                        Error::ParseFloat { field: "heavy_running_speed", value: SourceRef::of_node(v), error: e },
                    ),
                }
            },
            NodeKind::TagHeavyRunningSpeedZ => {
                let v = match ObjectDataParser::parse_value(tag) {
                    Ok(v) => v,
                    Err(e) => {
                        return Err(e);
                    },
                };
                match parse_decimal(v.text.as_str()) {
                    Ok(val) => Ok(Header { heavy_running_speed_z: val, ..h }),
                    Err(e) => Err(
                        Error::ParseFloat { field: "heavy_running_speed_z", value: SourceRef::of_node(v), error: e },
                    ),
                }
            },
            NodeKind::TagJumpHeight => {
                let v = match ObjectDataParser::parse_value(tag) {
                    Ok(v) => v,
                    Err(e) => {
                        return Err(e);
                    },
                };
                match parse_decimal(v.text.as_str()) {
                    Ok(val) => Ok(Header { jump_height: val, ..h }),
                    Err(e) => Err(
                        Error::ParseFloat { field: "jump_height", value: SourceRef::of_node(v), error: e },
                    ),
                }
            },
            NodeKind::TagJumpDistance => {
                let v = match ObjectDataParser::parse_value(tag) {
                    Ok(v) => v,
                    Err(e) => {
                        return Err(e);
                    },
                };
                match parse_decimal(v.text.as_str()) {
                    Ok(val) => Ok(Header { jump_distance: val, ..h }),
                    Err(e) => Err(
                        Error::ParseFloat { field: "jump_distance", value: SourceRef::of_node(v), error: e },
                    ),
                }
            },
            NodeKind::TagJumpDistanceZ => {
                let v = match ObjectDataParser::parse_value(tag) {
                    Ok(v) => v,
                    Err(e) => {
                        return Err(e);
                    },
                };
                match parse_decimal(v.text.as_str()) {
                    Ok(val) => Ok(Header { jump_distance_z: val, ..h }),
                    Err(e) => Err(
                        Error::ParseFloat { field: "jump_distance_z", value: SourceRef::of_node(v), error: e },
                    ),
                }
            },
            NodeKind::TagDashHeight => {
                let v = match ObjectDataParser::parse_value(tag) {
                    Ok(v) => v,
                    Err(e) => {
                        return Err(e);
                    },
                };
                match parse_decimal(v.text.as_str()) {
                    Ok(val) => Ok(Header { dash_height: val, ..h }),
                    Err(e) => Err(
                        Error::ParseFloat { field: "dash_height", value: SourceRef::of_node(v), error: e },
                    ),
                }
            },
            NodeKind::TagDashDistance => {
                let v = match ObjectDataParser::parse_value(tag) {
                    Ok(v) => v,
                    Err(e) => {
                        return Err(e);
                    },
                };
                match parse_decimal(v.text.as_str()) {
                    Ok(val) => Ok(Header { dash_distance: val, ..h }),
                    Err(e) => Err(
                        Error::ParseFloat { field: "dash_distance", value: SourceRef::of_node(v), error: e },
                    ),
                }
            },
            NodeKind::TagDashDistanceZ => {
                let v = match ObjectDataParser::parse_value(tag) {
                    Ok(v) => v,
                    Err(e) => {
                        return Err(e);
                    },
                };
                match parse_decimal(v.text.as_str()) {
                    Ok(val) => Ok(Header { dash_distance_z: val, ..h }),
                    Err(e) => Err(
                        Error::ParseFloat { field: "dash_distance_z", value: SourceRef::of_node(v), error: e },
                    ),
                }
            },
            NodeKind::TagRowingHeight => {
                let v = match ObjectDataParser::parse_value(tag) {
                    Ok(v) => v,
                    Err(e) => {
                        return Err(e);
                    },
                };
                match parse_decimal(v.text.as_str()) {
                    Ok(val) => Ok(Header { rowing_height: val, ..h }),
                    Err(e) => Err(
                        Error::ParseFloat { field: "rowing_height", value: SourceRef::of_node(v), error: e },
                    ),
                }
            },
            NodeKind::TagRowingDistance => {
                let v = match ObjectDataParser::parse_value(tag) {
                    Ok(v) => v,
                    Err(e) => {
                        return Err(e);
                    },
                };
                match parse_decimal(v.text.as_str()) {
                    Ok(val) => Ok(Header { rowing_distance: val, ..h }),
                    Err(e) => Err(
                        Error::ParseFloat { field: "rowing_distance", value: SourceRef::of_node(v), error: e },
                    ),
                }
            },
            NodeKind::SpriteFile => {
                match SpriteFile::from_node(tag) {
                    Ok(sf) => {
                        let mut h2 = h;
                        h2.sprite_files.push(sf);
                        proof {
                            assert(h2@.sprite_files =~= old_h.sprite_files.push(sf@));
                        }
                        Ok(h2)
                    },
                    Err(e) => Err(e),
                }
            },
            _ => Ok(h),
        }
    }

    /// Applies one `HeaderTag` node to `h`.
    fn apply_tag(h: Header, t: &Node) -> (r: Result<Header, Error>)
        ensures
            match r {
                Ok(h2) => spec_header_tag(h@, t@) == Ok::<HeaderV, ErrorV>(h2@),
                Err(e) => spec_header_tag(h@, t@) == Err::<HeaderV, ErrorV>(e@),
            },
    {
        match ObjectDataParser::expect_kind(t, NodeKind::HeaderTag) {
            Ok(_) => {},
            Err(e) => {
                return Err(e);
            },
        }
        proof {
            lemma_node_seq_view(t.children@);
        }
        if t.children.len() < 1 {
            return Err(Error::GrammarSingle { rule_expected: NodeKind::HeaderTag, found: None });
        }
        Self::apply_tag_value(h, &t.children[0])
    }

    /// Reads a header from a `Header` node.
    pub fn from_node(n: &Node) -> (r: Result<Header, Error>)
        ensures
            match r {
                Ok(h) => spec_header_of(n@) == Ok::<HeaderV, ErrorV>(h@),
                Err(e) => spec_header_of(n@) == Err::<HeaderV, ErrorV>(e@),
            },
    {
        match ObjectDataParser::expect_kind(n, NodeKind::Header) {
            Ok(_) => {},
            Err(e) => {
                return Err(e);
            },
        }
        let data = match ObjectDataParser::child_expect(n, 0, NodeKind::HeaderData) {
            Ok(d) => d,
            Err(e) => {
                return Err(e);
            },
        };
        let mut h = Header::new();
        let len = data.children.len();
        proof {
            lemma_node_seq_view(data.children@);
        }
        let mut i: usize = 0;
        while i < len
            invariant
                0 <= i <= len,
                len == data@.children.len(),
                data@.children == crate::syntax::children_view(data.children),
                len == data.children@.len(),
                forall|j: int|
                    0 <= j < len ==> crate::syntax::children_view(data.children)[j]
                        == #[trigger] data.children@[j]@,
                n@.kind == NodeKind::Header,
                spec_child_expect(n@, 0, NodeKind::HeaderData) == Ok::<NodeV, ErrorV>(data@),
                spec_header_fold(spec_header_empty(), data@.children, 0) == spec_header_fold(
                    h@,
                    data@.children,
                    i as int,
                ),
            decreases len - i,
        {
            let t = &data.children[i];
            h = match Self::apply_tag(h, t) {
                Ok(h2) => h2,
                Err(e) => {
                    return Err(e);
                },
            };
            i = i + 1;
        }
        if h.name.as_str().is_empty() {
            return Err(Error::BuilderFieldMissing { field: "name" });
        }
        if h.head.as_str().is_empty() {
            return Err(Error::BuilderFieldMissing { field: "head" });
        }
        if h.small.as_str().is_empty() {
            return Err(Error::BuilderFieldMissing { field: "small" });
        }
        Ok(h)
    }
}

} // verus!
