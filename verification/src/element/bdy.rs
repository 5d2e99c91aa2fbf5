//! Hittable body volume.

use vstd::prelude::*;

use crate::error::{spec_grammar_single, Error, ErrorV, SourceRef};
use crate::frame_number_next::FrameNumberNext;
use crate::numeric::{
    parse_i32, parse_isize, parse_u32, spec_parse_i32, spec_parse_isize, spec_parse_u32,
    IntParseError,
};
use crate::object_data_parser::{spec_child_expect, spec_tag_value, ObjectDataParser};
use crate::syntax::{lemma_node_seq_view, Node, NodeKind, NodeV};

verus! {

/// Kind of a hittable body.
///
/// Not a flat enumeration: besides the literal `0`, the coded ranges
/// `1000..=1999` and `-1999..=-1000` stand for a hostage body carrying the
/// frame number to switch to when freed, found by subtracting (or adding)
/// `1000`; the sign of the code carries over into the target, where negative
/// means the facing direction also flips.
#[derive(Clone, Copy, Debug, PartialEq, Eq, Structural)]
pub enum BdyKind {
    /// Regular hittable body.
    Normal,
    /// Hostage body: hit it to free the hostage.
    Hostage {
        /// Frame number to switch to when freed.
        freed_frame: FrameNumberNext,
    },
}

/// Why a `bdy: kind:` value failed to parse.
#[derive(Clone, Copy, Debug, PartialEq, Eq, Structural)]
pub enum BdyKindParseError {
    /// The token is not an integer.
    ParseIntError(IntParseError),
    /// The integer is not a valid body kind code.
    InvalidValue(isize),
}

impl BdyKind {
    /// The body kind the integer code `value + 1000` or `value - 1000`
    /// decodes to: a hostage body freeing into frame `value`.
    pub fn from_frame_number(value: isize) -> (r: BdyKind)
        ensures
            r == (BdyKind::Hostage { freed_frame: FrameNumberNext(value) }),
    {
        BdyKind::Hostage { freed_frame: FrameNumberNext(value) }
    }

    /// Meaning of an integer code as a body kind.
    pub open spec fn spec_from_code(v: isize) -> Result<BdyKind, BdyKindParseError> {
        if v == 0 {
            Ok(BdyKind::Normal)
        } else if 1000 <= v && v <= 1999 {
            Ok(BdyKind::Hostage { freed_frame: FrameNumberNext((v - 1000) as isize) })
        } else if -1999 <= v && v <= -1000 {
            Ok(BdyKind::Hostage { freed_frame: FrameNumberNext((v + 1000) as isize) })
        } else {
            Err(BdyKindParseError::InvalidValue(v))
        }
    }

    /// Meaning of a source token as a body kind.
    pub open spec fn spec_from_str(s: Seq<char>) -> Result<BdyKind, BdyKindParseError> {
        match spec_parse_isize(s) {
            Ok(v) => Self::spec_from_code(v),
            Err(e) => Err(BdyKindParseError::ParseIntError(e)),
        }
    }

    /// Reads a body kind from its source token.
    pub fn from_str(s: &str) -> (r: Result<BdyKind, BdyKindParseError>)
        ensures
            r == Self::spec_from_str(s@),
    {
        match parse_isize(s) {
            Ok(v) => {
                if v == 0 {
                    Ok(BdyKind::Normal)
                } else if 1000 <= v && v <= 1999 {
                    Ok(BdyKind::from_frame_number(v - 1000))
                } else if -1999 <= v && v <= -1000 {
                    Ok(BdyKind::from_frame_number(v + 1000))
                } else {
                    Err(BdyKindParseError::InvalidValue(v))
                }
            },
            Err(e) => Err(BdyKindParseError::ParseIntError(e)),
        }
    }
}

impl Default for BdyKind {
    /// A regular hittable body.
    fn default() -> (r: BdyKind)
        ensures
            r == BdyKind::Normal,
    {
        BdyKind::Normal
    }
}

/// Hittable body of the object: a rectangle that other objects' interaction
/// areas can strike.
#[derive(Clone, Copy, Debug, PartialEq, Eq, Structural)]
pub struct Bdy {
    /// Body kind; coded ranges mark hostage bodies.
    pub kind: BdyKind,
    /// X coordinate.
    pub x: i32,
    /// Y coordinate.
    pub y: i32,
    /// Width.
    pub w: u32,
    /// Height.
    pub h: u32,
}

impl Default for Bdy {
    /// A zero-sized normal body at the origin.
    fn default() -> (r: Bdy)
        ensures
            r == (Bdy { kind: BdyKind::Normal, x: 0i32, y: 0i32, w: 0u32, h: 0u32 }),
    {
        Bdy { kind: BdyKind::Normal, x: 0, y: 0, w: 0, h: 0 }
    }
}

/// Law: the coded ranges decode arithmetically. `0` is the normal body;
/// a code `v` in `1000..=1999` decodes to a hostage body freeing into frame
/// `v - 1000`; a code in `-1999..=-1000` to one freeing into `v + 1000`
/// (the sign carrying the facing flip); every other code is rejected with
/// that code in the error.
pub proof fn lemma_bdy_kind_codes(v: isize)
    ensures
        v == 0 ==> BdyKind::spec_from_code(v) == Ok::<BdyKind, BdyKindParseError>(BdyKind::Normal),
        1000 <= v <= 1999 ==> BdyKind::spec_from_code(v) == Ok::<BdyKind, BdyKindParseError>(
            BdyKind::Hostage { freed_frame: FrameNumberNext((v - 1000) as isize) },
        ),
        -1999 <= v <= -1000 ==> BdyKind::spec_from_code(v) == Ok::<BdyKind, BdyKindParseError>(
            BdyKind::Hostage { freed_frame: FrameNumberNext((v + 1000) as isize) },
        ),
        !(v == 0 || 1000 <= v <= 1999 || -1999 <= v <= -1000) ==> BdyKind::spec_from_code(v)
            == Err::<BdyKind, BdyKindParseError>(BdyKindParseError::InvalidValue(v)),
{
}

} // verus!

// The walker: how a `Bdy` node becomes a `Bdy` record.

verus! {

/// Applies one body tag (the inner tag node of a `BdyTag`) to `b`.
/// A tag kind the body does not know leaves `b` unchanged.
pub open spec fn spec_bdy_tag_value(b: Bdy, tag: NodeV) -> Result<Bdy, ErrorV> {
    if tag.kind == NodeKind::TagKind {
        match spec_tag_value(tag) {
            Err(e) => Err(e),
            Ok(v) => match BdyKind::spec_from_str(v.text) {
                Ok(k) => Ok(Bdy { kind: k, ..b }),
                Err(e) => Err(
                    ErrorV::ParseBdyKind { value: SourceRef::spec_of_node(v), error: e },
                ),
            },
        }
    } else if tag.kind == NodeKind::TagX {
        match spec_tag_value(tag) {
            Err(e) => Err(e),
            Ok(v) => match spec_parse_i32(v.text) {
                Ok(x) => Ok(Bdy { x, ..b }),
                Err(e) => Err(
                    ErrorV::ParseInt { field: "x"@, value: SourceRef::spec_of_node(v), error: e },
                ),
            },
        }
    } else if tag.kind == NodeKind::TagY {
        match spec_tag_value(tag) {
            Err(e) => Err(e),
            Ok(v) => match spec_parse_i32(v.text) {
                Ok(y) => Ok(Bdy { y, ..b }),
                Err(e) => Err(
                    ErrorV::ParseInt { field: "y"@, value: SourceRef::spec_of_node(v), error: e },
                ),
            },
        }
    } else if tag.kind == NodeKind::TagW {
        match spec_tag_value(tag) {
            Err(e) => Err(e),
            Ok(v) => match spec_parse_u32(v.text) {
                Ok(w) => Ok(Bdy { w, ..b }),
                Err(e) => Err(
                    ErrorV::ParseInt { field: "w"@, value: SourceRef::spec_of_node(v), error: e },
                ),
            },
        }
    } else if tag.kind == NodeKind::TagH {
        match spec_tag_value(tag) {
            Err(e) => Err(e),
            Ok(v) => match spec_parse_u32(v.text) {
                Ok(h) => Ok(Bdy { h, ..b }),
                Err(e) => Err(
                    ErrorV::ParseInt { field: "h"@, value: SourceRef::spec_of_node(v), error: e },
                ),
            },
        }
    } else {
        Ok(b)
    }
}

/// Applies one `BdyTag` node to `b`.
pub open spec fn spec_bdy_tag(b: Bdy, t: NodeV) -> Result<Bdy, ErrorV> {
    if t.kind != NodeKind::BdyTag {
        Err(spec_grammar_single(NodeKind::BdyTag, Some(t)))
    } else if t.children.len() < 1 {
        Err(spec_grammar_single(NodeKind::BdyTag, None))
    } else {
        spec_bdy_tag_value(b, t.children[0])
    }
}

/// Folds the tag nodes `ts[i..]` onto `b`, stopping at the first error.
pub open spec fn spec_bdy_fold(b: Bdy, ts: Seq<NodeV>, i: int) -> Result<Bdy, ErrorV>
    decreases ts.len() - i,
{
    if i < 0 || i >= ts.len() {
        Ok(b)
    } else {
        match spec_bdy_tag(b, ts[i]) {
            Err(e) => Err(e),
            Ok(b2) => spec_bdy_fold(b2, ts, i + 1),
        }
    }
}

/// Meaning of a `Bdy` node as a body record: its tags applied in order to
/// the default body.
pub open spec fn spec_bdy_of(n: NodeV) -> Result<Bdy, ErrorV> {
    if n.kind != NodeKind::Bdy {
        Err(spec_grammar_single(NodeKind::Bdy, Some(n)))
    } else {
        match spec_child_expect(n, 0, NodeKind::BdyData) {
            Err(e) => Err(e),
            Ok(data) => spec_bdy_fold(
                Bdy { kind: BdyKind::Normal, x: 0, y: 0, w: 0, h: 0 },
                data.children,
                0,
            ),
        }
    }
}

impl Bdy {
    /// Applies one inner tag node to `b`.
    fn apply_tag_value(b: Bdy, tag: &Node) -> (r: Result<Bdy, Error>)
        ensures
            match r {
                Ok(b2) => spec_bdy_tag_value(b, tag@) == Ok::<Bdy, ErrorV>(b2),
                Err(e) => spec_bdy_tag_value(b, tag@) == Err::<Bdy, ErrorV>(e@),
            },
    {
        match tag.kind {
            NodeKind::TagKind => {
                let v = match ObjectDataParser::parse_value(tag) {
                    Ok(v) => v,
                    Err(e) => {
                        return Err(e);
                    },
                };
                match BdyKind::from_str(v.text.as_str()) {
                    Ok(k) => Ok(Bdy { kind: k, ..b }),
                    Err(e) => Err(Error::ParseBdyKind { value: SourceRef::of_node(v), error: e }),
                }
            },
            NodeKind::TagX => {
                let v = match ObjectDataParser::parse_value(tag) {
                    Ok(v) => v,
                    Err(e) => {
                        return Err(e);
                    },
                };
                match parse_i32(v.text.as_str()) {
                    Ok(x) => Ok(Bdy { x, ..b }),
                    Err(e) => Err(
                        Error::ParseInt { field: "x", value: SourceRef::of_node(v), error: e },
                    ),
                }
            },
            NodeKind::TagY => {
                let v = match ObjectDataParser::parse_value(tag) {
                    Ok(v) => v,
                    Err(e) => {
                        return Err(e);
                    },
                };
                match parse_i32(v.text.as_str()) {
                    Ok(y) => Ok(Bdy { y, ..b }),
                    Err(e) => Err(
                        Error::ParseInt { field: "y", value: SourceRef::of_node(v), error: e },
                    ),
                }
            },
            NodeKind::TagW => {
                let v = match ObjectDataParser::parse_value(tag) {
                    Ok(v) => v,
                    Err(e) => {
                        return Err(e);
                    },
                };
                match parse_u32(v.text.as_str()) {
                    Ok(w) => Ok(Bdy { w, ..b }),
                    Err(e) => Err(
                        Error::ParseInt { field: "w", value: SourceRef::of_node(v), error: e },
                    ),
                }
            },
            NodeKind::TagH => {
                let v = match ObjectDataParser::parse_value(tag) {
                    Ok(v) => v,
                    Err(e) => {
                        return Err(e);
                    },
                };
                match parse_u32(v.text.as_str()) {
                    Ok(h) => Ok(Bdy { h, ..b }),
                    Err(e) => Err(
                        Error::ParseInt { field: "h", value: SourceRef::of_node(v), error: e },
                    ),
                }
            },
            _ => Ok(b),
        }
    }

    /// Applies one `BdyTag` node to `b`.
    fn apply_tag(b: Bdy, t: &Node) -> (r: Result<Bdy, Error>)
        ensures
            match r {
                Ok(b2) => spec_bdy_tag(b, t@) == Ok::<Bdy, ErrorV>(b2),
                Err(e) => spec_bdy_tag(b, t@) == Err::<Bdy, ErrorV>(e@),
            },
    {
        match ObjectDataParser::expect_kind(t, NodeKind::BdyTag) {
            Ok(_) => {},
            Err(e) => {
                return Err(e);
            },
        }
        proof {
            lemma_node_seq_view(t.children@);
        }
        if t.children.len() < 1 {
            return Err(Error::GrammarSingle { rule_expected: NodeKind::BdyTag, found: None });
        }
        Self::apply_tag_value(b, &t.children[0])
    }

    /// Reads a body record from a `Bdy` node.
    pub fn from_node(n: &Node) -> (r: Result<Bdy, Error>)
        ensures
            match r {
                Ok(b) => spec_bdy_of(n@) == Ok::<Bdy, ErrorV>(b),
                Err(e) => spec_bdy_of(n@) == Err::<Bdy, ErrorV>(e@),
            },
    {
        match ObjectDataParser::expect_kind(n, NodeKind::Bdy) {
            Ok(_) => {},
            Err(e) => {
                return Err(e);
            },
        }
        let data = match ObjectDataParser::child_expect(n, 0, NodeKind::BdyData) {
            Ok(d) => d,
            Err(e) => {
                return Err(e);
            },
        };
        let mut b = Bdy::default();
        let len = data.children.len();
        proof {
            lemma_node_seq_view(data.children@);
        }
        let mut i: usize = 0;
        while i < len
            invariant
                0 <= i <= len,
                len == data@.children.len(),
                data@.children == crate::syntax::children_view(data.children),
                len == data.children@.len(),
                forall|j: int|
                    0 <= j < len ==> crate::syntax::children_view(data.children)[j]
                        == #[trigger] data.children@[j]@,
                spec_bdy_of(n@) == spec_bdy_fold(b, data@.children, i as int),
            decreases len - i,
        {
            let t = &data.children[i];
            b = match Self::apply_tag(b, t) {
                Ok(b2) => b2,
                Err(e) => {
                    return Err(e);
                },
            };
            i = i + 1;
        }
        Ok(b)
    }
}

} // verus!

verus! {

impl BdyKindParseError {
    /// A human-readable description of the failure. On an invalid value it
    /// quotes the value and enumerates the valid codes.
    pub fn message(&self) -> (r: String)
        ensures
            self matches BdyKindParseError::ParseIntError(e) ==> r@ == e.spec_message(),
            self matches BdyKindParseError::InvalidValue(v) ==> crate::text::contains_seq(
                r@,
                crate::text::spec_i64_string(v as i64),
            ) && crate::text::contains_seq(
                r@,
                "` is not a valid `BdyKind` value. Valid values are:\n\n* 0: Normal\n* 1000 to 1999: Go to frame 0 - 999\n* -1000 to -1999: Go to frame 0 - 999, change facing\n"@,
            ),
    {
        match self {
            BdyKindParseError::ParseIntError(e) => e.message(),
            BdyKindParseError::InvalidValue(v) => {
                let mut s = String::new();
                crate::text::push_str(&mut s, "`");
                let ghost a = s@;
                let digits = crate::text::i64_to_string(*v as i64);
                crate::text::push_str(&mut s, digits.as_str());
                proof {
                    crate::text::lemma_contains_suffix(a, digits@);
                }
                let ghost b = s@;
                crate::text::push_str(
                    &mut s,
                    "` is not a valid `BdyKind` value. Valid values are:\n\n* 0: Normal\n* 1000 to 1999: Go to frame 0 - 999\n* -1000 to -1999: Go to frame 0 - 999, change facing\n",
                );
                proof {
                    crate::text::lemma_contains_extend(b, "` is not a valid `BdyKind` value. Valid values are:\n\n* 0: Normal\n* 1000 to 1999: Go to frame 0 - 999\n* -1000 to -1999: Go to frame 0 - 999, change facing\n"@, digits@);
                    crate::text::lemma_contains_suffix(b, "` is not a valid `BdyKind` value. Valid values are:\n\n* 0: Normal\n* 1000 to 1999: Go to frame 0 - 999\n* -1000 to -1999: Go to frame 0 - 999, change facing\n"@);
                }
                s
            },
        }
    }
}

} // verus!
