//! Bleed point.

use vstd::prelude::*;

use crate::error::{spec_grammar_single, Error, ErrorV, SourceRef};
use crate::object_data_parser::{spec_child_expect, spec_tag_value, ObjectDataParser};
use crate::syntax::{lemma_node_seq_view, Node, NodeKind, NodeV};
use crate::numeric::{parse_i32, spec_parse_i32};

verus! {

/// Where the character bleeds when its health is low.
#[derive(Clone, Copy, Debug, PartialEq, Eq, Structural)]
pub struct BPoint {
    /// X coordinate.
    pub x: i32,
    /// Y coordinate.
    pub y: i32,
}

impl Default for BPoint {
    /// A bleed point at the origin.
    fn default() -> (r: BPoint)
        ensures
            r == (BPoint { x: 0i32, y: 0i32 }),
    {
        BPoint { x: 0, y: 0 }
    }
}

} // verus!

// The walker: how a `BPoint` node becomes a `BPoint` record.

verus! {

/// Applies one tag (the inner tag node of a `BPointTag`) to `b`.
/// A tag kind this element does not know leaves `b` unchanged.
pub open spec fn spec_b_point_tag_value(b: BPoint, tag: NodeV) -> Result<BPoint, ErrorV> {
    if tag.kind == NodeKind::TagX {
        match spec_tag_value(tag) {
            Err(e) => Err(e),
            Ok(v) => match spec_parse_i32(v.text) {
                Ok(val) => Ok(BPoint { x: val, ..b }),
                Err(e) => Err(
                    ErrorV::ParseInt { field: "x"@, value: SourceRef::spec_of_node(v), error: e },
                ),
            },
        }
    } else if tag.kind == NodeKind::TagY {
        match spec_tag_value(tag) {
            Err(e) => Err(e),
            Ok(v) => match spec_parse_i32(v.text) {
                Ok(val) => Ok(BPoint { y: val, ..b }),
                Err(e) => Err(
                    ErrorV::ParseInt { field: "y"@, value: SourceRef::spec_of_node(v), error: e },
                ),
            },
        }
    } else {
        Ok(b)
    }
}

/// Applies one `BPointTag` node to `b`.
pub open spec fn spec_b_point_tag(b: BPoint, t: NodeV) -> Result<BPoint, ErrorV> {
    if t.kind != NodeKind::BPointTag {
        Err(spec_grammar_single(NodeKind::BPointTag, Some(t)))
    } else if t.children.len() < 1 {
        Err(spec_grammar_single(NodeKind::BPointTag, None))
    } else {
        spec_b_point_tag_value(b, t.children[0])
    }
}

/// Folds the tag nodes `ts[i..]` onto `b`, stopping at the first error.
pub open spec fn spec_b_point_fold(b: BPoint, ts: Seq<NodeV>, i: int) -> Result<BPoint, ErrorV>
    decreases ts.len() - i,
{
    if i < 0 || i >= ts.len() {
        Ok(b)
    } else {
        match spec_b_point_tag(b, ts[i]) {
            Err(e) => Err(e),
            Ok(n2) => spec_b_point_fold(n2, ts, i + 1),
        }
    }
}

/// Meaning of a `BPoint` node as a record: its tags applied in order to
/// the default record.
pub open spec fn spec_b_point_of(n: NodeV) -> Result<BPoint, ErrorV> {
    if n.kind != NodeKind::BPoint {
        Err(spec_grammar_single(NodeKind::BPoint, Some(n)))
    } else {
        match spec_child_expect(n, 0, NodeKind::BPointData) {
            Err(e) => Err(e),
            Ok(data) => spec_b_point_fold(BPoint { x: 0, y: 0 }, data.children, 0),
        }
    }
}

impl BPoint {
    /// Applies one inner tag node to `b`.
    fn apply_tag_value(b: BPoint, tag: &Node) -> (r: Result<BPoint, Error>)
        ensures
            match r {
                Ok(n2) => spec_b_point_tag_value(b, tag@) == Ok::<BPoint, ErrorV>(n2),
                Err(e) => spec_b_point_tag_value(b, tag@) == Err::<BPoint, ErrorV>(e@),
            },
    {
        match tag.kind {
            NodeKind::TagX => {
                let v = match ObjectDataParser::parse_value(tag) {
                    Ok(v) => v,
                    Err(e) => {
                        return Err(e);
                    },
                };
                match parse_i32(v.text.as_str()) {
                    Ok(val) => Ok(BPoint { x: val, ..b }),
                    Err(e) => Err(
                        Error::ParseInt { field: "x", value: SourceRef::of_node(v), error: e },
                    ),
                }
            },
            NodeKind::TagY => {
                let v = match ObjectDataParser::parse_value(tag) {
                    Ok(v) => v,
                    Err(e) => {
                        return Err(e);
                    },
                };
                match parse_i32(v.text.as_str()) {
                    Ok(val) => Ok(BPoint { y: val, ..b }),
                    Err(e) => Err(
                        Error::ParseInt { field: "y", value: SourceRef::of_node(v), error: e },
                    ),
                }
            },
            _ => Ok(b),
        }
    }

    /// Applies one `BPointTag` node to `b`.
    fn apply_tag(b: BPoint, t: &Node) -> (r: Result<BPoint, Error>)
        ensures
            match r {
                Ok(n2) => spec_b_point_tag(b, t@) == Ok::<BPoint, ErrorV>(n2),
                Err(e) => spec_b_point_tag(b, t@) == Err::<BPoint, ErrorV>(e@),
            },
    {
        match ObjectDataParser::expect_kind(t, NodeKind::BPointTag) {
            Ok(_) => {},
            Err(e) => {
                return Err(e);
            },
        }
        proof {
            lemma_node_seq_view(t.children@);
        }
        if t.children.len() < 1 {
            return Err(Error::GrammarSingle { rule_expected: NodeKind::BPointTag, found: None });
        }
        Self::apply_tag_value(b, &t.children[0])
    }

    /// Reads a record from a `BPoint` node.
    pub fn from_node(n: &Node) -> (r: Result<BPoint, Error>)
        ensures
            match r {
                Ok(v) => spec_b_point_of(n@) == Ok::<BPoint, ErrorV>(v),
                Err(e) => spec_b_point_of(n@) == Err::<BPoint, ErrorV>(e@),
            },
    {
        match ObjectDataParser::expect_kind(n, NodeKind::BPoint) {
            Ok(_) => {},
            Err(e) => {
                return Err(e);
            },
        }
        let data = match ObjectDataParser::child_expect(n, 0, NodeKind::BPointData) {
            Ok(d) => d,
            Err(e) => {
                return Err(e);
            },
        };
        let mut acc = BPoint::default();
        let len = data.children.len();
        proof {
            lemma_node_seq_view(data.children@);
        }
        let mut i: usize = 0;
        while i < len
            invariant
                0 <= i <= len,
                len == data@.children.len(),
                data@.children == crate::syntax::children_view(data.children),
                len == data.children@.len(),
                forall|j: int|
                    0 <= j < len ==> crate::syntax::children_view(data.children)[j]
                        == #[trigger] data.children@[j]@,
                spec_b_point_of(n@) == spec_b_point_fold(acc, data@.children, i as int),
            decreases len - i,
        {
            let t = &data.children[i];
            acc = match Self::apply_tag(acc, t) {
                Ok(n2) => n2,
                Err(e) => {
                    return Err(e);
                },
            };
            i = i + 1;
        }
        Ok(acc)
    }
}

} // verus!
