//! Frame elements: the typed sub-records a frame can carry.

use vstd::prelude::*;

use crate::element::b_point::BPoint;
use crate::element::bdy::Bdy;
use crate::element::c_point::CPoint;
use crate::element::itr::Itr;
use crate::element::o_point::OPoint;
use crate::element::w_point::WPoint;

pub mod b_point;
pub mod bdy;
pub mod c_point;
pub mod itr;
pub mod o_point;
pub mod w_point;

verus! {

/// A spatial feature attached to a frame.
#[derive(Clone, Copy, Debug, PartialEq, Eq, Structural)]
pub enum Element {
    /// Hittable body of the object.
    Bdy(Bdy),
    /// Bleeding coordinates when the character has low health.
    BPoint(BPoint),
    /// Aligns the character that is holding and the one that is held.
    CPoint(CPoint),
    /// Interaction that this object places on another.
    Itr(Itr),
    /// Spawns an object.
    OPoint(OPoint),
    /// Controls a held light or heavy weapon.
    WPoint(WPoint),
}

} // verus!

// The dispatch: which concrete element an `Element` node holds.

use crate::element::b_point::spec_b_point_of;
use crate::element::bdy::spec_bdy_of;
use crate::element::c_point::spec_c_point_of;
use crate::element::itr::spec_itr_of;
use crate::element::o_point::spec_o_point_of;
use crate::element::w_point::spec_w_point_of;
use crate::error::{spec_grammar_single, Error, ErrorV, SourceRef};
use crate::syntax::{lemma_node_seq_view, Node, NodeKind, NodeV};

verus! {

/// The element kinds that may stand inside an `Element` node.
pub open spec fn spec_element_kinds() -> Seq<NodeKind> {
    seq![
        NodeKind::Bdy,
        NodeKind::BPoint,
        NodeKind::CPoint,
        NodeKind::Itr,
        NodeKind::OPoint,
        NodeKind::WPoint,
    ]
}

/// Meaning of an `Element` node: its single child read as the concrete
/// element its kind names. A child of any other kind is a hard error
/// carrying all six accepted kinds.
pub open spec fn spec_element_of(n: NodeV) -> Result<Element, ErrorV> {
    if n.kind != NodeKind::Element {
        Err(spec_grammar_single(NodeKind::Element, Some(n)))
    } else if n.children.len() < 1 {
        Err(spec_grammar_single(NodeKind::Element, None))
    } else {
        let c = n.children[0];
        if c.kind == NodeKind::Bdy {
            match spec_bdy_of(c) {
                Ok(v) => Ok(Element::Bdy(v)),
                Err(e) => Err(e),
            }
        } else if c.kind == NodeKind::BPoint {
            match spec_b_point_of(c) {
                Ok(v) => Ok(Element::BPoint(v)),
                Err(e) => Err(e),
            }
        } else if c.kind == NodeKind::CPoint {
            match spec_c_point_of(c) {
                Ok(v) => Ok(Element::CPoint(v)),
                Err(e) => Err(e),
            }
        } else if c.kind == NodeKind::Itr {
            match spec_itr_of(c) {
                Ok(v) => Ok(Element::Itr(v)),
                Err(e) => Err(e),
            }
        } else if c.kind == NodeKind::OPoint {
            match spec_o_point_of(c) {
                Ok(v) => Ok(Element::OPoint(v)),
                Err(e) => Err(e),
            }
        } else if c.kind == NodeKind::WPoint {
            match spec_w_point_of(c) {
                Ok(v) => Ok(Element::WPoint(v)),
                Err(e) => Err(e),
            }
        } else {
            Err(
                ErrorV::Grammar {
                    rules_expected: spec_element_kinds(),
                    found: Some(crate::error::SourceRef::spec_of_node(c)),
                },
            )
        }
    }
}

impl Element {
    /// Reads the concrete element an `Element` node holds.
    pub fn from_node(n: &Node) -> (r: Result<Element, Error>)
        ensures
            match r {
                Ok(v) => spec_element_of(n@) == Ok::<Element, ErrorV>(v),
                Err(e) => spec_element_of(n@) == Err::<Element, ErrorV>(e@),
            },
    {
        if n.kind != NodeKind::Element {
            return Err(
                Error::GrammarSingle {
                    rule_expected: NodeKind::Element,
                    found: Some(SourceRef::of_node(n)),
                },
            );
        }
        proof {
            lemma_node_seq_view(n.children@);
        }
        if n.children.len() < 1 {
            return Err(Error::GrammarSingle { rule_expected: NodeKind::Element, found: None });
        }
        let c = &n.children[0];
        match c.kind {
            NodeKind::Bdy => match crate::element::bdy::Bdy::from_node(c) {
                Ok(v) => Ok(Element::Bdy(v)),
                Err(e) => Err(e),
            },
            NodeKind::BPoint => match crate::element::b_point::BPoint::from_node(c) {
                Ok(v) => Ok(Element::BPoint(v)),
                Err(e) => Err(e),
            },
            NodeKind::CPoint => match crate::element::c_point::CPoint::from_node(c) {
                Ok(v) => Ok(Element::CPoint(v)),
                Err(e) => Err(e),
            },
            NodeKind::Itr => match crate::element::itr::Itr::from_node(c) {
                Ok(v) => Ok(Element::Itr(v)),
                Err(e) => Err(e),
            },
            NodeKind::OPoint => match crate::element::o_point::OPoint::from_node(c) {
                Ok(v) => Ok(Element::OPoint(v)),
                Err(e) => Err(e),
            },
            NodeKind::WPoint => match crate::element::w_point::WPoint::from_node(c) {
                Ok(v) => Ok(Element::WPoint(v)),
                Err(e) => Err(e),
            },
            _ => {
                let mut kinds: Vec<NodeKind> = Vec::new();
                kinds.push(NodeKind::Bdy);
                kinds.push(NodeKind::BPoint);
                kinds.push(NodeKind::CPoint);
                kinds.push(NodeKind::Itr);
                kinds.push(NodeKind::OPoint);
                kinds.push(NodeKind::WPoint);
                proof {
                    assert(kinds@ =~= spec_element_kinds());
                }
                Err(Error::Grammar { rules_expected: kinds, found: Some(SourceRef::of_node(c)) })
            },
        }
    }
}

} // verus!
