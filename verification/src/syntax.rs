//! The syntax tree that the lexer produces and the typed walkers consume.
//!
//! Each node carries its kind, the source position where it starts, a text
//! slice (the matched token for value nodes, the first source line of the
//! matched region for interior nodes), and its child nodes in source order.

use vstd::prelude::*;

verus! {

broadcast use vstd::std_specs::vec::axiom_vec_decreases_to_view, vstd::seq::axiom_seq_index_decreases, vstd::seq::axiom_seq_subrange_decreases;

/// Kind tag of a syntax node.
///
/// `Tag*` kinds name a `tag: value` pair; the tag node's single child is a
/// `Value` node holding the raw value text. `TagUnknown` stands for a tag
/// word the grammar does not know; walkers skip it, so that files written
/// for later revisions of the format still parse.
#[derive(Clone, Copy, Debug, PartialEq, Eq, Structural)]
pub enum NodeKind {
    Object,
    Header,
    HeaderData,
    HeaderTag,
    TagName,
    TagHead,
    TagSmall,
    SpriteFile,
    TagFileValue,
    TagW,
    TagH,
    TagRow,
    TagCol,
    TagWalkingFrameRate,
    TagWalkingSpeed,
    TagWalkingSpeedZ,
    TagRunningFrameRate,
    TagRunningSpeed,
    TagRunningSpeedZ,
    TagHeavyWalkingSpeed,
    TagHeavyWalkingSpeedZ,
    TagHeavyRunningSpeed,
    TagHeavyRunningSpeedZ,
    TagJumpHeight,
    TagJumpDistance,
    TagJumpDistanceZ,
    TagDashHeight,
    TagDashDistance,
    TagDashDistanceZ,
    TagRowingHeight,
    TagRowingDistance,
    Frames,
    Frame,
    FrameNumber,
    FrameName,
    FrameData,
    FrameTag,
    TagCenterX,
    TagCenterY,
    TagDVx,
    TagDVy,
    TagDVz,
    TagHitA,
    TagHitD,
    TagHitDa,
    TagHitDj,
    TagHitFa,
    TagHitFj,
    TagHitJ,
    TagHitJa,
    TagHitUa,
    TagHitUj,
    TagMp,
    TagNext,
    TagPic,
    TagSound,
    TagState,
    TagWait,
    Element,
    Bdy,
    BdyData,
    BdyTag,
    BPoint,
    BPointData,
    BPointTag,
    CPoint,
    CPointData,
    CPointTag,
    Itr,
    ItrData,
    ItrTag,
    OPoint,
    OPointData,
    OPointTag,
    WPoint,
    WPointData,
    WPointTag,
    TagKind,
    TagX,
    TagY,
    TagZWidth,
    TagARest,
    TagVRest,
    TagFall,
    TagBDefend,
    TagInjury,
    TagEffect,
    TagCatchingAct,
    TagCaughtAct,
    TagCover,
    TagDecrease,
    TagDirControl,
    TagHurtable,
    TagAAction,
    TagJAction,
    TagVAction,
    TagTAction,
    TagThrowInjury,
    TagThrowVx,
    TagThrowVy,
    TagThrowVz,
    TagFrontHurtAct,
    TagBackHurtAct,
    TagAction,
    TagOid,
    TagFacing,
    TagWeaponAct,
    TagAttacking,
    TagUnknown,
    Value,
}

/// A positioned syntax node.
#[derive(Debug)]
pub struct Node {
    /// What the node stands for.
    pub kind: NodeKind,
    /// 1-based source line where the node starts.
    pub line: usize,
    /// 1-based source column where the node starts.
    pub col: usize,
    /// The matched token for `Value` nodes; for interior nodes, the first
    /// source line of the matched region (kept for diagnostics).
    pub text: String,
    /// Child nodes in source order.
    pub children: Vec<Node>,
}

/// Mathematical image of a [`Node`]: the same shape over `Seq`.
pub ghost struct NodeV {
    pub kind: NodeKind,
    pub line: usize,
    pub col: usize,
    pub text: Seq<char>,
    pub children: Seq<NodeV>,
}

impl View for Node {
    type V = NodeV;

    open spec fn view(&self) -> NodeV
        decreases self,
    {
        NodeV {
            kind: self.kind,
            line: self.line,
            col: self.col,
            text: self.text@,
            children: children_view(self.children),
        }
    }
}

/// View of a vector of nodes: the sequence of the nodes' views.
pub open spec fn children_view(v: Vec<Node>) -> Seq<NodeV>
    decreases v,
{
    node_seq_view(v@)
}

/// View of a sequence of nodes, element by element.
pub open spec fn node_seq_view(ns: Seq<Node>) -> Seq<NodeV>
    decreases ns,
{
    if ns.len() == 0 {
        Seq::empty()
    } else {
        seq![ns[0]@] + node_seq_view(ns.subrange(1, ns.len() as int))
    }
}

/// `node_seq_view` maps the sequence element by element.
pub proof fn lemma_node_seq_view(ns: Seq<Node>)
    ensures
        node_seq_view(ns).len() == ns.len(),
        forall|i: int| 0 <= i < ns.len() ==> node_seq_view(ns)[i] == #[trigger] ns[i]@,
    decreases ns.len(),
{
    if ns.len() > 0 {
        let tail = ns.subrange(1, ns.len() as int);
        lemma_node_seq_view(tail);
        assert(node_seq_view(ns) == seq![ns[0]@] + node_seq_view(tail));
        assert forall|i: int| 0 <= i < ns.len() implies node_seq_view(ns)[i] == #[trigger] ns[i]@ by {
            if i > 0 {
                assert(tail[i - 1] == ns[i]);
            }
        }
    }
}

} // verus!

verus! {

/// Extending a node sequence by one extends its view by that node's view.
pub proof fn lemma_node_seq_view_push(old: Seq<Node>, new: Seq<Node>, nv: NodeV)
    requires
        new.len() == old.len() + 1,
        forall|i: int| 0 <= i < old.len() ==> new[i] == old[i],
        new[old.len() as int]@ == nv,
    ensures
        node_seq_view(new) == node_seq_view(old).push(nv),
{
    lemma_node_seq_view(old);
    lemma_node_seq_view(new);
    assert(node_seq_view(new) =~= node_seq_view(old).push(nv)) by {
        assert forall|i: int|
            0 <= i < new.len() implies node_seq_view(new)[i] == node_seq_view(old).push(nv)[i] by {
            assert(node_seq_view(new)[i] == new[i]@);
            if i < old.len() {
                assert(node_seq_view(old)[i] == old[i]@);
            }
        }
    }
}

impl NodeKind {
    /// The kind's name, for diagnostics.
    pub fn name(self) -> (r: &'static str) {
        match self {
            NodeKind::Object => "Object",
            NodeKind::Header => "Header",
            NodeKind::HeaderData => "HeaderData",
            NodeKind::HeaderTag => "HeaderTag",
            NodeKind::TagName => "TagName",
            NodeKind::TagHead => "TagHead",
            NodeKind::TagSmall => "TagSmall",
            NodeKind::SpriteFile => "SpriteFile",
            NodeKind::TagFileValue => "TagFileValue",
            NodeKind::TagW => "TagW",
            NodeKind::TagH => "TagH",
            NodeKind::TagRow => "TagRow",
            NodeKind::TagCol => "TagCol",
            NodeKind::TagWalkingFrameRate => "TagWalkingFrameRate",
            NodeKind::TagWalkingSpeed => "TagWalkingSpeed",
            NodeKind::TagWalkingSpeedZ => "TagWalkingSpeedZ",
            NodeKind::TagRunningFrameRate => "TagRunningFrameRate",
            NodeKind::TagRunningSpeed => "TagRunningSpeed",
            NodeKind::TagRunningSpeedZ => "TagRunningSpeedZ",
            NodeKind::TagHeavyWalkingSpeed => "TagHeavyWalkingSpeed",
            NodeKind::TagHeavyWalkingSpeedZ => "TagHeavyWalkingSpeedZ",
            NodeKind::TagHeavyRunningSpeed => "TagHeavyRunningSpeed",
            NodeKind::TagHeavyRunningSpeedZ => "TagHeavyRunningSpeedZ",
            NodeKind::TagJumpHeight => "TagJumpHeight",
            NodeKind::TagJumpDistance => "TagJumpDistance",
            NodeKind::TagJumpDistanceZ => "TagJumpDistanceZ",
            NodeKind::TagDashHeight => "TagDashHeight",
            NodeKind::TagDashDistance => "TagDashDistance",
            NodeKind::TagDashDistanceZ => "TagDashDistanceZ",
            NodeKind::TagRowingHeight => "TagRowingHeight",
            NodeKind::TagRowingDistance => "TagRowingDistance",
            NodeKind::Frames => "Frames",
            NodeKind::Frame => "Frame",
            NodeKind::FrameNumber => "FrameNumber",
            NodeKind::FrameName => "FrameName",
            NodeKind::FrameData => "FrameData",
            NodeKind::FrameTag => "FrameTag",
            NodeKind::TagCenterX => "TagCenterX",
            NodeKind::TagCenterY => "TagCenterY",
            NodeKind::TagDVx => "TagDVx",
            NodeKind::TagDVy => "TagDVy",
            NodeKind::TagDVz => "TagDVz",
            NodeKind::TagHitA => "TagHitA",
            NodeKind::TagHitD => "TagHitD",
            NodeKind::TagHitDa => "TagHitDa",
            NodeKind::TagHitDj => "TagHitDj",
            NodeKind::TagHitFa => "TagHitFa",
            NodeKind::TagHitFj => "TagHitFj",
            NodeKind::TagHitJ => "TagHitJ",
            NodeKind::TagHitJa => "TagHitJa",
            NodeKind::TagHitUa => "TagHitUa",
            NodeKind::TagHitUj => "TagHitUj",
            NodeKind::TagMp => "TagMp",
            NodeKind::TagNext => "TagNext",
            NodeKind::TagPic => "TagPic",
            NodeKind::TagSound => "TagSound",
            NodeKind::TagState => "TagState",
            NodeKind::TagWait => "TagWait",
            NodeKind::Element => "Element",
            NodeKind::Bdy => "Bdy",
            NodeKind::BdyData => "BdyData",
            NodeKind::BdyTag => "BdyTag",
            NodeKind::BPoint => "BPoint",
            NodeKind::BPointData => "BPointData",
            NodeKind::BPointTag => "BPointTag",
            NodeKind::CPoint => "CPoint",
            NodeKind::CPointData => "CPointData",
            NodeKind::CPointTag => "CPointTag",
            NodeKind::Itr => "Itr",
            NodeKind::ItrData => "ItrData",
            NodeKind::ItrTag => "ItrTag",
            NodeKind::OPoint => "OPoint",
            NodeKind::OPointData => "OPointData",
            NodeKind::OPointTag => "OPointTag",
            NodeKind::WPoint => "WPoint",
            NodeKind::WPointData => "WPointData",
            NodeKind::WPointTag => "WPointTag",
            NodeKind::TagKind => "TagKind",
            NodeKind::TagX => "TagX",
            NodeKind::TagY => "TagY",
            NodeKind::TagZWidth => "TagZWidth",
            NodeKind::TagARest => "TagARest",
            NodeKind::TagVRest => "TagVRest",
            NodeKind::TagFall => "TagFall",
            NodeKind::TagBDefend => "TagBDefend",
            NodeKind::TagInjury => "TagInjury",
            NodeKind::TagEffect => "TagEffect",
            NodeKind::TagCatchingAct => "TagCatchingAct",
            NodeKind::TagCaughtAct => "TagCaughtAct",
            NodeKind::TagCover => "TagCover",
            NodeKind::TagDecrease => "TagDecrease",
            NodeKind::TagDirControl => "TagDirControl",
            NodeKind::TagHurtable => "TagHurtable",
            NodeKind::TagAAction => "TagAAction",
            NodeKind::TagJAction => "TagJAction",
            NodeKind::TagVAction => "TagVAction",
            NodeKind::TagTAction => "TagTAction",
            NodeKind::TagThrowInjury => "TagThrowInjury",
            NodeKind::TagThrowVx => "TagThrowVx",
            NodeKind::TagThrowVy => "TagThrowVy",
            NodeKind::TagThrowVz => "TagThrowVz",
            NodeKind::TagFrontHurtAct => "TagFrontHurtAct",
            NodeKind::TagBackHurtAct => "TagBackHurtAct",
            NodeKind::TagAction => "TagAction",
            NodeKind::TagOid => "TagOid",
            NodeKind::TagFacing => "TagFacing",
            NodeKind::TagWeaponAct => "TagWeaponAct",
            NodeKind::TagAttacking => "TagAttacking",
            NodeKind::TagUnknown => "TagUnknown",
            NodeKind::Value => "Value",
        }
    }
}

} // verus!
