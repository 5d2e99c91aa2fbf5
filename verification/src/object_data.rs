//! The root of the model: one header and one frame collection.

use vstd::prelude::*;

use crate::frame::FrameV;
use crate::frames::Frames;
use crate::header::{Header, HeaderV};

verus! {

/// A whole parsed object data file.
#[derive(Debug, PartialEq)]
pub struct ObjectData {
    /// Object-level constants.
    pub header: Header,
    /// The object's animation frames.
    pub frames: Frames,
}

/// Mathematical image of an [`ObjectData`].
pub ghost struct ObjectDataV {
    pub header: HeaderV,
    pub frames: Seq<FrameV>,
}

impl View for ObjectData {
    type V = ObjectDataV;

    open spec fn view(&self) -> ObjectDataV {
        ObjectDataV { header: self.header@, frames: self.frames@ }
    }
}

} // verus!

// The walker: the whole object from an `Object` node.

use crate::error::{spec_grammar_single, Error, ErrorV};
use crate::frames::spec_frames_of;
use crate::header::spec_header_of;
use crate::object_data_parser::{spec_child_expect, ObjectDataParser};
use crate::syntax::{Node, NodeKind, NodeV};

verus! {

/// Meaning of an `Object` node: its header, then its frame collection,
/// in that fixed order.
pub open spec fn spec_object_of(n: NodeV) -> Result<ObjectDataV, ErrorV> {
    if n.kind != NodeKind::Object {
        Err(spec_grammar_single(NodeKind::Object, Some(n)))
    } else {
        match spec_child_expect(n, 0, NodeKind::Header) {
            Err(e) => Err(e),
            Ok(h_node) => match spec_header_of(h_node) {
                Err(e) => Err(e),
                Ok(header) => match spec_child_expect(n, 1, NodeKind::Frames) {
                    Err(e) => Err(e),
                    Ok(f_node) => match spec_frames_of(f_node) {
                        Err(e) => Err(e),
                        Ok(frames) => Ok(ObjectDataV { header, frames }),
                    },
                },
            },
        }
    }
}

impl ObjectData {
    /// Reads a whole object from an `Object` node.
    pub fn from_node(n: &Node) -> (r: Result<ObjectData, Error>)
        ensures
            match r {
                Ok(od) => spec_object_of(n@) == Ok::<ObjectDataV, ErrorV>(od@),
                Err(e) => spec_object_of(n@) == Err::<ObjectDataV, ErrorV>(e@),
            },
    {
        match ObjectDataParser::expect_kind(n, NodeKind::Object) {
            Ok(_) => {},
            Err(e) => {
                return Err(e);
            },
        }
        let h_node = match ObjectDataParser::child_expect(n, 0, NodeKind::Header) {
            Ok(c) => c,
            Err(e) => {
                return Err(e);
            },
        };
        let header = match Header::from_node(h_node) {
            Ok(h) => h,
            Err(e) => {
                return Err(e);
            },
        };
        let f_node = match ObjectDataParser::child_expect(n, 1, NodeKind::Frames) {
            Ok(c) => c,
            Err(e) => {
                return Err(e);
            },
        };
        let frames = match Frames::from_node(f_node) {
            Ok(fs) => fs,
            Err(e) => {
                return Err(e);
            },
        };
        Ok(ObjectData { header, frames })
    }
}

} // verus!

// The whole-text entry point.

use crate::lexer::{lex_object, spec_lex};

verus! {

/// Meaning of a whole object data text: the lexed tree walked into the
/// model. The result is `Ok` exactly when the text lexes as one object,
/// every part of it walks into the model, and nothing follows the object;
/// text after the object is the surplus error, carrying the built value.
pub open spec fn spec_try_from(s: Seq<char>) -> Result<ObjectDataV, ErrorV> {
    match spec_lex(s) {
        Err(e) => Err(e),
        Ok((root, surplus)) => match spec_object_of(root) {
            Err(e) => Err(e),
            Ok(od) => match surplus {
                None => Ok(od),
                Some(sr) => Err(ErrorV::ObjectDataSurplus { object_data: od, surplus: sr }),
            },
        },
    }
}

impl ObjectData {
    /// Parses one whole object from its source text: the lexer builds the
    /// syntax tree, the walkers build the model. The result, error cases
    /// included, is exactly what `spec_try_from` says of the text.
    pub fn try_from(object_data_str: &str) -> (r: Result<ObjectData, Error>)
        ensures
            match r {
                Ok(od) => spec_try_from(object_data_str@) == Ok::<ObjectDataV, ErrorV>(od@),
                Err(e) => spec_try_from(object_data_str@) == Err::<ObjectDataV, ErrorV>(e@),
            },
    {
        let out = match lex_object(object_data_str) {
            Ok(out) => out,
            Err(e) => {
                return Err(e);
            },
        };
        let od = match ObjectData::from_node(&out.root) {
            Ok(od) => od,
            Err(e) => {
                return Err(e);
            },
        };
        match out.surplus {
            None => Ok(od),
            Some(sr) => Err(Error::ObjectDataSurplus { object_data: Box::new(od), surplus: sr }),
        }
    }
}

/// Law: parsing is a pure function of the source text. Reading one text
/// twice yields structurally equal results, successes and failures alike;
/// with the contract of `ObjectData::try_from`, two parses of one text
/// give equal models.
pub proof fn lemma_parse_idempotent(s1: Seq<char>, s2: Seq<char>)
    requires
        s1 == s2,
    ensures
        spec_try_from(s1) == spec_try_from(s2),
{
}

} // verus!
