//! Sprite sheet descriptor.

use vstd::prelude::*;

verus! {

/// One sprite sheet: its picture path and grid layout.
#[derive(Debug, PartialEq)]
pub struct SpriteFile {
    /// Path of the picture file.
    pub path: String,
    /// Width of one sprite cell.
    pub w: u32,
    /// Height of one sprite cell.
    pub h: u32,
    /// Number of rows in the sheet.
    pub row: u32,
    /// Number of columns in the sheet.
    pub col: u32,
}

/// Mathematical image of a [`SpriteFile`].
pub ghost struct SpriteFileV {
    pub path: Seq<char>,
    pub w: u32,
    pub h: u32,
    pub row: u32,
    pub col: u32,
}

impl View for SpriteFile {
    type V = SpriteFileV;

    open spec fn view(&self) -> SpriteFileV {
        SpriteFileV { path: self.path@, w: self.w, h: self.h, row: self.row, col: self.col }
    }
}

impl SpriteFile {
    /// An empty descriptor, before its tags are read.
    pub fn new() -> (r: SpriteFile)
        ensures
            r@ == (SpriteFileV { path: Seq::<char>::empty(), w: 0u32, h: 0u32, row: 0u32, col: 0u32 }),
    {
        SpriteFile { path: String::new(), w: 0, h: 0, row: 0, col: 0 }
    }
}

} // verus!

// The walker: how a `SpriteFile` node becomes a descriptor.

use crate::error::{spec_grammar_single, Error, ErrorV, SourceRef};
use crate::numeric::{parse_u32, spec_parse_u32};
use crate::object_data_parser::{spec_child_expect, spec_tag_value, ObjectDataParser};
use crate::syntax::{Node, NodeKind, NodeV};

verus! {

/// Meaning of a `SpriteFile` node: its five children, in order, give the
/// path and the four grid numbers.
pub open spec fn spec_sprite_file_of(n: NodeV) -> Result<SpriteFileV, ErrorV> {
    if n.kind != NodeKind::SpriteFile {
        Err(spec_grammar_single(NodeKind::SpriteFile, Some(n)))
    } else {
        match spec_child_expect(n, 0, NodeKind::TagFileValue) {
            Err(e) => Err(e),
            Ok(path_tag) => match spec_tag_value(path_tag) {
                Err(e) => Err(e),
                Ok(path_v) => if path_v.text.len() == 0 {
                    Err(ErrorV::ParsePath { field: "path"@, value: SourceRef::spec_of_node(path_v) })
                } else {
                    match spec_sprite_file_num(n, 1, NodeKind::TagW, "w"@) {
                        Err(e) => Err(e),
                        Ok(w) => match spec_sprite_file_num(n, 2, NodeKind::TagH, "h"@) {
                            Err(e) => Err(e),
                            Ok(h) => match spec_sprite_file_num(n, 3, NodeKind::TagRow, "row"@) {
                                Err(e) => Err(e),
                                Ok(row) => match spec_sprite_file_num(
                                    n,
                                    4,
                                    NodeKind::TagCol,
                                    "col"@,
                                ) {
                                    Err(e) => Err(e),
                                    Ok(col) => Ok(
                                        SpriteFileV { path: path_v.text, w, h, row, col },
                                    ),
                                },
                            },
                        },
                    }
                },
            },
        }
    }
}

/// One numeric child of a `SpriteFile` node.
pub open spec fn spec_sprite_file_num(n: NodeV, i: int, kind: NodeKind, field: Seq<char>) -> Result<
    u32,
    ErrorV,
> {
    match spec_child_expect(n, i, kind) {
        Err(e) => Err(e),
        Ok(tag) => match spec_tag_value(tag) {
            Err(e) => Err(e),
            Ok(v) => match spec_parse_u32(v.text) {
                Ok(val) => Ok(val),
                Err(e) => Err(
                    ErrorV::ParseInt { field, value: SourceRef::spec_of_node(v), error: e },
                ),
            },
        },
    }
}

impl SpriteFile {
    /// One numeric child of a `SpriteFile` node.
    fn num_child(n: &Node, i: usize, kind: NodeKind, field: &'static str) -> (r: Result<u32, Error>)
        ensures
            match r {
                Ok(v) => spec_sprite_file_num(n@, i as int, kind, field@) == Ok::<u32, ErrorV>(v),
                Err(e) => spec_sprite_file_num(n@, i as int, kind, field@) == Err::<u32, ErrorV>(
                    e@,
                ),
            },
    {
        let tag = match ObjectDataParser::child_expect(n, i, kind) {
            Ok(t) => t,
            Err(e) => {
                return Err(e);
            },
        };
        let v = match ObjectDataParser::parse_value(tag) {
            Ok(v) => v,
            Err(e) => {
                return Err(e);
            },
        };
        match parse_u32(v.text.as_str()) {
            Ok(val) => Ok(val),
            Err(e) => Err(Error::ParseInt { field, value: SourceRef::of_node(v), error: e }),
        }
    }

    /// Reads a sprite sheet descriptor from a `SpriteFile` node.
    pub fn from_node(n: &Node) -> (r: Result<SpriteFile, Error>)
        ensures
            match r {
                Ok(v) => spec_sprite_file_of(n@) == Ok::<SpriteFileV, ErrorV>(v@),
                Err(e) => spec_sprite_file_of(n@) == Err::<SpriteFileV, ErrorV>(e@),
            },
    {
        match ObjectDataParser::expect_kind(n, NodeKind::SpriteFile) {
            Ok(_) => {},
            Err(e) => {
                return Err(e);
            },
        }
        let path_tag = match ObjectDataParser::child_expect(n, 0, NodeKind::TagFileValue) {
            Ok(t) => t,
            Err(e) => {
                return Err(e);
            },
        };
        let path_v = match ObjectDataParser::parse_value(path_tag) {
            Ok(v) => v,
            Err(e) => {
                return Err(e);
            },
        };
        if path_v.text.as_str().is_empty() {
            return Err(Error::ParsePath { field: "path", value: SourceRef::of_node(path_v) });
        }
        let w = match Self::num_child(n, 1, NodeKind::TagW, "w") {
            Ok(v) => v,
            Err(e) => {
                return Err(e);
            },
        };
        let h = match Self::num_child(n, 2, NodeKind::TagH, "h") {
            Ok(v) => v,
            Err(e) => {
                return Err(e);
            },
        };
        let row = match Self::num_child(n, 3, NodeKind::TagRow, "row") {
            Ok(v) => v,
            Err(e) => {
                return Err(e);
            },
        };
        let col = match Self::num_child(n, 4, NodeKind::TagCol, "col") {
            Ok(v) => v,
            Err(e) => {
                return Err(e);
            },
        };
        Ok(SpriteFile { path: path_v.text.clone(), w, h, row, col })
    }
}

} // verus!
