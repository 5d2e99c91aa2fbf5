//! The error taxonomy of the parser.
//!
//! Every failure carries enough plain data to point at the offending source
//! position and to render a human-readable report.

use vstd::prelude::*;

use crate::element::bdy::BdyKindParseError;
use crate::element::c_point::CPointKindParseError;
use crate::element::itr::{EffectParseError, ItrKindParseError};
use crate::element::o_point::OPointKindParseError;
use crate::element::w_point::WPointKindParseError;
use crate::frame_number::FrameNumber;
use crate::numeric::IntParseError;
use crate::object_data::ObjectData;
use crate::state::StateParseError;
use crate::syntax::{Node, NodeKind, NodeV};

verus! {

/// A reference into the source: the kind of the node it came from, its
/// matched text (first line for interior nodes), and its start position.
#[derive(Debug, PartialEq)]
pub struct SourceRef {
    /// Kind of the referenced node.
    pub kind: NodeKind,
    /// Matched text of the referenced node.
    pub text: String,
    /// 1-based source line.
    pub line: usize,
    /// 1-based source column.
    pub col: usize,
}

/// Mathematical image of a [`SourceRef`].
pub ghost struct SourceRefV {
    pub kind: NodeKind,
    pub text: Seq<char>,
    pub line: usize,
    pub col: usize,
}

impl View for SourceRef {
    type V = SourceRefV;

    open spec fn view(&self) -> SourceRefV {
        SourceRefV { kind: self.kind, text: self.text@, line: self.line, col: self.col }
    }
}

impl SourceRef {
    /// The reference a node's view gives rise to.
    pub open spec fn spec_of_node(n: NodeV) -> SourceRefV {
        SourceRefV { kind: n.kind, text: n.text, line: n.line, col: n.col }
    }

    /// References the source position of `n`.
    pub fn of_node(n: &Node) -> (r: SourceRef)
        ensures
            r@ == Self::spec_of_node(n@),
    {
        SourceRef { kind: n.kind, text: n.text.clone(), line: n.line, col: n.col }
    }
}

/// Why parsing failed.
///
/// Grammar mismatches (`GrammarSingle`, `Grammar`, `ValueExpected`) mean the
/// syntax tree and the typed walkers have drifted apart: they cannot arise
/// from a tree the lexer built, only from one assembled by hand. Value
/// errors (`Parse*`) name the field, the offending text, and its position.
#[derive(Debug, PartialEq)]
pub enum Error {
    /// Two or more frames share a frame number; every colliding frame is
    /// listed.
    FrameNumberNonUnique { frame_number: FrameNumber, occurrences: Vec<SourceRef> },
    /// Decoded object data is not valid UTF-8.
    DecodedDataInvalidUtf8,
    /// Expected object data, but the source text holds none.
    ObjectDataExpected,
    /// Object data parsed, but text follows it; the parsed value is kept.
    ObjectDataSurplus { object_data: Box<ObjectData>, surplus: SourceRef },
    /// The source text does not fit the object grammar.
    Lex { line: usize, col: usize, expected: &'static str },
    /// A `bdy: kind:` value failed to parse.
    ParseBdyKind { value: SourceRef, error: BdyKindParseError },
    /// A `cpoint: kind:` value failed to parse.
    ParseCPointKind { value: SourceRef, error: CPointKindParseError },
    /// An `itr: kind:` value failed to parse.
    ParseItrKind { value: SourceRef, error: ItrKindParseError },
    /// An `itr: effect:` value failed to parse.
    ParseItrEffect { value: SourceRef, error: EffectParseError },
    /// An `opoint: kind:` value failed to parse.
    ParseOPointKind { value: SourceRef, error: OPointKindParseError },
    /// An `opoint: action:` value failed to parse.
    ParseOPointAction { value: SourceRef, error: IntParseError },
    /// A `wpoint: kind:` value failed to parse.
    ParseWPointKind { value: SourceRef, error: WPointKindParseError },
    /// A `weaponact:` value failed to parse.
    ParseWeaponAct { value: SourceRef, error: IntParseError },
    /// A `wpoint: attacking:` value failed to parse.
    ParseWeaponStrengthIndex { value: SourceRef, error: IntParseError },
    /// A decimal field failed to parse; carries the field's name.
    ParseFloat { field: &'static str, value: SourceRef, error: IntParseError },
    /// An integer field failed to parse; carries the field's name.
    ParseInt { field: &'static str, value: SourceRef, error: IntParseError },
    /// A path field failed to parse; carries the field's name.
    ParsePath { field: &'static str, value: SourceRef },
    /// A node of one expected kind was required, but another (or none) was
    /// found.
    GrammarSingle { rule_expected: NodeKind, found: Option<SourceRef> },
    /// A node of one of several expected kinds was required, but another
    /// (or none) was found.
    Grammar { rules_expected: Vec<NodeKind>, found: Option<SourceRef> },
    /// A tag node had no value child.
    ValueExpected { tag: SourceRef },
    /// A `state:` value failed to parse.
    StateParse { value: SourceRef, error: StateParseError },
    /// A required field was never set when its record was finalized;
    /// carries the first missing field's name.
    BuilderFieldMissing { field: &'static str },
}

/// Mathematical image of an [`Error`].
pub ghost enum ErrorV {
    FrameNumberNonUnique { frame_number: FrameNumber, occurrences: Seq<SourceRefV> },
    DecodedDataInvalidUtf8,
    ObjectDataExpected,
    ObjectDataSurplus { object_data: crate::object_data::ObjectDataV, surplus: SourceRefV },
    Lex { line: usize, col: usize, expected: Seq<char> },
    ParseBdyKind { value: SourceRefV, error: BdyKindParseError },
    ParseCPointKind { value: SourceRefV, error: CPointKindParseError },
    ParseItrKind { value: SourceRefV, error: ItrKindParseError },
    ParseItrEffect { value: SourceRefV, error: EffectParseError },
    ParseOPointKind { value: SourceRefV, error: OPointKindParseError },
    ParseOPointAction { value: SourceRefV, error: IntParseError },
    ParseWPointKind { value: SourceRefV, error: WPointKindParseError },
    ParseWeaponAct { value: SourceRefV, error: IntParseError },
    ParseWeaponStrengthIndex { value: SourceRefV, error: IntParseError },
    ParseFloat { field: Seq<char>, value: SourceRefV, error: IntParseError },
    ParseInt { field: Seq<char>, value: SourceRefV, error: IntParseError },
    ParsePath { field: Seq<char>, value: SourceRefV },
    GrammarSingle { rule_expected: NodeKind, found: Option<SourceRefV> },
    Grammar { rules_expected: Seq<NodeKind>, found: Option<SourceRefV> },
    ValueExpected { tag: SourceRefV },
    StateParse { value: SourceRefV, error: StateParseError },
    BuilderFieldMissing { field: Seq<char> },
}

impl View for Error {
    type V = ErrorV;

    open spec fn view(&self) -> ErrorV {
        match self {
            Error::FrameNumberNonUnique { frame_number, occurrences } => {
                ErrorV::FrameNumberNonUnique {
                    frame_number: *frame_number,
                    occurrences: Seq::new(occurrences@.len(), |i: int| occurrences@[i]@),
                }
            },
            Error::DecodedDataInvalidUtf8 => ErrorV::DecodedDataInvalidUtf8,
            Error::ObjectDataExpected => ErrorV::ObjectDataExpected,
            Error::ObjectDataSurplus { object_data, surplus } => {
                ErrorV::ObjectDataSurplus { object_data: object_data@, surplus: surplus@ }
            },
            Error::Lex { line, col, expected } => {
                ErrorV::Lex { line: *line, col: *col, expected: expected@ }
            },
            Error::ParseBdyKind { value, error } => {
                ErrorV::ParseBdyKind { value: value@, error: *error }
            },
            Error::ParseCPointKind { value, error } => {
                ErrorV::ParseCPointKind { value: value@, error: *error }
            },
            Error::ParseItrKind { value, error } => {
                ErrorV::ParseItrKind { value: value@, error: *error }
            },
            Error::ParseItrEffect { value, error } => {
                ErrorV::ParseItrEffect { value: value@, error: *error }
            },
            Error::ParseOPointKind { value, error } => {
                ErrorV::ParseOPointKind { value: value@, error: *error }
            },
            Error::ParseOPointAction { value, error } => {
                ErrorV::ParseOPointAction { value: value@, error: *error }
            },
            Error::ParseWPointKind { value, error } => {
                ErrorV::ParseWPointKind { value: value@, error: *error }
            },
            Error::ParseWeaponAct { value, error } => {
                ErrorV::ParseWeaponAct { value: value@, error: *error }
            },
            Error::ParseWeaponStrengthIndex { value, error } => {
                ErrorV::ParseWeaponStrengthIndex { value: value@, error: *error }
            },
            Error::ParseFloat { field, value, error } => {
                ErrorV::ParseFloat { field: field@, value: value@, error: *error }
            },
            Error::ParseInt { field, value, error } => {
                ErrorV::ParseInt { field: field@, value: value@, error: *error }
            },
            Error::ParsePath { field, value } => {
                ErrorV::ParsePath { field: field@, value: value@ }
            },
            Error::GrammarSingle { rule_expected, found } => {
                ErrorV::GrammarSingle {
                    rule_expected: *rule_expected,
                    found: match found {
                        Some(f) => Some(f@),
                        None => None,
                    },
                }
            },
            Error::Grammar { rules_expected, found } => {
                ErrorV::Grammar {
                    rules_expected: rules_expected@,
                    found: match found {
                        Some(f) => Some(f@),
                        None => None,
                    },
                }
            },
            Error::ValueExpected { tag } => ErrorV::ValueExpected { tag: tag@ },
            Error::StateParse { value, error } => {
                ErrorV::StateParse { value: value@, error: *error }
            },
            Error::BuilderFieldMissing { field } => {
                ErrorV::BuilderFieldMissing { field: field@ }
            },
        }
    }
}

/// The grammar-mismatch error for a single expected kind: what the driver
/// reports when `found` is not the expected node (or is absent).
pub open spec fn spec_grammar_single(rule_expected: NodeKind, found: Option<NodeV>) -> ErrorV {
    ErrorV::GrammarSingle {
        rule_expected,
        found: match found {
            Some(n) => Some(SourceRef::spec_of_node(n)),
            None => None,
        },
    }
}

} // verus!

// Human-readable rendering.

use crate::text::{
    contains_seq, lemma_contains_extend, lemma_contains_suffix, push_str, spec_u64_string,
    u64_to_string,
};

verus! {

/// `line:col` as text.
pub open spec fn spec_pos_string(line: usize, col: usize) -> Seq<char> {
    spec_u64_string(line as u64) + ":"@ + spec_u64_string(col as u64)
}

fn pos_string(line: usize, col: usize) -> (r: String)
    ensures
        r@ == spec_pos_string(line, col),
{
    let mut s = u64_to_string(line as u64);
    push_str(&mut s, ":");
    let c = u64_to_string(col as u64);
    push_str(&mut s, c.as_str());
    s
}

/// The standard rendering of a failed field: names the field, quotes the
/// offending text, gives its position, and appends the underlying failure.
fn field_message(field: &str, value: &SourceRef, err_msg: &str) -> (r: String)
    ensures
        contains_seq(r@, field@),
        contains_seq(r@, value@.text),
        contains_seq(r@, spec_pos_string(value@.line, value@.col)),
{
    let mut s = String::new();
    push_str(&mut s, "Failed to parse `");
    let ghost a = s@;
    push_str(&mut s, field);
    proof {
        lemma_contains_suffix(a, field@);
    }
    let ghost b = s@;
    push_str(&mut s, "` value `");
    proof {
        lemma_contains_extend(b, "` value `"@, field@);
    }
    let ghost c = s@;
    push_str(&mut s, value.text.as_str());
    proof {
        lemma_contains_suffix(c, value@.text);
        lemma_contains_extend(c, value@.text, field@);
    }
    let ghost d = s@;
    push_str(&mut s, "` at position: `");
    let ghost e1 = s@;
    let p = pos_string(value.line, value.col);
    push_str(&mut s, p.as_str());
    proof {
        lemma_contains_suffix(e1, p@);
    }
    let ghost e2 = s@;
    push_str(&mut s, "`. Error: `");
    let ghost e3 = s@;
    push_str(&mut s, err_msg);
    let ghost e4 = s@;
    push_str(&mut s, "`.");
    proof {
        lemma_contains_extend(d, "` at position: `"@, field@);
        lemma_contains_extend(d, "` at position: `"@, value@.text);
        lemma_contains_extend(e1, p@, field@);
        lemma_contains_extend(e1, p@, value@.text);
        lemma_contains_extend(e2, "`. Error: `"@, field@);
        lemma_contains_extend(e2, "`. Error: `"@, value@.text);
        lemma_contains_extend(e2, "`. Error: `"@, p@);
        lemma_contains_extend(e3, err_msg@, field@);
        lemma_contains_extend(e3, err_msg@, value@.text);
        lemma_contains_extend(e3, err_msg@, p@);
        lemma_contains_extend(e4, "`."@, field@);
        lemma_contains_extend(e4, "`."@, value@.text);
        lemma_contains_extend(e4, "`."@, p@);
    }
    s
}

/// A short grammar-mismatch tail: what was found, and where.
fn found_message(found: &Option<SourceRef>) -> (r: String) {
    let mut s = String::new();
    match found {
        Some(f) => {
            push_str(&mut s, " at position: `");
            let p = pos_string(f.line, f.col);
            push_str(&mut s, p.as_str());
            push_str(&mut s, "`, but the tree holds a `");
            push_str(&mut s, f.kind.name());
            push_str(&mut s, "`.");
        },
        None => {
            push_str(&mut s, ", but nothing is found.");
        },
    }
    push_str(
        &mut s,
        "\nThis means the syntax tree does not fit the object grammar the walkers expect.",
    );
    s
}

/// Extending the rendered report keeps the duplicated number and every
/// already-listed occurrence inside it.
proof fn preserve_contains(
    s0: Seq<char>,
    added: Seq<char>,
    occs: Seq<SourceRef>,
    upto: int,
    num: usize,
)
    requires
        contains_seq(s0, spec_u64_string(num as u64)),
        forall|k: int|
            0 <= k < upto ==> contains_seq(s0, (#[trigger] occs[k])@.text) && contains_seq(
                s0,
                spec_pos_string(occs[k]@.line, occs[k]@.col),
            ),
    ensures
        contains_seq(s0 + added, spec_u64_string(num as u64)),
        forall|k: int|
            0 <= k < upto ==> contains_seq(s0 + added, (#[trigger] occs[k])@.text) && contains_seq(
                s0 + added,
                spec_pos_string(occs[k]@.line, occs[k]@.col),
            ),
{
    lemma_contains_extend(s0, added, spec_u64_string(num as u64));
    assert forall|k: int|
        0 <= k < upto implies contains_seq(s0 + added, (#[trigger] occs[k])@.text) && contains_seq(
        s0 + added,
        spec_pos_string(occs[k]@.line, occs[k]@.col),
    ) by {
        lemma_contains_extend(s0, added, occs[k]@.text);
        lemma_contains_extend(s0, added, spec_pos_string(occs[k]@.line, occs[k]@.col));
    }
}

impl Error {
    /// A human-readable report of the failure. For a failed field the
    /// report names the field and quotes the offending text and its
    /// position; a duplicated frame number is named, and every colliding
    /// frame's text and position is listed.
    pub fn message(&self) -> (r: String)
        ensures
            self matches Error::ParseInt { field, value, error } ==> contains_seq(r@, field@)
                && contains_seq(r@, value@.text) && contains_seq(
                r@,
                spec_pos_string(value@.line, value@.col),
            ),
            self matches Error::ParseFloat { field, value, error } ==> contains_seq(r@, field@)
                && contains_seq(r@, value@.text) && contains_seq(
                r@,
                spec_pos_string(value@.line, value@.col),
            ),
            self matches Error::ParsePath { field, value } ==> contains_seq(r@, field@)
                && contains_seq(r@, value@.text) && contains_seq(
                r@,
                spec_pos_string(value@.line, value@.col),
            ),
            self matches Error::FrameNumberNonUnique { frame_number, occurrences } ==> contains_seq(
                r@,
                spec_u64_string(frame_number.0 as u64),
            ) && (forall|k: int|
                0 <= k < occurrences@.len() ==> contains_seq(
                    r@,
                    (#[trigger] occurrences@[k])@.text,
                ) && contains_seq(
                    r@,
                    spec_pos_string(occurrences@[k]@.line, occurrences@[k]@.col),
                )),
    {
        match self {
            Error::FrameNumberNonUnique { frame_number, occurrences } => {
                let mut s = String::new();
                push_str(&mut s, "Frame numbers must only be used once, but `");
                let ghost a = s@;
                let num = u64_to_string(frame_number.0 as u64);
                push_str(&mut s, num.as_str());
                proof {
                    lemma_contains_suffix(a, num@);
                }
                let ghost b = s@;
                push_str(&mut s, "` is used multiple times:\n");
                proof {
                    lemma_contains_extend(b, "` is used multiple times:\n"@, num@);
                }
                let len = occurrences.len();
                let mut i: usize = 0;
                while i < len
                    invariant
                        0 <= i <= len,
                        len == occurrences@.len(),
                        contains_seq(s@, spec_u64_string(frame_number.0 as u64)),
                        forall|k: int|
                            0 <= k < i ==> contains_seq(s@, (#[trigger] occurrences@[k])@.text)
                                && contains_seq(
                                s@,
                                spec_pos_string(occurrences@[k]@.line, occurrences@[k]@.col),
                            ),
                    decreases len - i,
                {
                    let occ = &occurrences[i];
                    let ghost s0 = s@;
                    push_str(&mut s, "- `");
                    proof {
                        preserve_contains(s0, "- `"@, occurrences@, i as int, frame_number.0);
                    }
                    let ghost s1 = s@;
                    push_str(&mut s, occ.text.as_str());
                    proof {
                        lemma_contains_suffix(s1, occ.text@);
                        preserve_contains(s1, occ.text@, occurrences@, i as int, frame_number.0);
                    }
                    let ghost s2 = s@;
                    push_str(&mut s, "` at position `");
                    proof {
                        lemma_contains_extend(s2, "` at position `"@, occ.text@);
                        preserve_contains(
                            s2,
                            "` at position `"@,
                            occurrences@,
                            i as int,
                            frame_number.0,
                        );
                    }
                    let ghost s3 = s@;
                    let p = pos_string(occ.line, occ.col);
                    push_str(&mut s, p.as_str());
                    proof {
                        lemma_contains_suffix(s3, p@);
                        lemma_contains_extend(s3, p@, occ.text@);
                        preserve_contains(s3, p@, occurrences@, i as int, frame_number.0);
                    }
                    let ghost s4 = s@;
                    push_str(&mut s, "`\n");
                    proof {
                        lemma_contains_extend(s4, "`\n"@, occ.text@);
                        lemma_contains_extend(s4, "`\n"@, p@);
                        preserve_contains(s4, "`\n"@, occurrences@, i as int, frame_number.0);
                    }
                    i = i + 1;
                }
                s
            },
            Error::DecodedDataInvalidUtf8 => {
                let mut s = String::new();
                push_str(
                    &mut s,
                    "Decoded object data is not valid UTF-8.\nTry redownloading the object; the file is likely corrupted or incompatible.",
                );
                s
            },
            Error::ObjectDataExpected => {
                let mut s = String::new();
                push_str(&mut s, "Expected to parse object data, but got nothing.");
                s
            },
            Error::ObjectDataSurplus { object_data, surplus } => {
                let mut s = String::new();
                push_str(
                    &mut s,
                    "Object data successfully parsed, but surplus text follows at position `",
                );
                let p = pos_string(surplus.line, surplus.col);
                push_str(&mut s, p.as_str());
                push_str(&mut s, "`: `");
                push_str(&mut s, surplus.text.as_str());
                push_str(&mut s, "`.");
                s
            },
            Error::Lex { line, col, expected } => {
                let mut s = String::new();
                push_str(&mut s, "The object grammar expected ");
                push_str(&mut s, expected);
                push_str(&mut s, " at position: `");
                let p = pos_string(*line, *col);
                push_str(&mut s, p.as_str());
                push_str(&mut s, "`.");
                s
            },
            Error::ParseBdyKind { value, error } => {
                let m = error.message();
                field_message("bdy: kind:", value, m.as_str())
            },
            Error::ParseCPointKind { value, error } => {
                let m = error.message();
                field_message("cpoint: kind:", value, m.as_str())
            },
            Error::ParseItrKind { value, error } => {
                let m = error.message();
                field_message("itr: kind:", value, m.as_str())
            },
            Error::ParseItrEffect { value, error } => {
                let m = error.message();
                field_message("itr: effect:", value, m.as_str())
            },
            Error::ParseOPointKind { value, error } => {
                let m = error.message();
                field_message("opoint: kind:", value, m.as_str())
            },
            Error::ParseOPointAction { value, error } => {
                let m = error.message();
                field_message("opoint: action:", value, m.as_str())
            },
            Error::ParseWPointKind { value, error } => {
                let m = error.message();
                field_message("wpoint: kind:", value, m.as_str())
            },
            Error::ParseWeaponAct { value, error } => {
                let m = error.message();
                field_message("weaponact:", value, m.as_str())
            },
            Error::ParseWeaponStrengthIndex { value, error } => {
                let m = error.message();
                field_message("wpoint: attacking:", value, m.as_str())
            },
            Error::ParseFloat { field, value, error } => {
                let m = error.message();
                field_message(field, value, m.as_str())
            },
            Error::ParseInt { field, value, error } => {
                let m = error.message();
                field_message(field, value, m.as_str())
            },
            Error::ParsePath { field, value } => {
                field_message(field, value, "cannot parse as a path")
            },
            Error::GrammarSingle { rule_expected, found } => {
                let mut s = String::new();
                push_str(&mut s, "Expected `");
                push_str(&mut s, rule_expected.name());
                push_str(&mut s, "`");
                let tail = found_message(found);
                push_str(&mut s, tail.as_str());
                s
            },
            Error::Grammar { rules_expected, found } => {
                let mut s = String::new();
                push_str(&mut s, "Expected one of `");
                let len = rules_expected.len();
                let mut i: usize = 0;
                while i < len
                    invariant
                        0 <= i <= len,
                        len == rules_expected@.len(),
                    decreases len - i,
                {
                    if i > 0 {
                        push_str(&mut s, ", ");
                    }
                    push_str(&mut s, rules_expected[i].name());
                    i = i + 1;
                }
                push_str(&mut s, "`");
                let tail = found_message(found);
                push_str(&mut s, tail.as_str());
                s
            },
            Error::ValueExpected { tag } => {
                let mut s = String::new();
                push_str(&mut s, "Expected a value for the `");
                push_str(&mut s, tag.kind.name());
                push_str(&mut s, "` tag at position: `");
                let p = pos_string(tag.line, tag.col);
                push_str(&mut s, p.as_str());
                push_str(&mut s, "`, but nothing is found.");
                s
            },
            Error::StateParse { value, error } => {
                let m = error.message();
                field_message("state", value, m.as_str())
            },
            Error::BuilderFieldMissing { field } => {
                let mut s = String::new();
                push_str(&mut s, "Required field `");
                push_str(&mut s, field);
                push_str(&mut s, "` was never set.");
                s
            },
        }
    }
}

} // verus!
