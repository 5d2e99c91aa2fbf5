//! The shared tree-walking driver: kind checks, positional child access,
//! and the tag-to-value step that every typed walker uses.

use core::marker::PhantomData;
use vstd::prelude::*;

use crate::error::{spec_grammar_single, Error, ErrorV, SourceRef};
use crate::syntax::{lemma_node_seq_view, Node, NodeKind, NodeV};

verus! {

/// Namespace for the driver functions.
pub struct ObjectDataParser;

/// Child `i` of `n`, which must exist and have kind `expected`; otherwise
/// the grammar-mismatch error, carrying the expected kind and what was
/// found (or that nothing was).
pub open spec fn spec_child_expect(n: NodeV, i: int, expected: NodeKind) -> Result<NodeV, ErrorV> {
    if i >= n.children.len() {
        Err(spec_grammar_single(expected, None))
    } else if n.children[i].kind != expected {
        Err(spec_grammar_single(expected, Some(n.children[i])))
    } else {
        Ok(n.children[i])
    }
}

/// The single value child of a tag node; a tag without one is the distinct
/// "value expected" error, which marks a walker/grammar desync rather than
/// bad user data.
pub open spec fn spec_tag_value(tag: NodeV) -> Result<NodeV, ErrorV> {
    if tag.children.len() < 1 {
        Err(ErrorV::ValueExpected { tag: crate::error::SourceRef::spec_of_node(tag) })
    } else {
        Ok(tag.children[0])
    }
}

impl ObjectDataParser {
    /// Checks that `n` has the expected kind.
    pub fn expect_kind(n: &Node, expected: NodeKind) -> (r: Result<(), Error>)
        ensures
            match r {
                Ok(_) => n@.kind == expected,
                Err(e) => n@.kind != expected && e@ == spec_grammar_single(expected, Some(n@)),
            },
    {
        if n.kind == expected {
            Ok(())
        } else {
            Err(
                Error::GrammarSingle {
                    rule_expected: expected,
                    found: Some(SourceRef::of_node(n)),
                },
            )
        }
    }

    /// Returns child `i` of `n`, which must have kind `expected`.
    pub fn child_expect<'a>(n: &'a Node, i: usize, expected: NodeKind) -> (r: Result<
        &'a Node,
        Error,
    >)
        ensures
            match r {
                Ok(c) => spec_child_expect(n@, i as int, expected) == Ok::<NodeV, ErrorV>(c@),
                Err(e) => spec_child_expect(n@, i as int, expected) == Err::<NodeV, ErrorV>(e@),
            },
    {
        proof {
            lemma_node_seq_view(n.children@);
        }
        if i >= n.children.len() {
            Err(Error::GrammarSingle { rule_expected: expected, found: None })
        } else {
            let c = &n.children[i];
            if c.kind != expected {
                Err(
                    Error::GrammarSingle {
                        rule_expected: expected,
                        found: Some(SourceRef::of_node(c)),
                    },
                )
            } else {
                Ok(c)
            }
        }
    }

    /// Returns the single value child of the tag node `tag`.
    pub fn parse_value<'a>(tag: &'a Node) -> (r: Result<&'a Node, Error>)
        ensures
            match r {
                Ok(v) => spec_tag_value(tag@) == Ok::<NodeV, ErrorV>(v@),
                Err(e) => spec_tag_value(tag@) == Err::<NodeV, ErrorV>(e@),
            },
    {
        proof {
            lemma_node_seq_view(tag.children@);
        }
        if tag.children.len() < 1 {
            Err(Error::ValueExpected { tag: SourceRef::of_node(tag) })
        } else {
            Ok(&tag.children[0])
        }
    }
}

/// Adapts a sub-rule closure, so that a walker can hand the same folding
/// step around as a value.
pub struct SubRuleWrapper<F, T> {
    f: F,
    marker: PhantomData<T>,
}

impl<F, T> SubRuleWrapper<F, T> where F: Fn(T, &Node) -> Result<T, Error> {
    /// The wrapped closure.
    pub closed spec fn spec_f(&self) -> F {
        self.f
    }

    /// Wraps a sub-rule closure.
    pub fn new(f: F) -> (r: SubRuleWrapper<F, T>)
        ensures
            r.spec_f() == f,
    {
        SubRuleWrapper { f, marker: PhantomData }
    }

    /// Applies the wrapped closure to one accumulator and one node.
    pub fn call(&self, t: T, n: &Node) -> (r: Result<T, Error>)
        requires
            self.spec_f().requires((t, n)),
        ensures
            self.spec_f().ensures((t, n), r),
    {
        (self.f)(t, n)
    }
}

} // verus!
