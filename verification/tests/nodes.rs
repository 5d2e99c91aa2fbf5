//! Tests on hand-built syntax trees and on the primitive value types: the
//! grammar-mismatch errors, and the signed wrappers.

use lf2_parse::{
    Bdy, Error, Frame, FrameNumber, IntParseError, Node, NodeKind, ObjectData, Pic, Wait,
};

fn leaf(kind: NodeKind, text: &str) -> Node {
    Node { kind, line: 1, col: 1, text: String::from(text), children: Vec::new() }
}

#[test]
fn wrong_node_kind_is_a_grammar_mismatch() {
    let node = leaf(NodeKind::Header, "");
    match Bdy::from_node(&node) {
        Err(Error::GrammarSingle { rule_expected, found }) => {
            assert_eq!(rule_expected, NodeKind::Bdy);
            assert_eq!(found.unwrap().kind, NodeKind::Header);
        }
        other => panic!("expected a grammar mismatch, got {:?}", other),
    }
}

#[test]
fn missing_child_is_a_grammar_mismatch() {
    let node = leaf(NodeKind::Bdy, "");
    match Bdy::from_node(&node) {
        Err(Error::GrammarSingle { rule_expected, found }) => {
            assert_eq!(rule_expected, NodeKind::BdyData);
            assert!(found.is_none());
        }
        other => panic!("expected a grammar mismatch, got {:?}", other),
    }
}

#[test]
fn tag_without_value_is_value_expected() {
    let tag = leaf(NodeKind::TagX, "");
    let bdy_tag = Node {
        kind: NodeKind::BdyTag,
        line: 2,
        col: 3,
        text: String::new(),
        children: vec![tag],
    };
    let data = Node {
        kind: NodeKind::BdyData,
        line: 1,
        col: 1,
        text: String::new(),
        children: vec![bdy_tag],
    };
    let node = Node {
        kind: NodeKind::Bdy,
        line: 1,
        col: 1,
        text: String::new(),
        children: vec![data],
    };
    match Bdy::from_node(&node) {
        Err(Error::ValueExpected { tag }) => {
            assert_eq!(tag.kind, NodeKind::TagX);
        }
        other => panic!("expected a value-expected error, got {:?}", other),
    }
    let msg = Bdy::from_node(&node).unwrap_err().message();
    assert!(msg.contains("TagX"));
}

#[test]
fn frame_from_node_rejects_stray_kinds() {
    let stray = leaf(NodeKind::Value, "x");
    let number = Node {
        kind: NodeKind::FrameNumber,
        line: 1,
        col: 1,
        text: String::new(),
        children: vec![leaf(NodeKind::Value, "3")],
    };
    let name = Node {
        kind: NodeKind::FrameName,
        line: 1,
        col: 1,
        text: String::new(),
        children: vec![leaf(NodeKind::Value, "idle")],
    };
    let data = Node {
        kind: NodeKind::FrameData,
        line: 1,
        col: 1,
        text: String::new(),
        children: vec![stray],
    };
    let node = Node {
        kind: NodeKind::Frame,
        line: 1,
        col: 1,
        text: String::new(),
        children: vec![number, name, data],
    };
    match Frame::from_node(&node) {
        Err(Error::Grammar { rules_expected, found }) => {
            assert_eq!(rules_expected, vec![NodeKind::Element, NodeKind::FrameTag]);
            assert_eq!(found.unwrap().kind, NodeKind::Value);
        }
        other => panic!("expected a grammar mismatch, got {:?}", other),
    }
}

#[test]
fn empty_object_node_misses_its_header() {
    let node = leaf(NodeKind::Object, "");
    match ObjectData::from_node(&node) {
        Err(Error::GrammarSingle { rule_expected, found }) => {
            assert_eq!(rule_expected, NodeKind::Header);
            assert!(found.is_none());
        }
        other => panic!("expected a grammar mismatch, got {:?}", other),
    }
}

#[test]
fn pic_abs_and_facing() {
    assert_eq!(Pic(-7).abs(), 7);
    assert!(Pic(-7).facing_switch());
    assert_eq!(Pic(7).abs(), 7);
    assert!(!Pic(7).facing_switch());
    assert_eq!(Pic::from_str("-7"), Ok(Pic(-7)));
}

#[test]
fn wait_from_str_rules() {
    assert_eq!(Wait::from_str("4"), Ok(Wait(4)));
    assert_eq!(Wait::from_str("0"), Ok(Wait(1)));
    assert_eq!(Wait::from_str("-1"), Err(IntParseError::InvalidDigit));
    assert_eq!(Wait::from_str("-0"), Err(IntParseError::InvalidDigit));
    assert_eq!(Wait::from_str(""), Err(IntParseError::Empty));
    assert_eq!(Wait::from_str("4x"), Err(IntParseError::InvalidDigit));
}

#[test]
fn frame_number_from_str_rules() {
    assert_eq!(FrameNumber::from_str("212"), Ok(FrameNumber(212)));
    assert_eq!(FrameNumber::from_str("-1"), Err(IntParseError::InvalidDigit));
    assert_eq!(FrameNumber::from_str("-0"), Err(IntParseError::InvalidDigit));
}
