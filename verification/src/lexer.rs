//! The lexer: turns object data text into the syntax tree the walkers
//! consume.
//!
//! The text format is line-oriented and token-based. A file holds one
//! header block between `<bmp_begin>` and `<bmp_end>`, then any number of
//! frames between `<frame>` and `<frame_end>`. Inside the header, `name:`
//! takes the rest of its line, `head:` and `small:` take one path token,
//! `file(...)` opens a sprite sheet entry (`path  w: .. h: .. row: ..
//! col: ..`), and the movement constants are bare words followed by one
//! numeric token. A frame starts with its number and a name (the rest of
//! the line), then mixes `tag: value` pairs with element blocks such as
//! `bdy: kind: 0 x: 0 ... bdy_end:`; an element also ends at the first
//! token that is not one of its tags. An unknown `tag:` word inside a
//! frame or an element is kept as an unknown tag and skipped by the
//! walkers, so files written for later revisions of the format still
//! parse.

use vstd::prelude::*;

use crate::error::{Error, ErrorV, SourceRefV};
use crate::syntax::{lemma_node_seq_view, lemma_node_seq_view_push, Node, NodeKind, NodeV};
use crate::text::{str_eq, string_of_range, to_chars};
use vstd::string::StrSliceExecFns;

verus! {

/// A position in the character buffer, with its 1-based line and column.
#[derive(Clone, Copy, Debug, PartialEq, Eq, Structural)]
pub struct Cursor {
    /// Index into the character buffer.
    pub i: usize,
    /// 1-based source line.
    pub line: usize,
    /// 1-based source column.
    pub col: usize,
}

/// Whether `c` separates tokens.
pub open spec fn spec_is_ws(c: char) -> bool {
    c == ' ' || c == '\t' || c == '\r' || c == '\n'
}

fn is_ws(c: char) -> (r: bool)
    ensures
        r == spec_is_ws(c),
{
    c == ' ' || c == '\t' || c == '\r' || c == '\n'
}

/// `x + 1`, stopping at the largest representable value.
pub open spec fn spec_sat_inc(x: usize) -> usize {
    if x < usize::MAX {
        (x + 1) as usize
    } else {
        x
    }
}

fn sat_inc(x: usize) -> (r: usize)
    ensures
        r == spec_sat_inc(x),
{
    if x < usize::MAX {
        x + 1
    } else {
        x
    }
}

/// `x + d`, stopping at the largest representable value.
pub open spec fn spec_sat_add(x: usize, d: usize) -> usize {
    if x <= usize::MAX - d {
        (x + d) as usize
    } else {
        usize::MAX
    }
}

fn sat_add(x: usize, d: usize) -> (r: usize)
    ensures
        r == spec_sat_add(x, d),
{
    if x <= usize::MAX - d {
        x + d
    } else {
        usize::MAX
    }
}

/// The cursor one character past `cur`, whose character is `ch`.
pub open spec fn spec_advance(ch: char, cur: Cursor) -> Cursor {
    Cursor {
        i: (cur.i + 1) as usize,
        line: if ch == '\n' {
            spec_sat_inc(cur.line)
        } else {
            cur.line
        },
        col: if ch == '\n' {
            1
        } else {
            spec_sat_inc(cur.col)
        },
    }
}

/// Where the whitespace at `cur` ends.
pub open spec fn spec_skip_ws(cs: Seq<char>, cur: Cursor) -> Cursor
    decreases cs.len() - cur.i,
{
    if cur.i >= cs.len() || cur.i >= usize::MAX || !spec_is_ws(cs[cur.i as int]) {
        cur
    } else {
        spec_skip_ws(cs, spec_advance(cs[cur.i as int], cur))
    }
}

/// Skipping whitespace stays within the text and lands on a non-space.
pub proof fn lemma_skip_ws_bounds(cs: Seq<char>, cur: Cursor)
    requires
        cur.i <= cs.len(),
        cs.len() <= usize::MAX,
    ensures
        cur.i <= spec_skip_ws(cs, cur).i <= cs.len(),
        spec_skip_ws(cs, cur).i < cs.len() ==> !spec_is_ws(cs[spec_skip_ws(cs, cur).i as int]),
    decreases cs.len() - cur.i,
{
    if cur.i < cs.len() && cur.i < usize::MAX && spec_is_ws(cs[cur.i as int]) {
        lemma_skip_ws_bounds(cs, spec_advance(cs[cur.i as int], cur));
    }
}

/// Moves the cursor past the whitespace at `cur`.
fn skip_ws(cs: &Vec<char>, cur: Cursor) -> (r: Cursor)
    requires
        cur.i <= cs@.len(),
    ensures
        r == spec_skip_ws(cs@, cur),
        cur.i <= r.i <= cs@.len(),
        r.i < cs@.len() ==> !spec_is_ws(cs@[r.i as int]),
{
    let len = cs.len();
    proof {
        lemma_skip_ws_bounds(cs@, cur);
    }
    let mut c = cur;
    while c.i < len && is_ws(cs[c.i])
        invariant
            cur.i <= c.i <= len,
            len == cs@.len(),
            spec_skip_ws(cs@, cur) == spec_skip_ws(cs@, c),
        decreases len - c.i,
    {
        let ch = cs[c.i];
        c =
        Cursor {
            i: c.i + 1,
            line: if ch == '\n' {
                sat_inc(c.line)
            } else {
                c.line
            },
            col: if ch == '\n' {
                1
            } else {
                sat_inc(c.col)
            },
        };
    }
    c
}

/// Where the token starting at `j` ends: the first whitespace character at
/// or after `j`, or the end of the text.
pub open spec fn spec_token_end(cs: Seq<char>, j: int) -> int
    decreases cs.len() - j,
{
    if j < 0 || j >= cs.len() || spec_is_ws(cs[j]) {
        j
    } else {
        spec_token_end(cs, j + 1)
    }
}

/// A token runs to the end of the text at most, and is non-empty when it
/// starts on a non-space.
pub proof fn lemma_token_end_bounds(cs: Seq<char>, j: int)
    requires
        0 <= j <= cs.len(),
    ensures
        j <= spec_token_end(cs, j) <= cs.len(),
        j < cs.len() && !spec_is_ws(cs[j]) ==> j < spec_token_end(cs, j),
    decreases cs.len() - j,
{
    if j < cs.len() && !spec_is_ws(cs[j]) {
        lemma_token_end_bounds(cs, j + 1);
    }
}

/// The next token at or after `cur`, if any: its text, its start cursor,
/// and the cursor just past it.
pub open spec fn spec_peek_token(cs: Seq<char>, cur: Cursor) -> Option<(Seq<char>, Cursor, Cursor)> {
    let st = spec_skip_ws(cs, cur);
    if st.i >= cs.len() {
        None
    } else {
        let j = spec_token_end(cs, st.i as int);
        Some(
            (
                cs.subrange(st.i as int, j),
                st,
                Cursor { i: j as usize, line: st.line, col: spec_sat_add(st.col, (j - st.i) as usize) },
            ),
        )
    }
}

/// A found token starts at or after the cursor and ends strictly after it
/// starts, within the text.
pub proof fn lemma_peek_token_bounds(cs: Seq<char>, cur: Cursor)
    requires
        cur.i <= cs.len(),
        cs.len() <= usize::MAX,
    ensures
        spec_peek_token(cs, cur) matches Some(t) ==> cur.i <= t.1.i < t.2.i <= cs.len(),
{
    lemma_skip_ws_bounds(cs, cur);
    let st = spec_skip_ws(cs, cur);
    if st.i < cs.len() {
        lemma_token_end_bounds(cs, st.i as int);
    }
}

fn peek_token(cs: &Vec<char>, cur: Cursor) -> (r: Option<(String, Cursor, Cursor)>)
    requires
        cur.i <= cs@.len(),
    ensures
        match r {
            Some(t) => spec_peek_token(cs@, cur) == Some((t.0@, t.1, t.2)) && cur.i <= t.1.i
                < t.2.i <= cs@.len(),
            None => spec_peek_token(cs@, cur) is None,
        },
{
    let len = cs.len();
    let st = skip_ws(cs, cur);
    if st.i >= len {
        return None;
    }
    let mut j = st.i;
    while j < len && !is_ws(cs[j])
        invariant
            st.i <= j <= len,
            len == cs@.len(),
            spec_token_end(cs@, st.i as int) == spec_token_end(cs@, j as int),
        decreases len - j,
    {
        j = j + 1;
    }
    proof {
        lemma_token_end_bounds(cs@, st.i as int);
    }
    let tok = string_of_range(cs, st.i, j);
    let after = Cursor { i: j, line: st.line, col: sat_add(st.col, j - st.i) };
    Some((tok, st, after))
}

/// Where the current line ends: the first line feed at or after `e`, or
/// the end of the text.
pub open spec fn spec_line_end(cs: Seq<char>, e: int) -> int
    decreases cs.len() - e,
{
    if e < 0 || e >= cs.len() || cs[e] == '\n' {
        e
    } else {
        spec_line_end(cs, e + 1)
    }
}

/// The line end lies between its start and the end of the text.
pub proof fn lemma_line_end_bounds(cs: Seq<char>, e: int)
    requires
        0 <= e <= cs.len(),
    ensures
        e <= spec_line_end(cs, e) <= cs.len(),
    decreases cs.len() - e,
{
    if e < cs.len() && cs[e] != '\n' {
        lemma_line_end_bounds(cs, e + 1);
    }
}

/// The start of the trimmed segment `[lo, e)`.
pub open spec fn spec_trim_lo(cs: Seq<char>, lo: int, e: int) -> int
    decreases e - lo,
{
    if lo < 0 || lo >= e || e > cs.len() || !spec_is_ws(cs[lo]) {
        lo
    } else {
        spec_trim_lo(cs, lo + 1, e)
    }
}

/// The end of the trimmed segment `[lo, hi)`.
pub open spec fn spec_trim_hi(cs: Seq<char>, lo: int, hi: int) -> int
    decreases hi,
{
    if hi <= lo || lo < 0 || hi > cs.len() || !spec_is_ws(cs[hi - 1]) {
        hi
    } else {
        spec_trim_hi(cs, lo, hi - 1)
    }
}

/// Trimming keeps the segment's bounds.
pub proof fn lemma_trim_bounds(cs: Seq<char>, lo: int, e: int)
    requires
        0 <= lo <= e <= cs.len(),
    ensures
        lo <= spec_trim_lo(cs, lo, e) <= e,
        spec_trim_lo(cs, lo, e) <= spec_trim_hi(cs, spec_trim_lo(cs, lo, e), e) <= e,
    decreases e - lo,
{
    lemma_trim_lo_bounds(cs, lo, e);
    lemma_trim_hi_bounds(cs, spec_trim_lo(cs, lo, e), e);
}

proof fn lemma_trim_lo_bounds(cs: Seq<char>, lo: int, e: int)
    requires
        0 <= lo <= e <= cs.len(),
    ensures
        lo <= spec_trim_lo(cs, lo, e) <= e,
    decreases e - lo,
{
    if lo < e && spec_is_ws(cs[lo]) {
        lemma_trim_lo_bounds(cs, lo + 1, e);
    }
}

proof fn lemma_trim_hi_bounds(cs: Seq<char>, lo: int, hi: int)
    requires
        0 <= lo <= hi <= cs.len(),
    ensures
        lo <= spec_trim_hi(cs, lo, hi) <= hi,
    decreases hi,
{
    if hi > lo && spec_is_ws(cs[hi - 1]) {
        lemma_trim_hi_bounds(cs, lo, hi - 1);
    }
}

/// The rest of the current line, trimmed at both ends, and the cursor on
/// the next line (or at the end of the text).
pub open spec fn spec_rest_of_line(cs: Seq<char>, cur: Cursor) -> (Seq<char>, Cursor) {
    let e = spec_line_end(cs, cur.i as int);
    let lo = spec_trim_lo(cs, cur.i as int, e);
    let hi = spec_trim_hi(cs, lo, e);
    let after = if e < cs.len() {
        Cursor { i: (e + 1) as usize, line: spec_sat_inc(cur.line), col: 1 }
    } else {
        Cursor { i: e as usize, line: cur.line, col: spec_sat_add(cur.col, (e - cur.i) as usize) }
    };
    (cs.subrange(lo, hi), after)
}

/// The rest of the line ends within the text, past the cursor whenever
/// any text remains.
pub proof fn lemma_rest_of_line_bounds(cs: Seq<char>, cur: Cursor)
    requires
        cur.i <= cs.len(),
        cs.len() <= usize::MAX,
    ensures
        cur.i <= spec_rest_of_line(cs, cur).1.i <= cs.len(),
{
    lemma_line_end_bounds(cs, cur.i as int);
}

fn rest_of_line(cs: &Vec<char>, cur: Cursor) -> (r: (String, Cursor))
    requires
        cur.i <= cs@.len(),
    ensures
        (r.0@, r.1) == spec_rest_of_line(cs@, cur),
        cur.i <= r.1.i <= cs@.len(),
        cur.i < cs@.len() ==> cur.i < r.1.i,
{
    let len = cs.len();
    let mut e = cur.i;
    while e < len && cs[e] != '\n'
        invariant
            cur.i <= e <= len,
            len == cs@.len(),
            spec_line_end(cs@, cur.i as int) == spec_line_end(cs@, e as int),
        decreases len - e,
    {
        e = e + 1;
    }
    // Trim the segment [cur.i, e).
    let mut lo = cur.i;
    while lo < e && is_ws(cs[lo])
        invariant
            cur.i <= lo <= e <= len,
            len == cs@.len(),
            spec_trim_lo(cs@, cur.i as int, e as int) == spec_trim_lo(cs@, lo as int, e as int),
        decreases e - lo,
    {
        lo = lo + 1;
    }
    let mut hi = e;
    while hi > lo && is_ws(cs[hi - 1])
        invariant
            lo <= hi <= e <= len,
            len == cs@.len(),
            spec_trim_hi(cs@, lo as int, e as int) == spec_trim_hi(cs@, lo as int, hi as int),
        decreases hi,
    {
        hi = hi - 1;
    }
    let text = string_of_range(cs, lo, hi);
    let after = if e < len {
        Cursor { i: e + 1, line: sat_inc(cur.line), col: 1 }
    } else {
        Cursor { i: e, line: cur.line, col: sat_add(cur.col, e - cur.i) }
    };
    (text, after)
}

/// The first line of text starting at index `i`, for diagnostics: it runs
/// to the first line break.
pub open spec fn spec_snippet_end(cs: Seq<char>, e: int) -> int
    decreases cs.len() - e,
{
    if e < 0 || e >= cs.len() || cs[e] == '\n' || cs[e] == '\r' {
        e
    } else {
        spec_snippet_end(cs, e + 1)
    }
}

/// The first line of text starting at index `i`.
pub open spec fn spec_line_snippet(cs: Seq<char>, i: int) -> Seq<char> {
    cs.subrange(i, spec_snippet_end(cs, i))
}

fn line_snippet(cs: &Vec<char>, i: usize) -> (r: String)
    requires
        i <= cs@.len(),
    ensures
        r@ == spec_line_snippet(cs@, i as int),
{
    let len = cs.len();
    let mut e = i;
    while e < len && cs[e] != '\n' && cs[e] != '\r'
        invariant
            i <= e <= len,
            len == cs@.len(),
            spec_snippet_end(cs@, i as int) == spec_snippet_end(cs@, e as int),
        decreases len - e,
    {
        e = e + 1;
    }
    string_of_range(cs, i, e)
}

/// A leaf value node.
pub open spec fn spec_value_node(line: usize, col: usize, text: Seq<char>) -> NodeV {
    NodeV { kind: NodeKind::Value, line, col, text, children: Seq::<NodeV>::empty() }
}

fn value_node(line: usize, col: usize, text: String) -> (r: Node)
    ensures
        r@ == spec_value_node(line, col, text@),
{
    let r = Node { kind: NodeKind::Value, line, col, text, children: Vec::new() };
    proof {
        assert(r@.children =~= Seq::<NodeV>::empty());
    }
    r
}

/// A node with the given children and an empty text.
pub open spec fn spec_interior_node(
    kind: NodeKind,
    line: usize,
    col: usize,
    children: Seq<NodeV>,
) -> NodeV {
    NodeV { kind, line, col, text: Seq::<char>::empty(), children }
}

/// A tag node holding one value child, at one position.
pub open spec fn spec_tag_value_node(
    kind: NodeKind,
    line: usize,
    col: usize,
    text: Seq<char>,
) -> NodeV {
    spec_interior_node(kind, line, col, seq![spec_value_node(line, col, text)])
}

fn tag_value_node(kind: NodeKind, line: usize, col: usize, text: String) -> (r: Node)
    ensures
        r@ == spec_tag_value_node(kind, line, col, text@),
{
    let ghost t = text@;
    let v = value_node(line, col, text);
    let mut children: Vec<Node> = Vec::new();
    children.push(v);
    let r = Node { kind, line, col, text: String::new(), children };
    proof {
        lemma_node_seq_view(r.children@);
        assert(r@.children =~= seq![spec_value_node(line, col, t)]);
    }
    r
}

/// A `tag > value` chain wrapped in `outer`, all at one position.
pub open spec fn spec_tag_chain(
    outer: NodeKind,
    inner: NodeKind,
    line: usize,
    col: usize,
    text: Seq<char>,
) -> NodeV {
    spec_interior_node(outer, line, col, seq![spec_tag_value_node(inner, line, col, text)])
}

fn tag_chain(outer: NodeKind, inner: NodeKind, line: usize, col: usize, text: String) -> (r: Node)
    ensures
        r@ == spec_tag_chain(outer, inner, line, col, text@),
{
    let ghost tx = text@;
    let t = tag_value_node(inner, line, col, text);
    let mut outer_children: Vec<Node> = Vec::new();
    outer_children.push(t);
    let r = Node { kind: outer, line, col, text: String::new(), children: outer_children };
    proof {
        lemma_node_seq_view(r.children@);
        assert(r@.children =~= seq![spec_tag_value_node(inner, line, col, tx)]);
    }
    r
}

/// The node kind of a bare header constant word, if it is one.
pub open spec fn spec_header_numeric_kind(tok: Seq<char>) -> Option<NodeKind> {
    if tok == "walking_frame_rate"@ {
        Some(NodeKind::TagWalkingFrameRate)
    } else if tok == "walking_speed"@ {
        Some(NodeKind::TagWalkingSpeed)
    } else if tok == "walking_speedz"@ {
        Some(NodeKind::TagWalkingSpeedZ)
    } else if tok == "running_frame_rate"@ {
        Some(NodeKind::TagRunningFrameRate)
    } else if tok == "running_speed"@ {
        Some(NodeKind::TagRunningSpeed)
    } else if tok == "running_speedz"@ {
        Some(NodeKind::TagRunningSpeedZ)
    } else if tok == "heavy_walking_speed"@ {
        Some(NodeKind::TagHeavyWalkingSpeed)
    } else if tok == "heavy_walking_speedz"@ {
        Some(NodeKind::TagHeavyWalkingSpeedZ)
    } else if tok == "heavy_running_speed"@ {
        Some(NodeKind::TagHeavyRunningSpeed)
    } else if tok == "heavy_running_speedz"@ {
        Some(NodeKind::TagHeavyRunningSpeedZ)
    } else if tok == "jump_height"@ {
        Some(NodeKind::TagJumpHeight)
    } else if tok == "jump_distance"@ {
        Some(NodeKind::TagJumpDistance)
    } else if tok == "jump_distancez"@ {
        Some(NodeKind::TagJumpDistanceZ)
    } else if tok == "dash_height"@ {
        Some(NodeKind::TagDashHeight)
    } else if tok == "dash_distance"@ {
        Some(NodeKind::TagDashDistance)
    } else if tok == "dash_distancez"@ {
        Some(NodeKind::TagDashDistanceZ)
    } else if tok == "rowing_height"@ {
        Some(NodeKind::TagRowingHeight)
    } else if tok == "rowing_distance"@ {
        Some(NodeKind::TagRowingDistance)
    } else {
        None
    }
}

fn header_numeric_kind(tok: &str) -> (r: Option<NodeKind>)
    ensures
        r == spec_header_numeric_kind(tok@),
{
    if str_eq(tok, "walking_frame_rate") {
        Some(NodeKind::TagWalkingFrameRate)
    } else if str_eq(tok, "walking_speed") {
        Some(NodeKind::TagWalkingSpeed)
    } else if str_eq(tok, "walking_speedz") {
        Some(NodeKind::TagWalkingSpeedZ)
    } else if str_eq(tok, "running_frame_rate") {
        Some(NodeKind::TagRunningFrameRate)
    } else if str_eq(tok, "running_speed") {
        Some(NodeKind::TagRunningSpeed)
    } else if str_eq(tok, "running_speedz") {
        Some(NodeKind::TagRunningSpeedZ)
    } else if str_eq(tok, "heavy_walking_speed") {
        Some(NodeKind::TagHeavyWalkingSpeed)
    } else if str_eq(tok, "heavy_walking_speedz") {
        Some(NodeKind::TagHeavyWalkingSpeedZ)
    } else if str_eq(tok, "heavy_running_speed") {
        Some(NodeKind::TagHeavyRunningSpeed)
    } else if str_eq(tok, "heavy_running_speedz") {
        Some(NodeKind::TagHeavyRunningSpeedZ)
    } else if str_eq(tok, "jump_height") {
        Some(NodeKind::TagJumpHeight)
    } else if str_eq(tok, "jump_distance") {
        Some(NodeKind::TagJumpDistance)
    } else if str_eq(tok, "jump_distancez") {
        Some(NodeKind::TagJumpDistanceZ)
    } else if str_eq(tok, "dash_height") {
        Some(NodeKind::TagDashHeight)
    } else if str_eq(tok, "dash_distance") {
        Some(NodeKind::TagDashDistance)
    } else if str_eq(tok, "dash_distancez") {
        Some(NodeKind::TagDashDistanceZ)
    } else if str_eq(tok, "rowing_height") {
        Some(NodeKind::TagRowingHeight)
    } else if str_eq(tok, "rowing_distance") {
        Some(NodeKind::TagRowingDistance)
    } else {
        None
    }
}

/// The node kind of a frame `tag:` token, if it is a known frame tag.
pub open spec fn spec_frame_tag_kind(tok: Seq<char>) -> Option<NodeKind> {
    if tok == "centerx:"@ {
        Some(NodeKind::TagCenterX)
    } else if tok == "centery:"@ {
        Some(NodeKind::TagCenterY)
    } else if tok == "dvx:"@ {
        Some(NodeKind::TagDVx)
    } else if tok == "dvy:"@ {
        Some(NodeKind::TagDVy)
    } else if tok == "dvz:"@ {
        Some(NodeKind::TagDVz)
    } else if tok == "hit_a:"@ {
        Some(NodeKind::TagHitA)
    } else if tok == "hit_d:"@ {
        Some(NodeKind::TagHitD)
    } else if tok == "hit_Da:"@ {
        Some(NodeKind::TagHitDa)
    } else if tok == "hit_Dj:"@ {
        Some(NodeKind::TagHitDj)
    } else if tok == "hit_Fa:"@ {
        Some(NodeKind::TagHitFa)
    } else if tok == "hit_Fj:"@ {
        Some(NodeKind::TagHitFj)
    } else if tok == "hit_j:"@ {
        Some(NodeKind::TagHitJ)
    } else if tok == "hit_ja:"@ {
        Some(NodeKind::TagHitJa)
    } else if tok == "hit_Ua:"@ {
        Some(NodeKind::TagHitUa)
    } else if tok == "hit_Uj:"@ {
        Some(NodeKind::TagHitUj)
    } else if tok == "mp:"@ {
        Some(NodeKind::TagMp)
    } else if tok == "next:"@ {
        Some(NodeKind::TagNext)
    } else if tok == "pic:"@ {
        Some(NodeKind::TagPic)
    } else if tok == "sound:"@ {
        Some(NodeKind::TagSound)
    } else if tok == "state:"@ {
        Some(NodeKind::TagState)
    } else if tok == "wait:"@ {
        Some(NodeKind::TagWait)
    } else {
        None
    }
}

fn frame_tag_kind(tok: &str) -> (r: Option<NodeKind>)
    ensures
        r == spec_frame_tag_kind(tok@),
{
    if str_eq(tok, "centerx:") {
        Some(NodeKind::TagCenterX)
    } else if str_eq(tok, "centery:") {
        Some(NodeKind::TagCenterY)
    } else if str_eq(tok, "dvx:") {
        Some(NodeKind::TagDVx)
    } else if str_eq(tok, "dvy:") {
        Some(NodeKind::TagDVy)
    } else if str_eq(tok, "dvz:") {
        Some(NodeKind::TagDVz)
    } else if str_eq(tok, "hit_a:") {
        Some(NodeKind::TagHitA)
    } else if str_eq(tok, "hit_d:") {
        Some(NodeKind::TagHitD)
    } else if str_eq(tok, "hit_Da:") {
        Some(NodeKind::TagHitDa)
    } else if str_eq(tok, "hit_Dj:") {
        Some(NodeKind::TagHitDj)
    } else if str_eq(tok, "hit_Fa:") {
        Some(NodeKind::TagHitFa)
    } else if str_eq(tok, "hit_Fj:") {
        Some(NodeKind::TagHitFj)
    } else if str_eq(tok, "hit_j:") {
        Some(NodeKind::TagHitJ)
    } else if str_eq(tok, "hit_ja:") {
        Some(NodeKind::TagHitJa)
    } else if str_eq(tok, "hit_Ua:") {
        Some(NodeKind::TagHitUa)
    } else if str_eq(tok, "hit_Uj:") {
        Some(NodeKind::TagHitUj)
    } else if str_eq(tok, "mp:") {
        Some(NodeKind::TagMp)
    } else if str_eq(tok, "next:") {
        Some(NodeKind::TagNext)
    } else if str_eq(tok, "pic:") {
        Some(NodeKind::TagPic)
    } else if str_eq(tok, "sound:") {
        Some(NodeKind::TagSound)
    } else if str_eq(tok, "state:") {
        Some(NodeKind::TagState)
    } else if str_eq(tok, "wait:") {
        Some(NodeKind::TagWait)
    } else {
        None
    }
}

/// The node kind of an element `tag:` token, if it is a known element tag.
pub open spec fn spec_element_tag_kind(tok: Seq<char>) -> Option<NodeKind> {
    if tok == "kind:"@ {
        Some(NodeKind::TagKind)
    } else if tok == "x:"@ {
        Some(NodeKind::TagX)
    } else if tok == "y:"@ {
        Some(NodeKind::TagY)
    } else if tok == "w:"@ {
        Some(NodeKind::TagW)
    } else if tok == "h:"@ {
        Some(NodeKind::TagH)
    } else if tok == "zwidth:"@ {
        Some(NodeKind::TagZWidth)
    } else if tok == "dvx:"@ {
        Some(NodeKind::TagDVx)
    } else if tok == "dvy:"@ {
        Some(NodeKind::TagDVy)
    } else if tok == "dvz:"@ {
        Some(NodeKind::TagDVz)
    } else if tok == "arest:"@ {
        Some(NodeKind::TagARest)
    } else if tok == "vrest:"@ {
        Some(NodeKind::TagVRest)
    } else if tok == "fall:"@ {
        Some(NodeKind::TagFall)
    } else if tok == "bdefend:"@ {
        Some(NodeKind::TagBDefend)
    } else if tok == "injury:"@ {
        Some(NodeKind::TagInjury)
    } else if tok == "effect:"@ {
        Some(NodeKind::TagEffect)
    } else if tok == "catchingact:"@ {
        Some(NodeKind::TagCatchingAct)
    } else if tok == "caughtact:"@ {
        Some(NodeKind::TagCaughtAct)
    } else if tok == "cover:"@ {
        Some(NodeKind::TagCover)
    } else if tok == "decrease:"@ {
        Some(NodeKind::TagDecrease)
    } else if tok == "dircontrol:"@ {
        Some(NodeKind::TagDirControl)
    } else if tok == "hurtable:"@ {
        Some(NodeKind::TagHurtable)
    } else if tok == "aaction:"@ {
        Some(NodeKind::TagAAction)
    } else if tok == "jaction:"@ {
        Some(NodeKind::TagJAction)
    } else if tok == "vaction:"@ {
        Some(NodeKind::TagVAction)
    } else if tok == "taction:"@ {
        Some(NodeKind::TagTAction)
    } else if tok == "throwinjury:"@ {
        Some(NodeKind::TagThrowInjury)
    } else if tok == "throwvx:"@ {
        Some(NodeKind::TagThrowVx)
    } else if tok == "throwvy:"@ {
        Some(NodeKind::TagThrowVy)
    } else if tok == "throwvz:"@ {
        Some(NodeKind::TagThrowVz)
    } else if tok == "fronthurtact:"@ {
        Some(NodeKind::TagFrontHurtAct)
    } else if tok == "backhurtact:"@ {
        Some(NodeKind::TagBackHurtAct)
    } else if tok == "action:"@ {
        Some(NodeKind::TagAction)
    } else if tok == "oid:"@ {
        Some(NodeKind::TagOid)
    } else if tok == "facing:"@ {
        Some(NodeKind::TagFacing)
    } else if tok == "weaponact:"@ {
        Some(NodeKind::TagWeaponAct)
    } else if tok == "attacking:"@ {
        Some(NodeKind::TagAttacking)
    } else {
        None
    }
}

fn element_tag_kind(tok: &str) -> (r: Option<NodeKind>)
    ensures
        r == spec_element_tag_kind(tok@),
{
    if str_eq(tok, "kind:") {
        Some(NodeKind::TagKind)
    } else if str_eq(tok, "x:") {
        Some(NodeKind::TagX)
    } else if str_eq(tok, "y:") {
        Some(NodeKind::TagY)
    } else if str_eq(tok, "w:") {
        Some(NodeKind::TagW)
    } else if str_eq(tok, "h:") {
        Some(NodeKind::TagH)
    } else if str_eq(tok, "zwidth:") {
        Some(NodeKind::TagZWidth)
    } else if str_eq(tok, "dvx:") {
        Some(NodeKind::TagDVx)
    } else if str_eq(tok, "dvy:") {
        Some(NodeKind::TagDVy)
    } else if str_eq(tok, "dvz:") {
        Some(NodeKind::TagDVz)
    } else if str_eq(tok, "arest:") {
        Some(NodeKind::TagARest)
    } else if str_eq(tok, "vrest:") {
        Some(NodeKind::TagVRest)
    } else if str_eq(tok, "fall:") {
        Some(NodeKind::TagFall)
    } else if str_eq(tok, "bdefend:") {
        Some(NodeKind::TagBDefend)
    } else if str_eq(tok, "injury:") {
        Some(NodeKind::TagInjury)
    } else if str_eq(tok, "effect:") {
        Some(NodeKind::TagEffect)
    } else if str_eq(tok, "catchingact:") {
        Some(NodeKind::TagCatchingAct)
    } else if str_eq(tok, "caughtact:") {
        Some(NodeKind::TagCaughtAct)
    } else if str_eq(tok, "cover:") {
        Some(NodeKind::TagCover)
    } else if str_eq(tok, "decrease:") {
        Some(NodeKind::TagDecrease)
    } else if str_eq(tok, "dircontrol:") {
        Some(NodeKind::TagDirControl)
    } else if str_eq(tok, "hurtable:") {
        Some(NodeKind::TagHurtable)
    } else if str_eq(tok, "aaction:") {
        Some(NodeKind::TagAAction)
    } else if str_eq(tok, "jaction:") {
        Some(NodeKind::TagJAction)
    } else if str_eq(tok, "vaction:") {
        Some(NodeKind::TagVAction)
    } else if str_eq(tok, "taction:") {
        Some(NodeKind::TagTAction)
    } else if str_eq(tok, "throwinjury:") {
        Some(NodeKind::TagThrowInjury)
    } else if str_eq(tok, "throwvx:") {
        Some(NodeKind::TagThrowVx)
    } else if str_eq(tok, "throwvy:") {
        Some(NodeKind::TagThrowVy)
    } else if str_eq(tok, "throwvz:") {
        Some(NodeKind::TagThrowVz)
    } else if str_eq(tok, "fronthurtact:") {
        Some(NodeKind::TagFrontHurtAct)
    } else if str_eq(tok, "backhurtact:") {
        Some(NodeKind::TagBackHurtAct)
    } else if str_eq(tok, "action:") {
        Some(NodeKind::TagAction)
    } else if str_eq(tok, "oid:") {
        Some(NodeKind::TagOid)
    } else if str_eq(tok, "facing:") {
        Some(NodeKind::TagFacing)
    } else if str_eq(tok, "weaponact:") {
        Some(NodeKind::TagWeaponAct)
    } else if str_eq(tok, "attacking:") {
        Some(NodeKind::TagAttacking)
    } else {
        None
    }
}

/// Whether `tok` ends with a colon, marking it as a tag word.
pub open spec fn spec_ends_with_colon(tok: Seq<char>) -> bool {
    tok.len() > 0 && tok[tok.len() - 1] == ':'
}

fn ends_with_colon(tok: &str) -> (r: bool)
    ensures
        r == spec_ends_with_colon(tok@),
{
    let n = tok.unicode_len();
    if n == 0 {
        false
    } else {
        tok.get_char(n - 1) == ':'
    }
}

/// Whether `tok` opens a sprite sheet entry (it starts with `file(`).
pub open spec fn spec_is_file_opener(tok: Seq<char>) -> bool {
    tok.len() >= 5 && tok[0] == 'f' && tok[1] == 'i' && tok[2] == 'l' && tok[3] == 'e' && tok[4]
        == '('
}

fn is_file_opener(tok: &str) -> (r: bool)
    ensures
        r == spec_is_file_opener(tok@),
{
    let n = tok.unicode_len();
    if n < 5 {
        return false;
    }
    tok.get_char(0) == 'f' && tok.get_char(1) == 'i' && tok.get_char(2) == 'l' && tok.get_char(3)
        == 'e' && tok.get_char(4) == '('
}

/// The element block an opener token starts: the element's node kind, its
/// body kind, its tag-wrapper kind, and its end-marker token.
pub open spec fn spec_element_opener(tok: Seq<char>) -> Option<
    (NodeKind, NodeKind, NodeKind, Seq<char>),
> {
    if tok == "bdy:"@ {
        Some((NodeKind::Bdy, NodeKind::BdyData, NodeKind::BdyTag, "bdy_end:"@))
    } else if tok == "bpoint:"@ {
        Some((NodeKind::BPoint, NodeKind::BPointData, NodeKind::BPointTag, "bpoint_end:"@))
    } else if tok == "cpoint:"@ {
        Some((NodeKind::CPoint, NodeKind::CPointData, NodeKind::CPointTag, "cpoint_end:"@))
    } else if tok == "itr:"@ {
        Some((NodeKind::Itr, NodeKind::ItrData, NodeKind::ItrTag, "itr_end:"@))
    } else if tok == "opoint:"@ {
        Some((NodeKind::OPoint, NodeKind::OPointData, NodeKind::OPointTag, "opoint_end:"@))
    } else if tok == "wpoint:"@ {
        Some((NodeKind::WPoint, NodeKind::WPointData, NodeKind::WPointTag, "wpoint_end:"@))
    } else {
        None
    }
}

fn element_opener(tok: &str) -> (r: Option<(NodeKind, NodeKind, NodeKind, &'static str)>)
    ensures
        match r {
            Some(k) => spec_element_opener(tok@) == Some((k.0, k.1, k.2, k.3@)),
            None => spec_element_opener(tok@) is None,
        },
{
    if str_eq(tok, "bdy:") {
        Some((NodeKind::Bdy, NodeKind::BdyData, NodeKind::BdyTag, "bdy_end:"))
    } else if str_eq(tok, "bpoint:") {
        Some((NodeKind::BPoint, NodeKind::BPointData, NodeKind::BPointTag, "bpoint_end:"))
    } else if str_eq(tok, "cpoint:") {
        Some((NodeKind::CPoint, NodeKind::CPointData, NodeKind::CPointTag, "cpoint_end:"))
    } else if str_eq(tok, "itr:") {
        Some((NodeKind::Itr, NodeKind::ItrData, NodeKind::ItrTag, "itr_end:"))
    } else if str_eq(tok, "opoint:") {
        Some((NodeKind::OPoint, NodeKind::OPointData, NodeKind::OPointTag, "opoint_end:"))
    } else if str_eq(tok, "wpoint:") {
        Some((NodeKind::WPoint, NodeKind::WPointData, NodeKind::WPointTag, "wpoint_end:"))
    } else {
        None
    }
}

/// The tag chain of one element tag plus its value, and the element-tag
/// step: what the element body loop does at one token.
///
/// The tags of an element block from `c` on, appended to `acc`: the block
/// ends at its end marker (consumed) or at the first token that is not one
/// of its tags (left in place); a tag without a following value token is a
/// grammar error.
pub open spec fn spec_element_tags(
    cs: Seq<char>,
    tag_kind: NodeKind,
    end_marker: Seq<char>,
    c: Cursor,
    acc: Seq<NodeV>,
) -> Result<(Seq<NodeV>, Cursor), ErrorV>
    decreases cs.len() - c.i,
    when c.i <= cs.len() && cs.len() <= usize::MAX
    via spec_element_tags_dec
{
    match spec_peek_token(cs, c) {
        None => Ok((acc, c)),
        Some((tok, tst, tafter)) => {
            if tok == end_marker {
                Ok((acc, tafter))
            } else {
                match spec_element_tag_kind(tok) {
                    Some(k) => match spec_peek_token(cs, tafter) {
                        None => Err(
                            ErrorV::Lex {
                                line: tafter.line,
                                col: tafter.col,
                                expected: "a value after the tag"@,
                            },
                        ),
                        Some((val, vst, vafter)) => spec_element_tags(
                            cs,
                            tag_kind,
                            end_marker,
                            vafter,
                            acc.push(spec_tag_chain(tag_kind, k, tst.line, tst.col, val)),
                        ),
                    },
                    None => Ok((acc, c)),
                }
            }
        },
    }
}

#[via_fn]
proof fn spec_element_tags_dec(
    cs: Seq<char>,
    tag_kind: NodeKind,
    end_marker: Seq<char>,
    c: Cursor,
    acc: Seq<NodeV>,
) {
    lemma_peek_token_bounds(cs, c);
    match spec_peek_token(cs, c) {
        None => {},
        Some((tok, tst, tafter)) => {
            lemma_peek_token_bounds(cs, tafter);
        },
    }
}

/// The element tags end within the text, at or after where they started.
pub proof fn lemma_element_tags_bounds(
    cs: Seq<char>,
    tag_kind: NodeKind,
    end_marker: Seq<char>,
    c: Cursor,
    acc: Seq<NodeV>,
)
    requires
        c.i <= cs.len(),
        cs.len() <= usize::MAX,
    ensures
        spec_element_tags(cs, tag_kind, end_marker, c, acc) matches Ok(t) ==> c.i <= t.1.i
            <= cs.len(),
    decreases cs.len() - c.i,
{
    lemma_peek_token_bounds(cs, c);
    match spec_peek_token(cs, c) {
        None => {},
        Some((tok, tst, tafter)) => {
            if tok != end_marker {
                match spec_element_tag_kind(tok) {
                    Some(k) => {
                        lemma_peek_token_bounds(cs, tafter);
                        match spec_peek_token(cs, tafter) {
                            None => {},
                            Some((val, vst, vafter)) => {
                                lemma_element_tags_bounds(
                                    cs,
                                    tag_kind,
                                    end_marker,
                                    vafter,
                                    acc.push(
                                        spec_tag_chain(tag_kind, k, tst.line, tst.col, val),
                                    ),
                                );
                            },
                        }
                    },
                    None => {},
                }
            }
        },
    }
}

/// Meaning of one element block: its tag nodes wrapped in the element's
/// body node, the element node, and the generic `Element` node, all at the
/// opener's position.
pub open spec fn spec_lex_element(
    cs: Seq<char>,
    elem_kind: NodeKind,
    data_kind: NodeKind,
    tag_kind: NodeKind,
    end_marker: Seq<char>,
    st: Cursor,
    cur: Cursor,
) -> Result<(NodeV, Cursor), ErrorV> {
    match spec_element_tags(cs, tag_kind, end_marker, cur, Seq::<NodeV>::empty()) {
        Err(e) => Err(e),
        Ok((tags, c2)) => Ok(
            (
                spec_interior_node(
                    NodeKind::Element,
                    st.line,
                    st.col,
                    seq![
                        spec_interior_node(
                            elem_kind,
                            st.line,
                            st.col,
                            seq![spec_interior_node(data_kind, st.line, st.col, tags)],
                        ),
                    ],
                ),
                c2,
            ),
        ),
    }
}

/// Reads one element block. `st` is the opener token's start, `cur` stands
/// just past the opener. The block ends at its end marker (consumed) or at
/// the first token that is not one of its tags (left in place).
fn lex_element(
    cs: &Vec<char>,
    kinds: (NodeKind, NodeKind, NodeKind, &'static str),
    st: Cursor,
    cur: Cursor,
) -> (r: Result<(Node, Cursor), Error>)
    requires
        cur.i <= cs@.len(),
    ensures
        match r {
            Ok(t) => spec_lex_element(cs@, kinds.0, kinds.1, kinds.2, kinds.3@, st, cur) == Ok::<
                (NodeV, Cursor),
                ErrorV,
            >((t.0@, t.1)) && cur.i <= t.1.i <= cs@.len() && t.0@.kind == NodeKind::Element,
            Err(e) => spec_lex_element(cs@, kinds.0, kinds.1, kinds.2, kinds.3@, st, cur) == Err::<
                (NodeV, Cursor),
                ErrorV,
            >(e@),
        },
{
    let (elem_kind, data_kind, tag_kind, end_marker) = kinds;
    let len = cs.len();
    let mut tags: Vec<Node> = Vec::new();
    let mut c = cur;
    let mut done = false;
    while !done
        invariant
            cur.i <= c.i <= len,
            len == cs@.len(),
            kinds == (elem_kind, data_kind, tag_kind, end_marker),
            !done ==> spec_element_tags(cs@, tag_kind, end_marker@, cur, Seq::<NodeV>::empty())
                == spec_element_tags(
                cs@,
                tag_kind,
                end_marker@,
                c,
                crate::syntax::children_view(tags),
            ),
            done ==> spec_element_tags(cs@, tag_kind, end_marker@, cur, Seq::<NodeV>::empty())
                == Ok::<(Seq<NodeV>, Cursor), ErrorV>((crate::syntax::children_view(tags), c)),
        decreases len - c.i, (if done {
            0int
        } else {
            1int
        }),
    {
        let peeked = peek_token(cs, c);
        match peeked {
            None => {
                done = true;
            },
            Some((tok, tst, tafter)) => {
                if str_eq(tok.as_str(), end_marker) {
                    c = tafter;
                    done = true;
                } else {
                    match element_tag_kind(tok.as_str()) {
                        Some(k) => {
                            let vp = peek_token(cs, tafter);
                            match vp {
                                None => {
                                    return Err(
                                        Error::Lex {
                                            line: tafter.line,
                                            col: tafter.col,
                                            expected: "a value after the tag",
                                        },
                                    );
                                },
                                Some((val, vst, vafter)) => {
                                    let ghost old_tags = tags@;
                                    let ghost valv = val@;
                                    tags.push(tag_chain(tag_kind, k, tst.line, tst.col, val));
                                    proof {
                                        lemma_node_seq_view_push(
                                            old_tags,
                                            tags@,
                                            spec_tag_chain(tag_kind, k, tst.line, tst.col, valv),
                                        );
                                    }
                                    c = vafter;
                                },
                            }
                        },
                        None => {
                            done = true;
                        },
                    }
                }
            },
        }
    }
    let ghost tags_v = crate::syntax::children_view(tags);
    let data = Node {
        kind: data_kind,
        line: st.line,
        col: st.col,
        text: String::new(),
        children: tags,
    };
    proof {
        assert(data@.children == tags_v);
    }
    let ghost data_v = data@;
    let mut elem_children: Vec<Node> = Vec::new();
    elem_children.push(data);
    let elem = Node {
        kind: elem_kind,
        line: st.line,
        col: st.col,
        text: String::new(),
        children: elem_children,
    };
    proof {
        lemma_node_seq_view(elem.children@);
        assert(elem@.children =~= seq![data_v]);
    }
    let ghost elem_v = elem@;
    let mut outer_children: Vec<Node> = Vec::new();
    outer_children.push(elem);
    let outer = Node {
        kind: NodeKind::Element,
        line: st.line,
        col: st.col,
        text: String::new(),
        children: outer_children,
    };
    proof {
        lemma_node_seq_view(outer.children@);
        assert(outer@.children =~= seq![elem_v]);
        assert(outer@ == spec_interior_node(NodeKind::Element, st.line, st.col, seq![elem_v]));
    }
    Ok((outer, c))
}

/// The body items of a frame from `c` on, appended to `acc`: frame tags,
/// unknown tags, and element blocks, until `<frame_end>` (consumed).
pub open spec fn spec_frame_items(cs: Seq<char>, c: Cursor, acc: Seq<NodeV>) -> Result<
    (Seq<NodeV>, Cursor),
    ErrorV,
>
    decreases cs.len() - c.i,
    when c.i <= cs.len() && cs.len() <= usize::MAX
    via spec_frame_items_dec
{
    match spec_peek_token(cs, c) {
        None => Err(ErrorV::Lex { line: c.line, col: c.col, expected: "<frame_end>"@ }),
        Some((tok, tst, tafter)) => {
            if tok == "<frame_end>"@ {
                Ok((acc, tafter))
            } else {
                match spec_element_opener(tok) {
                    Some(kinds) => match spec_lex_element(
                        cs,
                        kinds.0,
                        kinds.1,
                        kinds.2,
                        kinds.3,
                        tst,
                        tafter,
                    ) {
                        Err(e) => Err(e),
                        Ok((el, c2)) => spec_frame_items(cs, c2, acc.push(el)),
                    },
                    None => match spec_frame_tag_kind(tok) {
                        Some(k) => match spec_peek_token(cs, tafter) {
                            None => Err(
                                ErrorV::Lex {
                                    line: tafter.line,
                                    col: tafter.col,
                                    expected: "a value after the tag"@,
                                },
                            ),
                            Some((val, vst, vafter)) => spec_frame_items(
                                cs,
                                vafter,
                                acc.push(
                                    spec_tag_chain(NodeKind::FrameTag, k, tst.line, tst.col, val),
                                ),
                            ),
                        },
                        None => if spec_ends_with_colon(tok) {
                            match spec_peek_token(cs, tafter) {
                                None => Err(
                                    ErrorV::Lex {
                                        line: tafter.line,
                                        col: tafter.col,
                                        expected: "a value after the tag"@,
                                    },
                                ),
                                Some((val, vst, vafter)) => spec_frame_items(
                                    cs,
                                    vafter,
                                    acc.push(
                                        spec_tag_chain(
                                            NodeKind::FrameTag,
                                            NodeKind::TagUnknown,
                                            tst.line,
                                            tst.col,
                                            val,
                                        ),
                                    ),
                                ),
                            }
                        } else {
                            Err(
                                ErrorV::Lex {
                                    line: tst.line,
                                    col: tst.col,
                                    expected: "a frame tag, an element, or <frame_end>"@,
                                },
                            )
                        },
                    },
                }
            }
        },
    }
}

#[via_fn]
proof fn spec_frame_items_dec(cs: Seq<char>, c: Cursor, acc: Seq<NodeV>) {
    lemma_peek_token_bounds(cs, c);
    match spec_peek_token(cs, c) {
        None => {},
        Some((tok, tst, tafter)) => {
            lemma_peek_token_bounds(cs, tafter);
            match spec_element_opener(tok) {
                Some(kinds) => {
                    lemma_element_tags_bounds(
                        cs,
                        kinds.2,
                        kinds.3,
                        tafter,
                        Seq::<NodeV>::empty(),
                    );
                },
                None => {},
            }
        },
    }
}

/// The frame body ends within the text, at or after where it started.
pub proof fn lemma_frame_items_bounds(cs: Seq<char>, c: Cursor, acc: Seq<NodeV>)
    requires
        c.i <= cs.len(),
        cs.len() <= usize::MAX,
    ensures
        spec_frame_items(cs, c, acc) matches Ok(t) ==> c.i <= t.1.i <= cs.len(),
    decreases cs.len() - c.i,
{
    lemma_peek_token_bounds(cs, c);
    match spec_peek_token(cs, c) {
        None => {},
        Some((tok, tst, tafter)) => {
            lemma_peek_token_bounds(cs, tafter);
            if tok != "<frame_end>"@ {
                match spec_element_opener(tok) {
                    Some(kinds) => {
                        lemma_element_tags_bounds(
                            cs,
                            kinds.2,
                            kinds.3,
                            tafter,
                            Seq::<NodeV>::empty(),
                        );
                        match spec_lex_element(cs, kinds.0, kinds.1, kinds.2, kinds.3, tst, tafter) {
                            Err(e) => {},
                            Ok((el, c2)) => {
                                lemma_frame_items_bounds(cs, c2, acc.push(el));
                            },
                        }
                    },
                    None => match spec_frame_tag_kind(tok) {
                        Some(k) => match spec_peek_token(cs, tafter) {
                            None => {},
                            Some((val, vst, vafter)) => {
                                lemma_frame_items_bounds(
                                    cs,
                                    vafter,
                                    acc.push(
                                        spec_tag_chain(NodeKind::FrameTag, k, tst.line, tst.col, val),
                                    ),
                                );
                            },
                        },
                        None => if spec_ends_with_colon(tok) {
                            match spec_peek_token(cs, tafter) {
                                None => {},
                                Some((val, vst, vafter)) => {
                                    lemma_frame_items_bounds(
                                        cs,
                                        vafter,
                                        acc.push(
                                            spec_tag_chain(
                                                NodeKind::FrameTag,
                                                NodeKind::TagUnknown,
                                                tst.line,
                                                tst.col,
                                                val,
                                            ),
                                        ),
                                    );
                                },
                            }
                        },
                    },
                }
            }
        },
    }
}

/// Meaning of one frame: its number token, its name (the rest of the
/// line, which must not be empty), then its body items, wrapped with the
/// frame's first source line as its diagnostic text.
pub open spec fn spec_lex_frame(cs: Seq<char>, st: Cursor, cur: Cursor) -> Result<
    (NodeV, Cursor),
    ErrorV,
> {
    match spec_peek_token(cs, cur) {
        None => Err(ErrorV::Lex { line: cur.line, col: cur.col, expected: "a frame number"@ }),
        Some((num_tok, num_st, after_num)) => {
            let (name_text, after_name) = spec_rest_of_line(cs, after_num);
            if name_text.len() == 0 {
                Err(
                    ErrorV::Lex {
                        line: after_num.line,
                        col: after_num.col,
                        expected: "a frame name"@,
                    },
                )
            } else {
                match spec_frame_items(cs, after_name, Seq::<NodeV>::empty()) {
                    Err(e) => Err(e),
                    Ok((items, c2)) => Ok(
                        (
                            NodeV {
                                kind: NodeKind::Frame,
                                line: st.line,
                                col: st.col,
                                text: spec_line_snippet(cs, st.i as int),
                                children: seq![
                                    spec_tag_value_node(
                                        NodeKind::FrameNumber,
                                        num_st.line,
                                        num_st.col,
                                        num_tok,
                                    ),
                                    spec_tag_value_node(
                                        NodeKind::FrameName,
                                        after_num.line,
                                        after_num.col,
                                        name_text,
                                    ),
                                    spec_interior_node(NodeKind::FrameData, st.line, st.col, items),
                                ],
                            },
                            c2,
                        ),
                    ),
                }
            }
        },
    }
}

/// A lexed frame ends within the text, at or after where it started.
pub proof fn lemma_lex_frame_bounds(cs: Seq<char>, st: Cursor, cur: Cursor)
    requires
        cur.i <= cs.len(),
        cs.len() <= usize::MAX,
    ensures
        spec_lex_frame(cs, st, cur) matches Ok(t) ==> cur.i <= t.1.i <= cs.len(),
{
    lemma_peek_token_bounds(cs, cur);
    match spec_peek_token(cs, cur) {
        None => {},
        Some((num_tok, num_st, after_num)) => {
            lemma_rest_of_line_bounds(cs, after_num);
            let (name_text, after_name) = spec_rest_of_line(cs, after_num);
            if name_text.len() > 0 {
                lemma_frame_items_bounds(cs, after_name, Seq::<NodeV>::empty());
            }
        },
    }
}

/// Reads one frame. `st` is the `<frame>` token's start, `cur` stands just
/// past it. The frame ends at `<frame_end>`.
fn lex_frame(cs: &Vec<char>, st: Cursor, cur: Cursor) -> (r: Result<(Node, Cursor), Error>)
    requires
        st.i <= cs@.len(),
        cur.i <= cs@.len(),
    ensures
        match r {
            Ok(t) => spec_lex_frame(cs@, st, cur) == Ok::<(NodeV, Cursor), ErrorV>((t.0@, t.1))
                && cur.i <= t.1.i <= cs@.len() && t.0@.kind == NodeKind::Frame,
            Err(e) => spec_lex_frame(cs@, st, cur) == Err::<(NodeV, Cursor), ErrorV>(e@),
        },
{
    let len = cs.len();
    // Frame number.
    let (num_tok, num_st, after_num) = match peek_token(cs, cur) {
        Some(t) => t,
        None => {
            return Err(Error::Lex { line: cur.line, col: cur.col, expected: "a frame number" });
        },
    };
    // Frame name: the rest of the line.
    let (name_text, after_name) = rest_of_line(cs, after_num);
    if name_text.as_str().is_empty() {
        return Err(
            Error::Lex { line: after_num.line, col: after_num.col, expected: "a frame name" },
        );
    }
    let ghost num_tok_v = num_tok@;
    let ghost name_text_v = name_text@;
    let mut items: Vec<Node> = Vec::new();
    let mut c = after_name;
    let mut closed = false;
    while !closed
        invariant
            cur.i <= c.i <= len,
            len == cs@.len(),
            spec_peek_token(cs@, cur) == Some((num_tok_v, num_st, after_num)),
            spec_rest_of_line(cs@, after_num) == (name_text_v, after_name),
            name_text_v.len() > 0,
            !closed ==> spec_frame_items(cs@, after_name, Seq::<NodeV>::empty())
                == spec_frame_items(cs@, c, crate::syntax::children_view(items)),
            closed ==> spec_frame_items(cs@, after_name, Seq::<NodeV>::empty()) == Ok::<
                (Seq<NodeV>, Cursor),
                ErrorV,
            >((crate::syntax::children_view(items), c)),
        decreases len - c.i, (if closed {
            0int
        } else {
            1int
        }),
    {
        let peeked = peek_token(cs, c);
        match peeked {
            None => {
                return Err(Error::Lex { line: c.line, col: c.col, expected: "<frame_end>" });
            },
            Some((tok, tst, tafter)) => {
                if str_eq(tok.as_str(), "<frame_end>") {
                    c = tafter;
                    closed = true;
                } else {
                    match element_opener(tok.as_str()) {
                        Some(kinds) => {
                            match lex_element(cs, kinds, tst, tafter) {
                                Ok((el, c2)) => {
                                    let ghost old_items = items@;
                                    let ghost elv = el@;
                                    items.push(el);
                                    proof {
                                        lemma_node_seq_view_push(old_items, items@, elv);
                                    }
                                    c = c2;
                                },
                                Err(e) => {
                                    return Err(e);
                                },
                            }
                        },
                        None => {
                            match frame_tag_kind(tok.as_str()) {
                                Some(k) => {
                                    let vp = peek_token(cs, tafter);
                                    match vp {
                                        None => {
                                            return Err(
                                                Error::Lex {
                                                    line: tafter.line,
                                                    col: tafter.col,
                                                    expected: "a value after the tag",
                                                },
                                            );
                                        },
                                        Some((val, vst, vafter)) => {
                                            let ghost old_items = items@;
                                            let ghost valv = val@;
                                            items.push(
                                                tag_chain(
                                                    NodeKind::FrameTag,
                                                    k,
                                                    tst.line,
                                                    tst.col,
                                                    val,
                                                ),
                                            );
                                            proof {
                                                lemma_node_seq_view_push(
                                                    old_items,
                                                    items@,
                                                    spec_tag_chain(
                                                        NodeKind::FrameTag,
                                                        k,
                                                        tst.line,
                                                        tst.col,
                                                        valv,
                                                    ),
                                                );
                                            }
                                            c = vafter;
                                        },
                                    }
                                },
                                None => {
                                    if ends_with_colon(tok.as_str()) {
                                        // Unknown tag: keep it, the walkers skip it.
                                        let vp = peek_token(cs, tafter);
                                        match vp {
                                            None => {
                                                return Err(
                                                    Error::Lex {
                                                        line: tafter.line,
                                                        col: tafter.col,
                                                        expected: "a value after the tag",
                                                    },
                                                );
                                            },
                                            Some((val, vst, vafter)) => {
                                                let ghost old_items = items@;
                                                let ghost valv = val@;
                                                items.push(
                                                    tag_chain(
                                                        NodeKind::FrameTag,
                                                        NodeKind::TagUnknown,
                                                        tst.line,
                                                        tst.col,
                                                        val,
                                                    ),
                                                );
                                                proof {
                                                    lemma_node_seq_view_push(
                                                        old_items,
                                                        items@,
                                                        spec_tag_chain(
                                                            NodeKind::FrameTag,
                                                            NodeKind::TagUnknown,
                                                            tst.line,
                                                            tst.col,
                                                            valv,
                                                        ),
                                                    );
                                                }
                                                c = vafter;
                                            },
                                        }
                                    } else {
                                        return Err(
                                            Error::Lex {
                                                line: tst.line,
                                                col: tst.col,
                                                expected: "a frame tag, an element, or <frame_end>",
                                            },
                                        );
                                    }
                                },
                            }
                        },
                    }
                }
            },
        }
    }
    let number = tag_value_node(NodeKind::FrameNumber, num_st.line, num_st.col, num_tok);
    let name = tag_value_node(NodeKind::FrameName, after_num.line, after_num.col, name_text);
    let ghost items_v = crate::syntax::children_view(items);
    let data = Node {
        kind: NodeKind::FrameData,
        line: st.line,
        col: st.col,
        text: String::new(),
        children: items,
    };
    let snippet = line_snippet(cs, st.i);
    let ghost number_v = number@;
    let ghost name_v = name@;
    let ghost data_v = data@;
    let mut frame_children: Vec<Node> = Vec::new();
    frame_children.push(number);
    frame_children.push(name);
    frame_children.push(data);
    let frame = Node {
        kind: NodeKind::Frame,
        line: st.line,
        col: st.col,
        text: snippet,
        children: frame_children,
    };
    proof {
        lemma_node_seq_view(frame.children@);
        assert(frame.children@[0]@ == number_v);
        assert(frame.children@[1]@ == name_v);
        assert(frame.children@[2]@ == data_v);
        assert(frame@.children =~= seq![number_v, name_v, data_v]);
    }
    Ok((frame, c))
}

/// One grid entry of a sprite sheet: the expected tag word, then one
/// numeric value.
pub open spec fn spec_grid_entry(cs: Seq<char>, c: Cursor, kind: NodeKind, word: Seq<char>) -> Result<
    (NodeV, Cursor),
    ErrorV,
> {
    match spec_peek_token(cs, c) {
        None => Err(ErrorV::Lex { line: c.line, col: c.col, expected: "a grid tag"@ }),
        Some((w_tok, wst, wafter)) => if w_tok != word {
            Err(ErrorV::Lex { line: wst.line, col: wst.col, expected: "a grid tag"@ })
        } else {
            match spec_peek_token(cs, wafter) {
                None => Err(
                    ErrorV::Lex { line: wafter.line, col: wafter.col, expected: "a numeric value"@ },
                ),
                Some((val, vst, vafter)) => Ok(
                    (spec_tag_value_node(kind, wst.line, wst.col, val), vafter),
                ),
            }
        },
    }
}

fn grid_entry(cs: &Vec<char>, c: Cursor, kind: NodeKind, word: &'static str) -> (r: Result<
    (Node, Cursor),
    Error,
>)
    requires
        c.i <= cs@.len(),
    ensures
        match r {
            Ok(t) => spec_grid_entry(cs@, c, kind, word@) == Ok::<(NodeV, Cursor), ErrorV>(
                (t.0@, t.1),
            ) && c.i <= t.1.i <= cs@.len(),
            Err(e) => spec_grid_entry(cs@, c, kind, word@) == Err::<(NodeV, Cursor), ErrorV>(e@),
        },
{
    let (w_tok, wst, wafter) = match peek_token(cs, c) {
        Some(t) => t,
        None => {
            return Err(Error::Lex { line: c.line, col: c.col, expected: "a grid tag" });
        },
    };
    if !str_eq(w_tok.as_str(), word) {
        return Err(Error::Lex { line: wst.line, col: wst.col, expected: "a grid tag" });
    }
    let (val, vst, vafter) = match peek_token(cs, wafter) {
        Some(t) => t,
        None => {
            return Err(
                Error::Lex { line: wafter.line, col: wafter.col, expected: "a numeric value" },
            );
        },
    };
    Ok((tag_value_node(kind, wst.line, wst.col, val), vafter))
}

/// Meaning of a sprite sheet entry after its `file(...)` opener: the path
/// token, then the `w:`, `h:`, `row:` and `col:` entries, wrapped in a
/// `SpriteFile` node inside a `HeaderTag` node.
pub open spec fn spec_lex_sprite_file(cs: Seq<char>, tst: Cursor, cur: Cursor) -> Result<
    (NodeV, Cursor),
    ErrorV,
> {
    match spec_peek_token(cs, cur) {
        None => Err(ErrorV::Lex { line: cur.line, col: cur.col, expected: "a path"@ }),
        Some((path, pst, after_path)) => match spec_grid_entry(
            cs,
            after_path,
            NodeKind::TagW,
            "w:"@,
        ) {
            Err(e) => Err(e),
            Ok((wn, c1)) => match spec_grid_entry(cs, c1, NodeKind::TagH, "h:"@) {
                Err(e) => Err(e),
                Ok((hn, c2)) => match spec_grid_entry(cs, c2, NodeKind::TagRow, "row:"@) {
                    Err(e) => Err(e),
                    Ok((rn, c3)) => match spec_grid_entry(cs, c3, NodeKind::TagCol, "col:"@) {
                        Err(e) => Err(e),
                        Ok((cn, c4)) => Ok(
                            (
                                spec_interior_node(
                                    NodeKind::HeaderTag,
                                    tst.line,
                                    tst.col,
                                    seq![
                                        spec_interior_node(
                                            NodeKind::SpriteFile,
                                            tst.line,
                                            tst.col,
                                            seq![
                                                spec_tag_value_node(
                                                    NodeKind::TagFileValue,
                                                    pst.line,
                                                    pst.col,
                                                    path,
                                                ),
                                                wn,
                                                hn,
                                                rn,
                                                cn,
                                            ],
                                        ),
                                    ],
                                ),
                                c4,
                            ),
                        ),
                    },
                },
            },
        },
    }
}

/// A lexed sprite sheet entry ends within the text, at or after where it
/// started.
pub proof fn lemma_lex_sprite_file_bounds(cs: Seq<char>, tst: Cursor, cur: Cursor)
    requires
        cur.i <= cs.len(),
        cs.len() <= usize::MAX,
    ensures
        spec_lex_sprite_file(cs, tst, cur) matches Ok(t) ==> cur.i <= t.1.i <= cs.len(),
{
    lemma_peek_token_bounds(cs, cur);
    match spec_peek_token(cs, cur) {
        None => {},
        Some((path, pst, after_path)) => {
            lemma_grid_entry_bounds(cs, after_path);
            match spec_grid_entry(cs, after_path, NodeKind::TagW, "w:"@) {
                Err(e) => {},
                Ok((wn, c1)) => {
                    lemma_grid_entry_bounds(cs, c1);
                    match spec_grid_entry(cs, c1, NodeKind::TagH, "h:"@) {
                        Err(e) => {},
                        Ok((hn, c2)) => {
                            lemma_grid_entry_bounds(cs, c2);
                            match spec_grid_entry(cs, c2, NodeKind::TagRow, "row:"@) {
                                Err(e) => {},
                                Ok((rn, c3)) => {
                                    lemma_grid_entry_bounds(cs, c3);
                                },
                            }
                        },
                    }
                },
            }
        },
    }
}

/// A grid entry ends within the text, at or after where it started; the
/// bound holds for any expected kind and word.
proof fn lemma_grid_entry_bounds(cs: Seq<char>, c: Cursor)
    requires
        c.i <= cs.len(),
        cs.len() <= usize::MAX,
    ensures
        forall|kind: NodeKind, word: Seq<char>|
            (#[trigger] spec_grid_entry(cs, c, kind, word)) matches Ok(t) ==> c.i <= t.1.i
                <= cs.len(),
{
    lemma_peek_token_bounds(cs, c);
    match spec_peek_token(cs, c) {
        None => {},
        Some((w_tok, wst, wafter)) => {
            lemma_peek_token_bounds(cs, wafter);
        },
    }
}

/// Reads a sprite sheet entry after its `file(...)` opener: the path, then
/// `w:`, `h:`, `row:` and `col:`, each with one numeric value.
fn lex_sprite_file(cs: &Vec<char>, tst: Cursor, cur: Cursor) -> (r: Result<(Node, Cursor), Error>)
    requires
        cur.i <= cs@.len(),
    ensures
        match r {
            Ok(t) => spec_lex_sprite_file(cs@, tst, cur) == Ok::<(NodeV, Cursor), ErrorV>(
                (t.0@, t.1),
            ) && cur.i <= t.1.i <= cs@.len() && t.0@.kind == NodeKind::HeaderTag,
            Err(e) => spec_lex_sprite_file(cs@, tst, cur) == Err::<(NodeV, Cursor), ErrorV>(e@),
        },
{
    let (path, pst, after_path) = match peek_token(cs, cur) {
        Some(t) => t,
        None => {
            return Err(Error::Lex { line: cur.line, col: cur.col, expected: "a path" });
        },
    };
    let (wn, c1) = match grid_entry(cs, after_path, NodeKind::TagW, "w:") {
        Ok(t) => t,
        Err(e) => {
            return Err(e);
        },
    };
    let (hn, c2) = match grid_entry(cs, c1, NodeKind::TagH, "h:") {
        Ok(t) => t,
        Err(e) => {
            return Err(e);
        },
    };
    let (rn, c3) = match grid_entry(cs, c2, NodeKind::TagRow, "row:") {
        Ok(t) => t,
        Err(e) => {
            return Err(e);
        },
    };
    let (cn, c4) = match grid_entry(cs, c3, NodeKind::TagCol, "col:") {
        Ok(t) => t,
        Err(e) => {
            return Err(e);
        },
    };
    let ghost pathv = path@;
    let ghost wv = wn@;
    let ghost hv = hn@;
    let ghost rv = rn@;
    let ghost cv = cn@;
    let mut children: Vec<Node> = Vec::new();
    children.push(tag_value_node(NodeKind::TagFileValue, pst.line, pst.col, path));
    children.push(wn);
    children.push(hn);
    children.push(rn);
    children.push(cn);
    let sf = Node {
        kind: NodeKind::SpriteFile,
        line: tst.line,
        col: tst.col,
        text: String::new(),
        children,
    };
    proof {
        lemma_node_seq_view(sf.children@);
        assert(sf.children@[0]@ == spec_tag_value_node(
            NodeKind::TagFileValue,
            pst.line,
            pst.col,
            pathv,
        ));
        assert(sf.children@[1]@ == wv);
        assert(sf.children@[2]@ == hv);
        assert(sf.children@[3]@ == rv);
        assert(sf.children@[4]@ == cv);
        assert(sf@.children =~= seq![
            spec_tag_value_node(NodeKind::TagFileValue, pst.line, pst.col, pathv),
            wv,
            hv,
            rv,
            cv,
        ]);
    }
    let ghost sfv = sf@;
    let mut ht_children: Vec<Node> = Vec::new();
    ht_children.push(sf);
    let ht = Node {
        kind: NodeKind::HeaderTag,
        line: tst.line,
        col: tst.col,
        text: String::new(),
        children: ht_children,
    };
    proof {
        lemma_node_seq_view(ht.children@);
        assert(ht@.children =~= seq![sfv]);
    }
    Ok((ht, c4))
}

/// Meaning of one header tag, given its already consumed opener token
/// `tok` starting at `tst`, with `cur` just past it.
pub open spec fn spec_lex_header_tag(cs: Seq<char>, tok: Seq<char>, tst: Cursor, cur: Cursor) -> Result<
    (NodeV, Cursor),
    ErrorV,
> {
    if tok == "name:"@ {
        let (text, after) = spec_rest_of_line(cs, cur);
        Ok((spec_tag_chain(NodeKind::HeaderTag, NodeKind::TagName, tst.line, tst.col, text), after))
    } else if tok == "head:"@ || tok == "small:"@ {
        let kind = if tok == "head:"@ {
            NodeKind::TagHead
        } else {
            NodeKind::TagSmall
        };
        match spec_peek_token(cs, cur) {
            None => Err(ErrorV::Lex { line: cur.line, col: cur.col, expected: "a path"@ }),
            Some((val, vst, vafter)) => Ok(
                (spec_tag_chain(NodeKind::HeaderTag, kind, tst.line, tst.col, val), vafter),
            ),
        }
    } else if spec_is_file_opener(tok) {
        spec_lex_sprite_file(cs, tst, cur)
    } else {
        match spec_header_numeric_kind(tok) {
            Some(k) => match spec_peek_token(cs, cur) {
                None => Err(
                    ErrorV::Lex { line: cur.line, col: cur.col, expected: "a numeric value"@ },
                ),
                Some((val, vst, vafter)) => Ok(
                    (spec_tag_chain(NodeKind::HeaderTag, k, tst.line, tst.col, val), vafter),
                ),
            },
            None => Err(ErrorV::Lex { line: tst.line, col: tst.col, expected: "a header tag"@ }),
        }
    }
}

/// A lexed header tag ends within the text, at or after where it started.
pub proof fn lemma_lex_header_tag_bounds(cs: Seq<char>, tok: Seq<char>, tst: Cursor, cur: Cursor)
    requires
        cur.i <= cs.len(),
        cs.len() <= usize::MAX,
    ensures
        spec_lex_header_tag(cs, tok, tst, cur) matches Ok(t) ==> cur.i <= t.1.i <= cs.len(),
{
    lemma_rest_of_line_bounds(cs, cur);
    lemma_peek_token_bounds(cs, cur);
    lemma_lex_sprite_file_bounds(cs, tst, cur);
}

/// Reads one header tag. `tok` is the already consumed opener token
/// starting at `tst`; `cur` stands just past it.
fn lex_header_tag(cs: &Vec<char>, tok: &str, tst: Cursor, cur: Cursor) -> (r: Result<
    (Node, Cursor),
    Error,
>)
    requires
        cur.i <= cs@.len(),
    ensures
        match r {
            Ok(t) => spec_lex_header_tag(cs@, tok@, tst, cur) == Ok::<(NodeV, Cursor), ErrorV>(
                (t.0@, t.1),
            ) && cur.i <= t.1.i <= cs@.len() && t.0@.kind == NodeKind::HeaderTag,
            Err(e) => spec_lex_header_tag(cs@, tok@, tst, cur) == Err::<(NodeV, Cursor), ErrorV>(
                e@,
            ),
        },
{
    if str_eq(tok, "name:") {
        let (text, after) = rest_of_line(cs, cur);
        let inner = tag_chain(NodeKind::HeaderTag, NodeKind::TagName, tst.line, tst.col, text);
        return Ok((inner, after));
    }
    if str_eq(tok, "head:") || str_eq(tok, "small:") {
        let kind = if str_eq(tok, "head:") {
            NodeKind::TagHead
        } else {
            NodeKind::TagSmall
        };
        let (val, vst, vafter) = match peek_token(cs, cur) {
            Some(t) => t,
            None => {
                return Err(Error::Lex { line: cur.line, col: cur.col, expected: "a path" });
            },
        };
        return Ok((tag_chain(NodeKind::HeaderTag, kind, tst.line, tst.col, val), vafter));
    }
    if is_file_opener(tok) {
        return lex_sprite_file(cs, tst, cur);
    }
    match header_numeric_kind(tok) {
        Some(k) => {
            let (val, vst, vafter) = match peek_token(cs, cur) {
                Some(t) => t,
                None => {
                    return Err(
                        Error::Lex { line: cur.line, col: cur.col, expected: "a numeric value" },
                    );
                },
            };
            Ok((tag_chain(NodeKind::HeaderTag, k, tst.line, tst.col, val), vafter))
        },
        None => Err(Error::Lex { line: tst.line, col: tst.col, expected: "a header tag" }),
    }
}

/// The header tags from `c` on, appended to `acc`, until `<bmp_end>`
/// (consumed).
pub open spec fn spec_header_tags(cs: Seq<char>, c: Cursor, acc: Seq<NodeV>) -> Result<
    (Seq<NodeV>, Cursor),
    ErrorV,
>
    decreases cs.len() - c.i,
    when c.i <= cs.len() && cs.len() <= usize::MAX
    via spec_header_tags_dec
{
    match spec_peek_token(cs, c) {
        None => Err(ErrorV::Lex { line: c.line, col: c.col, expected: "<bmp_end>"@ }),
        Some((tok, tst, tafter)) => {
            if tok == "<bmp_end>"@ {
                Ok((acc, tafter))
            } else {
                match spec_lex_header_tag(cs, tok, tst, tafter) {
                    Err(e) => Err(e),
                    Ok((ht, c2)) => spec_header_tags(cs, c2, acc.push(ht)),
                }
            }
        },
    }
}

#[via_fn]
proof fn spec_header_tags_dec(cs: Seq<char>, c: Cursor, acc: Seq<NodeV>) {
    lemma_peek_token_bounds(cs, c);
    match spec_peek_token(cs, c) {
        None => {},
        Some((tok, tst, tafter)) => {
            lemma_lex_header_tag_bounds(cs, tok, tst, tafter);
        },
    }
}

/// The header tags end within the text.
pub proof fn lemma_header_tags_bounds(cs: Seq<char>, c: Cursor, acc: Seq<NodeV>)
    requires
        c.i <= cs.len(),
        cs.len() <= usize::MAX,
    ensures
        spec_header_tags(cs, c, acc) matches Ok(t) ==> c.i <= t.1.i <= cs.len(),
    decreases cs.len() - c.i,
{
    lemma_peek_token_bounds(cs, c);
    match spec_peek_token(cs, c) {
        None => {},
        Some((tok, tst, tafter)) => {
            if tok != "<bmp_end>"@ {
                lemma_lex_header_tag_bounds(cs, tok, tst, tafter);
                match spec_lex_header_tag(cs, tok, tst, tafter) {
                    Err(e) => {},
                    Ok((ht, c2)) => {
                        lemma_header_tags_bounds(cs, c2, acc.push(ht));
                    },
                }
            }
        },
    }
}

/// The frames from `c` on, appended to `acc`, until the end of the text;
/// a token that does not start a frame ends the object, and is handed back
/// as the start of the surplus.
pub open spec fn spec_frames_loop(cs: Seq<char>, c: Cursor, acc: Seq<NodeV>) -> Result<
    (Seq<NodeV>, Option<SourceRefV>),
    ErrorV,
>
    decreases cs.len() - c.i,
    when c.i <= cs.len() && cs.len() <= usize::MAX
    via spec_frames_loop_dec
{
    match spec_peek_token(cs, c) {
        None => Ok((acc, None)),
        Some((tok, tst, tafter)) => {
            if tok == "<frame>"@ {
                match spec_lex_frame(cs, tst, tafter) {
                    Err(e) => Err(e),
                    Ok((fr, c2)) => spec_frames_loop(cs, c2, acc.push(fr)),
                }
            } else {
                Ok(
                    (
                        acc,
                        Some(
                            SourceRefV {
                                kind: NodeKind::Value,
                                text: spec_line_snippet(cs, tst.i as int),
                                line: tst.line,
                                col: tst.col,
                            },
                        ),
                    ),
                )
            }
        },
    }
}

#[via_fn]
proof fn spec_frames_loop_dec(cs: Seq<char>, c: Cursor, acc: Seq<NodeV>) {
    lemma_peek_token_bounds(cs, c);
    match spec_peek_token(cs, c) {
        None => {},
        Some((tok, tst, tafter)) => {
            lemma_lex_frame_bounds(cs, tst, tafter);
        },
    }
}

/// Meaning of a whole object data text: the `<bmp_begin>` block's tags
/// wrapped in the header node, then the frames, wrapped in the object
/// node, along with the start of any surplus text.
pub open spec fn spec_lex(cs: Seq<char>) -> Result<(NodeV, Option<SourceRefV>), ErrorV> {
    let start = Cursor { i: 0, line: 1, col: 1 };
    match spec_peek_token(cs, start) {
        None => Err(ErrorV::ObjectDataExpected),
        Some((tok, ost, oafter)) => {
            if tok != "<bmp_begin>"@ {
                Err(ErrorV::Lex { line: ost.line, col: ost.col, expected: "<bmp_begin>"@ })
            } else {
                match spec_header_tags(cs, oafter, Seq::<NodeV>::empty()) {
                    Err(e) => Err(e),
                    Ok((hts, c1)) => match spec_frames_loop(cs, c1, Seq::<NodeV>::empty()) {
                        Err(e) => Err(e),
                        Ok((frs, surplus)) => Ok(
                            (
                                spec_interior_node(
                                    NodeKind::Object,
                                    ost.line,
                                    ost.col,
                                    seq![
                                        spec_interior_node(
                                            NodeKind::Header,
                                            ost.line,
                                            ost.col,
                                            seq![
                                                spec_interior_node(
                                                    NodeKind::HeaderData,
                                                    ost.line,
                                                    ost.col,
                                                    hts,
                                                ),
                                            ],
                                        ),
                                        spec_interior_node(NodeKind::Frames, c1.line, c1.col, frs),
                                    ],
                                ),
                                surplus,
                            ),
                        ),
                    },
                }
            }
        },
    }
}

/// What the lexer hands back: the object tree, and where surplus text
/// starts when any follows the object.
pub struct LexOutput {
    /// The `Object` syntax tree.
    pub root: Node,
    /// The first surplus token after the object, if any.
    pub surplus: Option<crate::error::SourceRef>,
}

/// The view of an optional surplus reference.
pub open spec fn spec_surplus_view(o: &Option<crate::error::SourceRef>) -> Option<SourceRefV> {
    match o {
        Some(x) => Some(x@),
        None => None,
    }
}

/// Lexes a whole object data text: one header block, then frames until the
/// end of the text. Text after the last frame that does not start another
/// frame is handed back as surplus. The result is exactly what `spec_lex`
/// says of the text.
pub fn lex_object(s: &str) -> (r: Result<LexOutput, Error>)
    ensures
        match r {
            Ok(out) => spec_lex(s@) == Ok::<(NodeV, Option<SourceRefV>), ErrorV>(
                (out.root@, spec_surplus_view(&out.surplus)),
            ) && out.root@.kind == NodeKind::Object && out.root@.children.len() == 2
                && out.root@.children[0].kind == NodeKind::Header && out.root@.children[1].kind
                == NodeKind::Frames,
            Err(e) => spec_lex(s@) == Err::<(NodeV, Option<SourceRefV>), ErrorV>(e@),
        },
{
    let cs = to_chars(s);
    let len = cs.len();
    let start = Cursor { i: 0, line: 1, col: 1 };
    // An empty (or all-whitespace) text holds no object at all.
    let first = match peek_token(&cs, start) {
        Some(t) => t,
        None => {
            return Err(Error::ObjectDataExpected);
        },
    };
    let (open_tok, open_st, after_open) = first;
    if !str_eq(open_tok.as_str(), "<bmp_begin>") {
        return Err(Error::Lex { line: open_st.line, col: open_st.col, expected: "<bmp_begin>" });
    }
    // Header tags until <bmp_end>.
    let mut header_tags: Vec<Node> = Vec::new();
    let mut c = after_open;
    let mut header_closed = false;
    while !header_closed
        invariant
            c.i <= len,
            len == cs@.len(),
            cs@ == s@,
            spec_peek_token(cs@, Cursor { i: 0, line: 1, col: 1 }) == Some(
                (open_tok@, open_st, after_open),
            ),
            open_tok@ == "<bmp_begin>"@,
            !header_closed ==> spec_header_tags(cs@, after_open, Seq::<NodeV>::empty())
                == spec_header_tags(cs@, c, crate::syntax::children_view(header_tags)),
            header_closed ==> spec_header_tags(cs@, after_open, Seq::<NodeV>::empty()) == Ok::<
                (Seq<NodeV>, Cursor),
                ErrorV,
            >((crate::syntax::children_view(header_tags), c)),
        decreases len - c.i, (if header_closed {
            0int
        } else {
            1int
        }),
    {
        let peeked = peek_token(&cs, c);
        match peeked {
            None => {
                return Err(Error::Lex { line: c.line, col: c.col, expected: "<bmp_end>" });
            },
            Some((tok, tst, tafter)) => {
                if str_eq(tok.as_str(), "<bmp_end>") {
                    c = tafter;
                    header_closed = true;
                } else {
                    match lex_header_tag(&cs, tok.as_str(), tst, tafter) {
                        Ok((ht, c2)) => {
                            let ghost old_tags = header_tags@;
                            let ghost htv = ht@;
                            header_tags.push(ht);
                            proof {
                                lemma_node_seq_view_push(old_tags, header_tags@, htv);
                            }
                            c = c2;
                        },
                        Err(e) => {
                            return Err(e);
                        },
                    }
                }
            },
        }
    }
    let ghost header_tags_v = crate::syntax::children_view(header_tags);
    let header_data = Node {
        kind: NodeKind::HeaderData,
        line: open_st.line,
        col: open_st.col,
        text: String::new(),
        children: header_tags,
    };
    let ghost header_data_v = header_data@;
    let mut hd_children: Vec<Node> = Vec::new();
    hd_children.push(header_data);
    let header = Node {
        kind: NodeKind::Header,
        line: open_st.line,
        col: open_st.col,
        text: String::new(),
        children: hd_children,
    };
    proof {
        lemma_node_seq_view(header.children@);
        assert(header@.children =~= seq![header_data_v]);
    }
    // Frames until the end of the text, or until something that is not a
    // frame follows (surplus).
    let frames_start = c;
    let mut frames: Vec<Node> = Vec::new();
    let mut surplus: Option<crate::error::SourceRef> = None;
    let mut done = false;
    while !done
        invariant
            c.i <= len,
            len == cs@.len(),
            cs@ == s@,
            spec_peek_token(cs@, Cursor { i: 0, line: 1, col: 1 }) == Some(
                (open_tok@, open_st, after_open),
            ),
            open_tok@ == "<bmp_begin>"@,
            spec_header_tags(cs@, after_open, Seq::<NodeV>::empty()) == Ok::<
                (Seq<NodeV>, Cursor),
                ErrorV,
            >((header_tags_v, frames_start)),
            !done ==> surplus is None && spec_frames_loop(cs@, frames_start, Seq::<NodeV>::empty())
                == spec_frames_loop(cs@, c, crate::syntax::children_view(frames)),
            done ==> spec_frames_loop(cs@, frames_start, Seq::<NodeV>::empty()) == Ok::<
                (Seq<NodeV>, Option<SourceRefV>),
                ErrorV,
            >((crate::syntax::children_view(frames), spec_surplus_view(&surplus))),
        decreases len - c.i, (if done {
            0int
        } else {
            1int
        }),
    {
        let peeked = peek_token(&cs, c);
        match peeked {
            None => {
                done = true;
            },
            Some((tok, tst, tafter)) => {
                if str_eq(tok.as_str(), "<frame>") {
                    match lex_frame(&cs, tst, tafter) {
                        Ok((fr, c2)) => {
                            let ghost old_frames = frames@;
                            let ghost frv = fr@;
                            frames.push(fr);
                            proof {
                                lemma_node_seq_view_push(old_frames, frames@, frv);
                            }
                            c = c2;
                        },
                        Err(e) => {
                            return Err(e);
                        },
                    }
                } else {
                    let snippet = line_snippet(&cs, tst.i);
                    surplus =
                    Some(
                        crate::error::SourceRef {
                            kind: NodeKind::Value,
                            text: snippet,
                            line: tst.line,
                            col: tst.col,
                        },
                    );
                    done = true;
                }
            },
        }
    }
    let ghost frames_items_v = crate::syntax::children_view(frames);
    let frames_node = Node {
        kind: NodeKind::Frames,
        line: frames_start.line,
        col: frames_start.col,
        text: String::new(),
        children: frames,
    };
    let ghost header_v = header@;
    let ghost frames_v = frames_node@;
    let mut obj_children: Vec<Node> = Vec::new();
    obj_children.push(header);
    obj_children.push(frames_node);
    let root = Node {
        kind: NodeKind::Object,
        line: open_st.line,
        col: open_st.col,
        text: String::new(),
        children: obj_children,
    };
    proof {
        crate::syntax::lemma_node_seq_view(root.children@);
        assert(root.children@.len() == 2);
        assert(root.children@[0]@ == header_v);
        assert(root.children@[1]@ == frames_v);
        assert(root@.children =~= seq![header_v, frames_v]);
    }
    Ok(LexOutput { root, surplus })
}

} // verus!
