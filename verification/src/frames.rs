//! The ordered frame collection and its uniqueness invariant.

use vstd::prelude::*;

use crate::frame::{Frame, FrameV};

verus! {

/// Ordered sequence of frames. Construction enforces that no two frames
/// share a frame number.
#[derive(Debug, PartialEq)]
pub struct Frames(pub Vec<Frame>);

impl View for Frames {
    type V = Seq<FrameV>;

    open spec fn view(&self) -> Seq<FrameV> {
        Seq::new(self.0@.len(), |i: int| self.0@[i]@)
    }
}

/// No two frames of `fs` share a frame number.
pub open spec fn spec_numbers_unique(fs: Seq<FrameV>) -> bool {
    forall|i: int, j: int|
        0 <= i < j < fs.len() ==> (#[trigger] fs[i].number) != (#[trigger] fs[j].number)
}

impl Frames {
    /// The empty collection.
    pub fn new() -> (r: Frames)
        ensures
            r@ == Seq::<FrameV>::empty(),
    {
        let r = Frames(Vec::new());
        proof {
            assert(r@ =~= Seq::<FrameV>::empty());
        }
        r
    }
}

} // verus!

// The walker: parsing each frame and enforcing the uniqueness invariant.

use crate::error::{spec_grammar_single, Error, ErrorV, SourceRef, SourceRefV};
use crate::frame::spec_frame_of;
use crate::frame_number::FrameNumber;
use crate::syntax::{lemma_node_seq_view, Node, NodeKind, NodeV};
use crate::object_data_parser::ObjectDataParser;

verus! {

/// Parses the frame nodes `children[i..]`, appending to `acc`, stopping at
/// the first frame that fails to parse.
pub open spec fn spec_frames_fold(children: Seq<NodeV>, i: int, acc: Seq<FrameV>) -> Result<
    Seq<FrameV>,
    ErrorV,
>
    decreases children.len() - i,
{
    if i < 0 || i >= children.len() {
        Ok(acc)
    } else {
        match spec_frame_of(children[i]) {
            Err(e) => Err(e),
            Ok(f) => spec_frames_fold(children, i + 1, acc.push(f)),
        }
    }
}

/// The first index whose frame number occurs again later, if any.
pub open spec fn spec_find_dup(fs: Seq<FrameV>, i: int) -> Option<int>
    decreases fs.len() - i,
{
    if i < 0 || i >= fs.len() {
        None
    } else if exists|j: int| i < j < fs.len() && (#[trigger] fs[j].number) == fs[i].number {
        Some(i)
    } else {
        spec_find_dup(fs, i + 1)
    }
}

/// No duplicate is found exactly when the numbers from `i` on are unique.
pub proof fn lemma_find_dup_none(fs: Seq<FrameV>, i: int)
    requires
        0 <= i,
    ensures
        spec_find_dup(fs, i) is None <==> (forall|a: int, b: int|
            i <= a < b < fs.len() ==> (#[trigger] fs[a].number) != (#[trigger] fs[b].number)),
    decreases fs.len() - i,
{
    if i < fs.len() {
        lemma_find_dup_none(fs, i + 1);
    }
}

/// A found index is a real duplicate.
pub proof fn lemma_find_dup_some(fs: Seq<FrameV>, i: int, i0: int)
    requires
        0 <= i,
        spec_find_dup(fs, i) == Some(i0),
    ensures
        i <= i0 < fs.len(),
        exists|j: int| i0 < j < fs.len() && (#[trigger] fs[j].number) == fs[i0].number,
    decreases fs.len() - i,
{
    if i < fs.len() {
        if !(exists|j: int| i < j < fs.len() && (#[trigger] fs[j].number) == fs[i].number) {
            lemma_find_dup_some(fs, i + 1, i0);
        }
    }
}

/// The source references of every frame in `fs[i..]` carrying the number
/// `num`, in order; `children` are the frame nodes the frames came from.
pub open spec fn spec_occurrences(
    children: Seq<NodeV>,
    fs: Seq<FrameV>,
    num: FrameNumber,
    i: int,
) -> Seq<SourceRefV>
    decreases fs.len() - i,
{
    if i < 0 || i >= fs.len() {
        Seq::empty()
    } else if fs[i].number == num {
        seq![SourceRef::spec_of_node(children[i])] + spec_occurrences(children, fs, num, i + 1)
    } else {
        spec_occurrences(children, fs, num, i + 1)
    }
}

/// Every frame carrying `num` appears among the occurrences.
pub proof fn lemma_occurrences_complete(
    children: Seq<NodeV>,
    fs: Seq<FrameV>,
    num: FrameNumber,
    i: int,
    k: int,
)
    requires
        0 <= i <= k < fs.len(),
        fs[k].number == num,
    ensures
        spec_occurrences(children, fs, num, i).contains(SourceRef::spec_of_node(children[k])),
    decreases fs.len() - i,
{
    let rest = spec_occurrences(children, fs, num, i + 1);
    if i == k {
        assert(spec_occurrences(children, fs, num, i)[0] == SourceRef::spec_of_node(children[k]));
    } else {
        lemma_occurrences_complete(children, fs, num, i + 1, k);
        if fs[i].number == num {
            let whole = seq![SourceRef::spec_of_node(children[i])] + rest;
            let w = choose|w: int| 0 <= w < rest.len() && rest[w] == SourceRef::spec_of_node(
                children[k],
            );
            assert(whole[w + 1] == SourceRef::spec_of_node(children[k]));
        }
    }
}

/// Meaning of a `Frames` node: every child parsed as a frame, in order,
/// then the uniqueness check. A duplicated frame number is reported with
/// the source position of every frame carrying it.
pub open spec fn spec_frames_of(n: NodeV) -> Result<Seq<FrameV>, ErrorV> {
    if n.kind != NodeKind::Frames {
        Err(spec_grammar_single(NodeKind::Frames, Some(n)))
    } else {
        match spec_frames_fold(n.children, 0, Seq::empty()) {
            Err(e) => Err(e),
            Ok(fs) => match spec_find_dup(fs, 0) {
                None => Ok(fs),
                Some(i0) => Err(
                    ErrorV::FrameNumberNonUnique {
                        frame_number: fs[i0].number,
                        occurrences: spec_occurrences(n.children, fs, fs[i0].number, 0),
                    },
                ),
            },
        }
    }
}

impl Frames {
    /// Checks that no two frames share a number; on a collision, reports
    /// the first duplicated number with the source position of every frame
    /// carrying it. `children` are the frame nodes the frames came from,
    /// `refs` their source references.
    fn validate(frames: &Frames, refs: &Vec<SourceRef>, children: Ghost<Seq<NodeV>>) -> (r: Result<
        (),
        Error,
    >)
        requires
            frames@.len() == refs@.len(),
            refs@.len() == children@.len(),
            forall|k: int|
                0 <= k < refs@.len() ==> (#[trigger] refs@[k]@) == SourceRef::spec_of_node(
                    children@[k],
                ),
        ensures
            match r {
                Ok(_) => spec_find_dup(frames@, 0) is None,
                Err(e) => spec_find_dup(frames@, 0) matches Some(i0) && e@
                    == (ErrorV::FrameNumberNonUnique {
                    frame_number: frames@[i0].number,
                    occurrences: spec_occurrences(children@, frames@, frames@[i0].number, 0),
                }),
            },
    {
        let ghost fs = frames@;
        let count = frames.0.len();
        let mut a: usize = 0;
        while a < count
            invariant
                0 <= a <= count,
                fs == frames@,
                count == frames@.len(),
                count == frames.0@.len(),
                count == refs@.len(),
                count == children@.len(),
                forall|k: int|
                    0 <= k < count ==> (#[trigger] refs@[k]@) == SourceRef::spec_of_node(
                        children@[k],
                    ),
                forall|k: int| 0 <= k < count ==> (#[trigger] frames.0@[k]@) == fs[k],
                spec_find_dup(fs, 0) == spec_find_dup(fs, a as int),
            decreases count - a,
        {
            let mut b: usize = a + 1;
            while b < count
                invariant
                    a < b <= count || b == a + 1,
                    a < count,
                    fs == frames@,
                    count == frames@.len(),
                    count == frames.0@.len(),
                    count == refs@.len(),
                    count == children@.len(),
                    forall|k: int|
                        0 <= k < count ==> (#[trigger] refs@[k]@) == SourceRef::spec_of_node(
                            children@[k],
                        ),
                    forall|k: int| 0 <= k < count ==> (#[trigger] frames.0@[k]@) == fs[k],
                    forall|j: int| a < j < b ==> (#[trigger] fs[j].number) != fs[a as int].number,
                    spec_find_dup(fs, 0) == spec_find_dup(fs, a as int),
                decreases count - b,
            {
                if frames.0[b].number == frames.0[a].number {
                    proof {
                        assert(fs[b as int].number == fs[a as int].number);
                    }
                    return Self::report_duplicate(frames, refs, children, a, Ghost(b as int));
                }
                b = b + 1;
            }
            proof {
                assert(spec_find_dup(fs, a as int) == spec_find_dup(fs, a as int + 1)) by {
                    assert(!(exists|j: int|
                        a < j < fs.len() && (#[trigger] fs[j].number) == fs[a as int].number));
                }
            }
            a = a + 1;
        }
        proof {
            assert(spec_find_dup(fs, count as int) is None);
        }
        Ok(())
    }

    /// Builds the collision report for the duplicated number at index `a`.
    fn report_duplicate(
        frames: &Frames,
        refs: &Vec<SourceRef>,
        children: Ghost<Seq<NodeV>>,
        a: usize,
        w: Ghost<int>,
    ) -> (r: Result<(), Error>)
        requires
            frames@.len() == refs@.len(),
            refs@.len() == children@.len(),
            forall|k: int|
                0 <= k < refs@.len() ==> (#[trigger] refs@[k]@) == SourceRef::spec_of_node(
                    children@[k],
                ),
            a < frames@.len(),
            a < w@ < frames@.len(),
            frames@[w@].number == frames@[a as int].number,
            spec_find_dup(frames@, 0) == spec_find_dup(frames@, a as int),
        ensures
            r matches Err(e) && spec_find_dup(frames@, 0) matches Some(i0) && e@
                == (ErrorV::FrameNumberNonUnique {
                frame_number: frames@[i0].number,
                occurrences: spec_occurrences(children@, frames@, frames@[i0].number, 0),
            }),
    {
        let ghost fs = frames@;
        proof {
            assert(spec_find_dup(fs, a as int) == Some(a as int)) by {
                assert(a < w@ < fs.len() && (#[trigger] fs[w@].number) == fs[a as int].number);
            }
        }
        let count = frames.0.len();
        let num = frames.0[a].number;
        let ghost goal = spec_occurrences(children@, fs, num, 0);
        let mut occ: Vec<SourceRef> = Vec::new();
        let mut k: usize = 0;
        while k < count
            invariant
                0 <= k <= count,
                fs == frames@,
                count == frames@.len(),
                count == frames.0@.len(),
                count == refs@.len(),
                count == children@.len(),
                num == fs[a as int].number,
                a < count,
                forall|k2: int|
                    0 <= k2 < count ==> (#[trigger] refs@[k2]@) == SourceRef::spec_of_node(
                        children@[k2],
                    ),
                forall|k2: int| 0 <= k2 < count ==> (#[trigger] frames.0@[k2]@) == fs[k2],
                goal == spec_occurrences(children@, fs, num, 0),
                goal =~= Seq::new(occ@.len(), |q: int| occ@[q]@) + spec_occurrences(
                    children@,
                    fs,
                    num,
                    k as int,
                ),
            decreases count - k,
        {
            let ghost occ_prev = Seq::new(occ@.len(), |q: int| occ@[q]@);
            if frames.0[k].number == num {
                let rk = &refs[k];
                occ.push(
                    SourceRef { kind: rk.kind, text: rk.text.clone(), line: rk.line, col: rk.col },
                );
                proof {
                    assert(Seq::new(occ@.len(), |q: int| occ@[q]@) =~= occ_prev.push(
                        refs@[k as int]@,
                    ));
                    assert(goal =~= Seq::new(occ@.len(), |q: int| occ@[q]@) + spec_occurrences(
                        children@,
                        fs,
                        num,
                        k as int + 1,
                    ));
                }
            } else {
                proof {
                    assert(goal =~= Seq::new(occ@.len(), |q: int| occ@[q]@) + spec_occurrences(
                        children@,
                        fs,
                        num,
                        k as int + 1,
                    ));
                }
            }
            k = k + 1;
        }
        proof {
            assert(spec_occurrences(children@, fs, num, count as int)
                =~= Seq::<SourceRefV>::empty());
            assert(goal =~= Seq::new(occ@.len(), |q: int| occ@[q]@));
        }
        Err(Error::FrameNumberNonUnique { frame_number: num, occurrences: occ })
    }

    /// Reads a frame collection from a `Frames` node, enforcing that no two
    /// frames share a number.
    pub fn from_node(n: &Node) -> (r: Result<Frames, Error>)
        ensures
            match r {
                Ok(fs) => spec_frames_of(n@) == Ok::<Seq<FrameV>, ErrorV>(fs@),
                Err(e) => spec_frames_of(n@) == Err::<Seq<FrameV>, ErrorV>(e@),
            },
    {
        match ObjectDataParser::expect_kind(n, NodeKind::Frames) {
            Ok(_) => {},
            Err(e) => {
                return Err(e);
            },
        }
        let len = n.children.len();
        proof {
            lemma_node_seq_view(n.children@);
        }
        let mut frames = Frames::new();
        let mut refs: Vec<SourceRef> = Vec::new();
        let mut i: usize = 0;
        while i < len
            invariant
                0 <= i <= len,
                len == n@.children.len(),
                n@.kind == NodeKind::Frames,
                n@.children == crate::syntax::children_view(n.children),
                len == n.children@.len(),
                forall|j: int|
                    0 <= j < len ==> crate::syntax::children_view(n.children)[j]
                        == #[trigger] n.children@[j]@,
                frames@.len() == i,
                refs@.len() == i,
                forall|k: int|
                    0 <= k < i ==> (#[trigger] refs@[k]@) == SourceRef::spec_of_node(
                        n@.children[k],
                    ),
                spec_frames_fold(n@.children, 0, Seq::empty()) == spec_frames_fold(
                    n@.children,
                    i as int,
                    frames@,
                ),
            decreases len - i,
        {
            let c = &n.children[i];
            let f = match crate::frame::Frame::from_node(c) {
                Ok(f) => f,
                Err(e) => {
                    return Err(e);
                },
            };
            let ghost prev = frames@;
            frames.0.push(f);
            refs.push(SourceRef::of_node(c));
            proof {
                assert(frames@ =~= prev.push(f@));
            }
            i = i + 1;
        }
        match Self::validate(&frames, &refs, Ghost(n@.children)) {
            Ok(_) => Ok(frames),
            Err(e) => Err(e),
        }
    }
}

} // verus!

verus! {

/// At least one occurrence is listed from `i` on when some frame at or
/// after `i` carries the number.
proof fn lemma_occurrences_len_ge1(children: Seq<NodeV>, fs: Seq<FrameV>, num: FrameNumber, i: int, k: int)
    requires
        0 <= i <= k < fs.len(),
        fs[k].number == num,
    ensures
        spec_occurrences(children, fs, num, i).len() >= 1,
    decreases fs.len() - i,
{
    if i < k {
        lemma_occurrences_len_ge1(children, fs, num, i + 1, k);
    }
}

/// At least two occurrences are listed when two frames carry the number.
proof fn lemma_occurrences_len_ge2(
    children: Seq<NodeV>,
    fs: Seq<FrameV>,
    num: FrameNumber,
    i: int,
    k1: int,
    k2: int,
)
    requires
        0 <= i <= k1 < k2 < fs.len(),
        fs[k1].number == num,
        fs[k2].number == num,
    ensures
        spec_occurrences(children, fs, num, i).len() >= 2,
    decreases fs.len() - i,
{
    if i < k1 {
        lemma_occurrences_len_ge2(children, fs, num, i + 1, k1, k2);
    } else {
        lemma_occurrences_len_ge1(children, fs, num, i + 1, k2);
    }
}

/// Law: the uniqueness invariant. For a `Frames` node whose every child
/// parses as a frame: when all frame numbers are distinct, construction
/// succeeds with exactly those frames; when two or more frames share a
/// number, construction fails with that number, and the failure lists a
/// source reference for every frame carrying it — at least two, and one
/// for each colliding frame.
pub proof fn lemma_frames_uniqueness(n: NodeV, fs: Seq<FrameV>)
    requires
        n.kind == NodeKind::Frames,
        spec_frames_fold(n.children, 0, Seq::empty()) == Ok::<Seq<FrameV>, ErrorV>(fs),
    ensures
        spec_numbers_unique(fs) ==> spec_frames_of(n) == Ok::<Seq<FrameV>, ErrorV>(fs),
        !spec_numbers_unique(fs) ==> (spec_frames_of(n) matches Err(e) && (e matches
            ErrorV::FrameNumberNonUnique { frame_number, occurrences } && (exists|a: int, b: int|
            0 <= a < b < fs.len() && (#[trigger] fs[a].number) == frame_number && (
            #[trigger] fs[b].number) == frame_number) && occurrences.len() >= 2 && (forall|k: int|
            0 <= k < fs.len() && (#[trigger] fs[k].number) == frame_number
                ==> occurrences.contains(SourceRef::spec_of_node(n.children[k]))))),
{
    lemma_find_dup_none(fs, 0);
    if spec_numbers_unique(fs) {
    } else {
        let found = spec_find_dup(fs, 0);
        if found is None {
            assert(spec_numbers_unique(fs));
        }
        let i0 = found->0;
        lemma_find_dup_some(fs, 0, i0);
        let num = fs[i0].number;
        let j0 = choose|j: int| i0 < j < fs.len() && (#[trigger] fs[j].number) == fs[i0].number;
        assert(fs[i0].number == num && fs[j0].number == num);
        lemma_occurrences_len_ge2(n.children, fs, num, 0, i0, j0);
        assert forall|k: int|
            0 <= k < fs.len() && (#[trigger] fs[k].number) == num implies spec_occurrences(
            n.children,
            fs,
            num,
            0,
        ).contains(SourceRef::spec_of_node(n.children[k])) by {
            lemma_occurrences_complete(n.children, fs, num, 0, k);
        }
    }
}

} // verus!
