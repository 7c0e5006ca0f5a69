//! Path construction and the finished path model.
//!
//! A [`PathBuilder`] consumes an ordered stream of draw commands — move,
//! line, cubic curve, close — while tracking a cursor, the last point
//! placed in the open subpath.  Finalizing it yields an immutable [`Path`]:
//! an ordered sequence of subpaths, each an ordered run of segments.  The
//! chaining invariant — every segment starts where its predecessor ended,
//! and a subpath's first segment starts at the point of the `move_to` that
//! opened it — is established by the builder and carried by every path it
//! produces.

use vstd::prelude::*;

use crate::float2::{spec_point_eq, Float2};

verus! {

/// One piece of a subpath: a straight line or a cubic Bezier curve.
/// Every coordinate is an IEEE-754 binary32 encoding.
#[derive(Clone, Copy, Debug, PartialEq, Eq, Structural)]
pub enum Segment {
    /// A straight line from `from` to `to`.
    Line { from: Float2, to: Float2 },
    /// A cubic Bezier curve from `from` to `to`, shaped by the two
    /// control points.
    CubicBezier { from: Float2, control1: Float2, control2: Float2, to: Float2 },
}

impl Segment {
    /// The point at which the segment starts.
    pub open spec fn spec_from(self) -> Float2 {
        match self {
            Segment::Line { from, .. } => from,
            Segment::CubicBezier { from, .. } => from,
        }
    }

    /// The point at which the segment ends.
    pub open spec fn spec_to(self) -> Float2 {
        match self {
            Segment::Line { to, .. } => to,
            Segment::CubicBezier { to, .. } => to,
        }
    }

    /// The point at which the segment starts.
    pub fn from_point(&self) -> (r: Float2)
        ensures
            r == self.spec_from(),
    {
        match self {
            Segment::Line { from, .. } => *from,
            Segment::CubicBezier { from, .. } => *from,
        }
    }

    /// The point at which the segment ends.
    pub fn to_point(&self) -> (r: Float2)
        ensures
            r == self.spec_to(),
    {
        match self {
            Segment::Line { to, .. } => *to,
            Segment::CubicBezier { to, .. } => *to,
        }
    }
}

/// The chaining discipline of a run of segments: the first segment starts
/// at `start`, and every later segment starts where its predecessor ended.
pub open spec fn chained(start: Float2, segs: Seq<Segment>) -> bool {
    forall|i: int|
        0 <= i < segs.len() ==> (#[trigger] segs[i]).spec_from() == (if i == 0 {
            start
        } else {
            segs[i - 1].spec_to()
        })
}

/// The last point of a run of segments that was opened at `start`: the
/// end of the last segment, or `start` while the run is empty.
pub open spec fn run_end(start: Float2, segs: Seq<Segment>) -> Float2 {
    if segs.len() == 0 {
        start
    } else {
        segs.last().spec_to()
    }
}

/// The segment run a close command produces from an open run: unchanged
/// when the run already ends at `start` as an encoded value, otherwise the
/// run with a closing line from its end back to `start` appended.
pub open spec fn spec_closed_run(start: Float2, segs: Seq<Segment>) -> Seq<Segment> {
    if spec_point_eq(run_end(start, segs), start) {
        segs
    } else {
        segs.push((Segment::Line { from: run_end(start, segs), to: start }))
    }
}

/// Appending a segment that starts at the run's end point preserves the
/// chaining discipline.
proof fn lemma_chained_push(start: Float2, segs: Seq<Segment>, s: Segment)
    requires
        chained(start, segs),
        s.spec_from() == (if segs.len() == 0 {
            start
        } else {
            segs.last().spec_to()
        }),
    ensures
        chained(start, segs.push(s)),
{
    let segs2 = segs.push(s);
    assert forall|i: int| 0 <= i < segs2.len() implies (#[trigger] segs2[i]).spec_from() == (if i
        == 0 {
        start
    } else {
        segs2[i - 1].spec_to()
    }) by {
        if i < segs.len() {
            assert(segs2[i] == segs[i]);
            if i > 0 {
                assert(segs2[i - 1] == segs[i - 1]);
            }
            assert(segs[i].spec_from() == (if i == 0 {
                start
            } else {
                segs[i - 1].spec_to()
            }));
        } else {
            assert(segs2[i] == s);
            if i > 0 {
                assert(segs2[i - 1] == segs[i - 1]);
            }
        }
    }
}

/// One contiguous run of segments, started by a move command and
/// optionally terminated by a close command.
#[derive(Debug)]
pub struct Subpath {
    /// The point of the `move_to` that opened the subpath.
    pub start: Float2,
    /// Whether the subpath's end connects back to its start.
    pub closed: bool,
    /// The segments of the subpath, in the order they were appended.
    pub segments: Vec<Segment>,
}

impl Subpath {
    /// A subpath is well formed when its segments obey the chaining
    /// discipline from its start point.
    pub open spec fn wf(self) -> bool {
        chained(self.start, self.segments@)
    }

    /// The number of segments in the subpath.
    pub fn segment_count(&self) -> (n: usize)
        ensures
            n == self.segments@.len(),
    {
        self.segments.len()
    }

    /// The segment at a position, counted from zero in append order.
    pub fn segment(&self, i: usize) -> (s: &Segment)
        requires
            i < self.segments@.len(),
        ensures
            *s == self.segments@[i as int],
    {
        &self.segments[i]
    }

    /// Whether the subpath is closed.
    pub fn is_closed(&self) -> (r: bool)
        ensures
            r == self.closed,
    {
        self.closed
    }

    /// The point of the `move_to` that opened the subpath.
    pub fn start_point(&self) -> (r: Float2)
        ensures
            r == self.start,
    {
        self.start
    }
}

/// An immutable, finished path: subpaths in creation order.  No method
/// mutates a built path, so traversing it any number of times reads the
/// same sequences.
#[derive(Debug)]
pub struct Path {
    subpaths: Vec<Subpath>,
}

impl View for Path {
    type V = Seq<Subpath>;

    /// A path is modelled by the sequence of its subpaths.
    closed spec fn view(&self) -> Seq<Subpath> {
        self.subpaths@
    }
}

impl Path {
    /// A path is well formed when every subpath in it is.
    pub open spec fn wf(self) -> bool {
        forall|i: int| 0 <= i < self@.len() ==> (#[trigger] self@[i]).wf()
    }

    /// The number of subpaths, in creation order.
    pub fn subpath_count(&self) -> (n: usize)
        ensures
            n == self@.len(),
    {
        self.subpaths.len()
    }

    /// The subpath at a position, counted from zero in creation order.
    pub fn subpath(&self, i: usize) -> (s: &Subpath)
        requires
            i < self@.len(),
        ensures
            *s == self@[i as int],
    {
        &self.subpaths[i]
    }

    /// A copy of the segment run of the subpath at a position.  The read
    /// is determined by the path value alone and mutates nothing, so any
    /// number of traversals yields the same sequence.
    pub fn segments_of(&self, i: usize) -> (r: Vec<Segment>)
        requires
            i < self@.len(),
        ensures
            r@ == self@[i as int].segments@,
    {
        let sub = &self.subpaths[i];
        let mut out: Vec<Segment> = Vec::new();
        proof {
            assert(out@ =~= sub.segments@.take(0));
        }
        let mut j: usize = 0;
        while j < sub.segments.len()
            invariant
                j <= sub.segments@.len(),
                out@ == sub.segments@.take(j as int),
                *sub == self@[i as int],
            decreases sub.segments@.len() - j,
        {
            out.push(sub.segments[j]);
            j = j + 1;
            proof {
                assert(out@ =~= sub.segments@.take(j as int));
            }
        }
        proof {
            assert(sub.segments@.take(sub.segments@.len() as int) =~= sub.segments@);
        }
        out
    }
}

/// The recoverable failures of path construction.
#[derive(Clone, Copy, Debug, PartialEq, Eq, Structural)]
pub enum BuildError {
    /// A segment append or a close was attempted with no open cursor.
    NoCurrentPoint,
    /// A finalize was attempted on a builder that never started a subpath.
    EmptyPath,
}

/// The path construction state machine.  It is either empty (no subpath
/// open, no cursor) or open (a subpath in progress, the cursor on its last
/// placed point); a close returns it to empty until the next `move_to`.
/// Finalizing by [`PathBuilder::build`] consumes the builder.
pub struct PathBuilder {
    finished: Vec<Subpath>,
    has_current: bool,
    cur_start: Float2,
    cur_segments: Vec<Segment>,
}

impl PathBuilder {
    /// The subpaths already finalized, in creation order.
    pub closed spec fn spec_finished(&self) -> Seq<Subpath> {
        self.finished@
    }

    /// Whether a subpath is open.
    pub closed spec fn spec_open(&self) -> bool {
        self.has_current
    }

    /// The start point of the open subpath.
    pub closed spec fn spec_start(&self) -> Float2 {
        self.cur_start
    }

    /// The segments of the open subpath, in append order.
    pub closed spec fn spec_segments(&self) -> Seq<Segment> {
        self.cur_segments@
    }

    /// The last point placed in the open subpath: the end of its last
    /// segment, or its start point while it holds no segment.
    pub open spec fn spec_cursor_point(&self) -> Float2 {
        run_end(self.spec_start(), self.spec_segments())
    }

    /// The cursor: the last placed point, or nothing while no subpath is
    /// open.
    pub open spec fn spec_cursor(&self) -> Option<Float2> {
        if self.spec_open() {
            Some(self.spec_cursor_point())
        } else {
            None
        }
    }

    /// A builder is well formed when every finalized subpath is well
    /// formed and the open subpath, if any, obeys the chaining discipline.
    pub open spec fn wf(&self) -> bool {
        &&& forall|i: int|
            0 <= i < self.spec_finished().len() ==> (#[trigger] self.spec_finished()[i]).wf()
        &&& self.spec_open() ==> chained(self.spec_start(), self.spec_segments())
    }

    /// Creates an empty builder: no subpath, no cursor.
    pub fn new() -> (r: PathBuilder)
        ensures
            r.wf(),
            !r.spec_open(),
            r.spec_finished() == Seq::<Subpath>::empty(),
    {
        PathBuilder {
            finished: Vec::new(),
            has_current: false,
            cur_start: Float2 { x: 0, y: 0 },
            cur_segments: Vec::new(),
        }
    }

    /// Starts a new subpath at `p` and places the cursor there.  A subpath
    /// still in progress is finalized as it stands, open and unclosed,
    /// before the new one starts.
    pub fn move_to(&mut self, p: Float2)
        requires
            old(self).wf(),
        ensures
            final(self).wf(),
            final(self).spec_open(),
            final(self).spec_start() == p,
            final(self).spec_segments() == Seq::<Segment>::empty(),
            final(self).spec_cursor() == Some(p),
            old(self).spec_open() ==> {
                &&& final(self).spec_finished().len() == old(self).spec_finished().len() + 1
                &&& final(self).spec_finished().drop_last() == old(self).spec_finished()
                &&& final(self).spec_finished().last().start == old(self).spec_start()
                &&& final(self).spec_finished().last().closed == false
                &&& final(self).spec_finished().last().segments@ == old(self).spec_segments()
            },
            !old(self).spec_open() ==> final(self).spec_finished() == old(self).spec_finished(),
    {
        if self.has_current {
            let mut segs: Vec<Segment> = Vec::new();
            core::mem::swap(&mut segs, &mut self.cur_segments);
            self.finished.push(Subpath { start: self.cur_start, closed: false, segments: segs });
            proof {
                assert(self.finished@.drop_last() =~= old(self).finished@);
            }
        }
        self.has_current = true;
        self.cur_start = p;
        self.cur_segments = Vec::new();
        proof {
            assert forall|i: int| 0 <= i < self.finished@.len() implies (#[trigger] self.finished@[i]).wf() by {
                if i < old(self).finished@.len() {
                    assert(self.finished@[i] == old(self).finished@[i]);
                    assert(old(self).spec_finished()[i].wf());
                } else {
                    assert(self.finished@[i].segments@ == old(self).cur_segments@);
                    assert(chained(old(self).spec_start(), old(self).spec_segments()));
                }
            }
        }
    }

    /// Appends a straight line from the cursor to `p` and moves the cursor
    /// to `p`.  With no open subpath it fails with
    /// [`BuildError::NoCurrentPoint`] and leaves the builder unchanged.
    pub fn line_to(&mut self, p: Float2) -> (r: Result<(), BuildError>)
        requires
            old(self).wf(),
        ensures
            final(self).wf(),
            !old(self).spec_open() ==> {
                &&& r == Err::<(), BuildError>(BuildError::NoCurrentPoint)
                &&& *final(self) == *old(self)
            },
            old(self).spec_open() ==> {
                &&& r == Ok::<(), BuildError>(())
                &&& final(self).spec_open()
                &&& final(self).spec_start() == old(self).spec_start()
                &&& final(self).spec_finished() == old(self).spec_finished()
                &&& final(self).spec_segments() == old(self).spec_segments().push(
                    (Segment::Line { from: old(self).spec_cursor_point(), to: p }),
                )
                &&& final(self).spec_cursor() == Some(p)
            },
    {
        if !self.has_current {
            return Err(BuildError::NoCurrentPoint);
        }
        let n: usize = self.cur_segments.len();
        let c: Float2 = if n == 0 {
            self.cur_start
        } else {
            self.cur_segments[n - 1].to_point()
        };
        let seg = Segment::Line { from: c, to: p };
        proof {
            lemma_chained_push(self.cur_start, self.cur_segments@, seg);
        }
        self.cur_segments.push(seg);
        proof {
            assert forall|i: int| 0 <= i < self.finished@.len() implies (#[trigger] self.finished@[i]).wf() by {
                assert(old(self).spec_finished()[i].wf());
            }
        }
        Ok(())
    }

    /// Appends a cubic Bezier curve from the cursor to `end`, shaped by
    /// the control points `c1` and `c2`, and moves the cursor to `end`.
    /// With no open subpath it fails with [`BuildError::NoCurrentPoint`]
    /// and leaves the builder unchanged.
    pub fn add_cubic(&mut self, c1: Float2, c2: Float2, end: Float2) -> (r: Result<
        (),
        BuildError,
    >)
        requires
            old(self).wf(),
        ensures
            final(self).wf(),
            !old(self).spec_open() ==> {
                &&& r == Err::<(), BuildError>(BuildError::NoCurrentPoint)
                &&& *final(self) == *old(self)
            },
            old(self).spec_open() ==> {
                &&& r == Ok::<(), BuildError>(())
                &&& final(self).spec_open()
                &&& final(self).spec_start() == old(self).spec_start()
                &&& final(self).spec_finished() == old(self).spec_finished()
                &&& final(self).spec_segments() == old(self).spec_segments().push(
                    (Segment::CubicBezier {
                        from: old(self).spec_cursor_point(),
                        control1: c1,
                        control2: c2,
                        to: end,
                    }),
                )
                &&& final(self).spec_cursor() == Some(end)
            },
    {
        if !self.has_current {
            return Err(BuildError::NoCurrentPoint);
        }
        let n: usize = self.cur_segments.len();
        let c: Float2 = if n == 0 {
            self.cur_start
        } else {
            self.cur_segments[n - 1].to_point()
        };
        let seg = Segment::CubicBezier { from: c, control1: c1, control2: c2, to: end };
        proof {
            lemma_chained_push(self.cur_start, self.cur_segments@, seg);
        }
        self.cur_segments.push(seg);
        proof {
            assert forall|i: int| 0 <= i < self.finished@.len() implies (#[trigger] self.finished@[i]).wf() by {
                assert(old(self).spec_finished()[i].wf());
            }
        }
        Ok(())
    }

    /// Marks the open subpath closed and finalizes it.  When the cursor
    /// and the subpath's start differ as encoded values, a closing line
    /// from the cursor back to the start is appended first.  The cursor is
    /// cleared.  With no open subpath it fails with
    /// [`BuildError::NoCurrentPoint`] and leaves the builder unchanged.
    pub fn close(&mut self) -> (r: Result<(), BuildError>)
        requires
            old(self).wf(),
        ensures
            final(self).wf(),
            !old(self).spec_open() ==> {
                &&& r == Err::<(), BuildError>(BuildError::NoCurrentPoint)
                &&& *final(self) == *old(self)
            },
            old(self).spec_open() ==> {
                &&& r == Ok::<(), BuildError>(())
                &&& !final(self).spec_open()
                &&& final(self).spec_cursor() == Option::<Float2>::None
                &&& final(self).spec_finished().len() == old(self).spec_finished().len() + 1
                &&& final(self).spec_finished().drop_last() == old(self).spec_finished()
                &&& final(self).spec_finished().last().start == old(self).spec_start()
                &&& final(self).spec_finished().last().closed
                &&& final(self).spec_finished().last().segments@ == spec_closed_run(
                    old(self).spec_start(),
                    old(self).spec_segments(),
                )
            },
    {
        if !self.has_current {
            return Err(BuildError::NoCurrentPoint);
        }
        let n: usize = self.cur_segments.len();
        let c: Float2 = if n == 0 {
            self.cur_start
        } else {
            self.cur_segments[n - 1].to_point()
        };
        if !c.ieee_eq(self.cur_start) {
            let seg = Segment::Line { from: c, to: self.cur_start };
            proof {
                lemma_chained_push(self.cur_start, self.cur_segments@, seg);
            }
            self.cur_segments.push(seg);
        }
        let mut segs: Vec<Segment> = Vec::new();
        core::mem::swap(&mut segs, &mut self.cur_segments);
        self.finished.push(Subpath { start: self.cur_start, closed: true, segments: segs });
        self.has_current = false;
        proof {
            assert(self.finished@.drop_last() =~= old(self).finished@);
            assert(self.finished@.last().segments@ == spec_closed_run(
                old(self).spec_start(),
                old(self).spec_segments(),
            ));
            assert forall|i: int| 0 <= i < self.finished@.len() implies (#[trigger] self.finished@[i]).wf() by {
                if i < self.finished@.len() - 1 {
                    assert(self.finished@[i] == old(self).finished@[i]);
                    assert(old(self).spec_finished()[i].wf());
                }
            }
        }
        Ok(())
    }

    /// The cursor: the last placed point, or nothing while no subpath is
    /// open.  A pure query; it never fails.
    pub fn cursor(&self) -> (r: Option<Float2>)
        ensures
            r == self.spec_cursor(),
    {
        if self.has_current {
            let n: usize = self.cur_segments.len();
            if n == 0 {
                Some(self.cur_start)
            } else {
                Some(self.cur_segments[n - 1].to_point())
            }
        } else {
            None
        }
    }

    /// Finalizes the builder into an immutable path holding every subpath
    /// accumulated so far, in creation order; a subpath still in progress
    /// is included open and unclosed.  The builder is consumed.  It fails
    /// with [`BuildError::EmptyPath`] exactly when no subpath was ever
    /// started.
    pub fn build(self) -> (r: Result<Path, BuildError>)
        requires
            self.wf(),
        ensures
            match r {
                Ok(p) => {
                    &&& self.spec_open() || self.spec_finished().len() > 0
                    &&& p.wf()
                    &&& !self.spec_open() ==> p@ == self.spec_finished()
                    &&& self.spec_open() ==> {
                        &&& p@.len() == self.spec_finished().len() + 1
                        &&& p@.drop_last() == self.spec_finished()
                        &&& p@.last().start == self.spec_start()
                        &&& p@.last().closed == false
                        &&& p@.last().segments@ == self.spec_segments()
                    }
                },
                Err(e) => {
                    &&& e == BuildError::EmptyPath
                    &&& !self.spec_open()
                    &&& self.spec_finished().len() == 0
                },
            },
    {
        let PathBuilder { mut finished, has_current, cur_start, cur_segments } = self;
        if has_current {
            finished.push(Subpath { start: cur_start, closed: false, segments: cur_segments });
            proof {
                assert(finished@.drop_last() =~= self.spec_finished());
            }
        } else if finished.len() == 0 {
            return Err(BuildError::EmptyPath);
        }
        proof {
            assert forall|i: int| 0 <= i < finished@.len() implies (#[trigger] finished@[i]).wf() by {
                if i < self.spec_finished().len() {
                    assert(self.spec_finished()[i].wf());
                } else {
                    assert(finished@[i].segments@ == self.spec_segments());
                }
            }
        }
        Ok(Path { subpaths: finished })
    }
}

} // verus!
